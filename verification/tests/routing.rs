use agilus::router::{match_route, Method, Route, RouteError};

#[test]
fn root_and_healthcheck_routes() {
    assert_eq!(match_route(Method::Get, "/"), Ok(Route::Root));
    assert_eq!(match_route(Method::Post, "/"), Err(RouteError::UnknownPath));
    assert_eq!(match_route(Method::Get, "/healthcheck"), Ok(Route::Healthcheck));
    assert_eq!(match_route(Method::Put, "/healthcheck"), Err(RouteError::UnknownPath));
}

#[test]
fn user_routes() {
    assert_eq!(match_route(Method::Post, "/api/v1/users/"), Ok(Route::CreateUser));
    assert_eq!(match_route(Method::Get, "/api/v1/users"), Ok(Route::ListUsers));
    assert_eq!(match_route(Method::Get, "/api/v1/users/7"), Ok(Route::GetUser(7)));
    assert_eq!(match_route(Method::Put, "/api/v1/users/7"), Ok(Route::UpdateUser(7)));
    assert_eq!(match_route(Method::Delete, "/api/v1/users/7"), Ok(Route::DeleteUser(7)));
}

#[test]
fn ticket_routes() {
    assert_eq!(match_route(Method::Post, "/api/v1/tickets/"), Ok(Route::CreateTicket));
    assert_eq!(match_route(Method::Get, "/api/v1/tickets"), Ok(Route::ListTickets));
    assert_eq!(match_route(Method::Get, "/api/v1/tickets/12"), Ok(Route::GetTicket(12)));
    assert_eq!(match_route(Method::Put, "/api/v1/tickets/12"), Ok(Route::UpdateTicket(12)));
    assert_eq!(match_route(Method::Delete, "/api/v1/tickets/12"), Ok(Route::DeleteTicket(12)));
}

#[test]
fn ticket_type_routes() {
    assert_eq!(match_route(Method::Post, "/api/v1/ticket_types/"), Ok(Route::CreateTicketType));
    assert_eq!(match_route(Method::Get, "/api/v1/ticket_types"), Ok(Route::ListTicketTypes));
    assert_eq!(match_route(Method::Get, "/api/v1/ticket_types/5"), Ok(Route::GetTicketType(5)));
    assert_eq!(
        match_route(Method::Put, "/api/v1/ticket_types/5"),
        Ok(Route::UpdateTicketType(5))
    );
    assert_eq!(
        match_route(Method::Delete, "/api/v1/ticket_types/5"),
        Ok(Route::DeleteTicketType(5))
    );
}

#[test]
fn ticket_status_routes() {
    assert_eq!(
        match_route(Method::Post, "/api/v1/ticket_statuses/"),
        Ok(Route::CreateTicketStatus)
    );
    assert_eq!(
        match_route(Method::Get, "/api/v1/ticket_statuses"),
        Ok(Route::ListTicketStatuses)
    );
    assert_eq!(
        match_route(Method::Get, "/api/v1/ticket_statuses/3"),
        Ok(Route::GetTicketStatus(3))
    );
    assert_eq!(
        match_route(Method::Put, "/api/v1/ticket_statuses/3"),
        Ok(Route::UpdateTicketStatus(3))
    );
    assert_eq!(
        match_route(Method::Delete, "/api/v1/ticket_statuses/3"),
        Ok(Route::DeleteTicketStatus(3))
    );
}

#[test]
fn non_numeric_id_is_malformed() {
    assert_eq!(match_route(Method::Get, "/api/v1/users/abc"), Err(RouteError::MalformedId));
    assert_eq!(match_route(Method::Delete, "/api/v1/tickets/1x"), Err(RouteError::MalformedId));
    assert_eq!(match_route(Method::Put, "/api/v1/ticket_types/-1"), Err(RouteError::MalformedId));
}

#[test]
fn id_bounds_of_u64() {
    assert_eq!(
        match_route(Method::Get, "/api/v1/users/18446744073709551615"),
        Ok(Route::GetUser(u64::MAX))
    );
    assert_eq!(
        match_route(Method::Get, "/api/v1/users/18446744073709551616"),
        Err(RouteError::MalformedId)
    );
}

#[test]
fn leading_zeros_are_read_as_decimal() {
    assert_eq!(match_route(Method::Get, "/api/v1/users/007"), Ok(Route::GetUser(7)));
    assert_eq!(match_route(Method::Get, "/api/v1/users/0"), Ok(Route::GetUser(0)));
}

#[test]
fn method_outside_the_table_matches_nothing() {
    assert_eq!(match_route(Method::Post, "/api/v1/users/7"), Err(RouteError::UnknownPath));
    assert_eq!(match_route(Method::Put, "/api/v1/users"), Err(RouteError::UnknownPath));
    assert_eq!(match_route(Method::Get, "/api/v1/users/"), Err(RouteError::UnknownPath));
    assert_eq!(match_route(Method::Other, "/api/v1/users/7"), Err(RouteError::UnknownPath));
}

#[test]
fn deeper_paths_match_nothing() {
    assert_eq!(match_route(Method::Get, "/api/v1/users/5/extra"), Err(RouteError::UnknownPath));
    assert_eq!(match_route(Method::Get, "/api/v1"), Err(RouteError::UnknownPath));
    assert_eq!(match_route(Method::Get, ""), Err(RouteError::UnknownPath));
    assert_eq!(match_route(Method::Get, "/api/v1/unknown"), Err(RouteError::UnknownPath));
}

#[test]
fn creation_routes_answer_201_and_the_rest_200() {
    assert_eq!(Route::CreateUser.success_status(), 201);
    assert_eq!(Route::CreateTicket.success_status(), 201);
    assert_eq!(Route::CreateTicketType.success_status(), 201);
    assert_eq!(Route::CreateTicketStatus.success_status(), 201);
    assert_eq!(Route::Root.success_status(), 200);
    assert_eq!(Route::ListUsers.success_status(), 200);
    assert_eq!(Route::GetTicket(1).success_status(), 200);
    assert_eq!(Route::UpdateTicketType(2).success_status(), 200);
    assert_eq!(Route::DeleteTicketStatus(3).success_status(), 200);
}
