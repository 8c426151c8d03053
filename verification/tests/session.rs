use tester::api::{
    Api, ApiError, ApiResponse, BodyKind, Envelope, Header, Method, RequestOptions, Reservation,
    SessionState, UserSession,
};
use tester::correlation::CorrelationId;
use tester::error::Error;

const FIRST: CorrelationId = CorrelationId(0x67e55044_10b1_426f_9247_bb680e5fe0c8);
const SECOND: CorrelationId = CorrelationId(0x6d93bade_bd9f_4e13_8914_9474e1e3567b);
const CUSTOMER: CorrelationId = CorrelationId(0xf81d4fae_7dec_41d0_a765_00a0c91e6bf6);

fn api() -> Api {
    Api::new(String::from("http://127.0.0.1:8585/"))
}

fn from_server(server_id: Option<CorrelationId>, kind: BodyKind) -> Envelope {
    Envelope { server_id, customer_id: Some(CUSTOMER), kind }
}

fn server_header(id: &str) -> Header {
    Header { name: String::from("X-Server-Id"), value: String::from(id) }
}

fn customer_header(id: &str) -> Header {
    Header { name: String::from("X-Customer-Id"), value: String::from(id) }
}

#[test]
fn created_session_has_a_random_customer_and_holds_nothing() {
    let api = api();
    let session = api.create_user_session(None);
    assert_eq!(session.api, &api);
    assert_eq!(session.server_id, None);
    assert_eq!(session.state, SessionState::Idle);
    assert_eq!((session.customer_id.0 >> 76) & 0xf, 4);
    assert_eq!((session.customer_id.0 >> 62) & 0x3, 2);

    let pinned = api.create_user_session(Some(FIRST));
    assert_eq!(pinned.server_id, Some(FIRST));
    assert_eq!(pinned.state, SessionState::Idle);
}

#[test]
fn new_session_is_as_given() {
    let api = api();
    let session = UserSession::new(&api, CUSTOMER, Some(SECOND));
    assert_eq!(
        session,
        UserSession { api: &api, customer_id: CUSTOMER, server_id: Some(SECOND), state: SessionState::Idle }
    );
}

#[test]
fn request_options_carry_customer_and_affinity() {
    let api = api();
    let session = UserSession::new(&api, CUSTOMER, None);
    assert_eq!(
        session.request_options(),
        RequestOptions { server_id: None, customer_id: Some(CUSTOMER) }
    );
    let session = UserSession::new(&api, CUSTOMER, Some(FIRST));
    assert_eq!(
        session.request_options(),
        RequestOptions { server_id: Some(FIRST), customer_id: Some(CUSTOMER) }
    );
}

#[test]
fn session_requests_are_those_of_the_protocol() {
    let api = api();
    let session = UserSession::new(&api, CUSTOMER, None);
    let customer = customer_header("f81d4fae-7dec-41d0-a765-00a0c91e6bf6");

    let request = session.get_available_tickets_request().unwrap();
    assert_eq!(request.method, Method::Get);
    assert_eq!(request.url, "http://127.0.0.1:8585/api/num_available_tickets");
    assert_eq!(request.headers, vec![customer_header("f81d4fae-7dec-41d0-a765-00a0c91e6bf6")]);
    assert_eq!(request.body, None);
    assert_eq!(request.timeout_ms, 1000);

    let request = session.reserve_ticket_request().unwrap();
    assert_eq!(request.method, Method::Post);
    assert_eq!(request.url, "http://127.0.0.1:8585/api/reserve_ticket");
    assert_eq!(request.headers, vec![customer_header("f81d4fae-7dec-41d0-a765-00a0c91e6bf6")]);
    assert_eq!(request.body, Some(String::new()));

    let request = session.buy_ticket_request(41).unwrap();
    assert_eq!(request.method, Method::Post);
    assert_eq!(request.url, "http://127.0.0.1:8585/api/buy_ticket");
    assert_eq!(request.headers, vec![customer_header("f81d4fae-7dec-41d0-a765-00a0c91e6bf6")]);
    assert_eq!(request.body, Some(String::from("41")));

    let request = session.abort_purchase_request(1000).unwrap();
    assert_eq!(request.method, Method::Post);
    assert_eq!(request.url, "http://127.0.0.1:8585/api/abort_purchase");
    assert_eq!(request.headers, vec![customer]);
    assert_eq!(request.body, Some(String::from("1000")));
}

#[test]
fn process_response_takes_the_affinity_and_hands_the_response_on() {
    let api = api();
    let mut session = UserSession::new(&api, CUSTOMER, None);
    let response = ApiResponse { server_id: Some(FIRST), customer_id: Some(CUSTOMER), result: Ok(5u8) };
    let same = session.process_response(response);
    assert_eq!(same, ApiResponse { server_id: Some(FIRST), customer_id: Some(CUSTOMER), result: Ok(5u8) });
    assert_eq!(session.server_id, Some(FIRST));
    assert_eq!(session.customer_id, CUSTOMER);
    assert_eq!(session.state, SessionState::Idle);
}

#[test]
fn affinity_follows_the_most_recent_server() {
    let api = api();
    let mut session = UserSession::new(&api, CUSTOMER, None);
    session.get_available_tickets(from_server(Some(FIRST), BodyKind::Payload), String::from("3")).unwrap();
    assert_eq!(session.server_id, Some(FIRST));
    session.get_available_tickets(from_server(Some(SECOND), BodyKind::Payload), String::from("3")).unwrap();
    assert_eq!(session.server_id, Some(SECOND));
}

#[test]
fn affinity_is_never_dropped() {
    let api = api();
    let mut session = UserSession::new(&api, CUSTOMER, None);
    session.get_available_tickets(from_server(None, BodyKind::Payload), String::from("3")).unwrap();
    assert_eq!(session.server_id, None);
    assert_eq!(session.reserve_ticket_request().unwrap().headers.len(), 1);

    session.reserve_ticket(from_server(Some(FIRST), BodyKind::Payload), String::from("1")).unwrap();
    assert_eq!(session.server_id, Some(FIRST));

    session.buy_ticket(from_server(None, BodyKind::Payload), String::from("1")).unwrap();
    assert_eq!(session.server_id, Some(FIRST));
    session.abort_purchase(from_server(None, BodyKind::BusinessError), String::from("too late")).unwrap();
    assert_eq!(session.server_id, Some(FIRST));

    let expected = vec![
        server_header("67e55044-10b1-426f-9247-bb680e5fe0c8"),
        customer_header("f81d4fae-7dec-41d0-a765-00a0c91e6bf6"),
    ];
    assert_eq!(session.get_available_tickets_request().unwrap().headers, expected);
    assert_eq!(session.reserve_ticket_request().unwrap().headers, expected);
    assert_eq!(session.buy_ticket_request(1).unwrap().headers, expected);
    assert_eq!(session.abort_purchase_request(1).unwrap().headers, expected);
}

#[test]
fn affinity_is_taken_from_a_business_error_too() {
    let api = api();
    let mut session = UserSession::new(&api, CUSTOMER, Some(FIRST));
    let response = session
        .buy_ticket(from_server(Some(SECOND), BodyKind::BusinessError), String::from("not reserved"))
        .unwrap();
    assert_eq!(response.result, Err(ApiError(String::from("not reserved"))));
    assert_eq!(response.server_id, Some(SECOND));
    assert_eq!(response.customer_id, Some(CUSTOMER));
    assert_eq!(session.server_id, Some(SECOND));
}

#[test]
fn failed_call_leaves_the_session_alone() {
    let api = api();
    let mut session = UserSession::new(&api, CUSTOMER, Some(FIRST));
    session.state = SessionState::Holding(9);
    let failed = session.reserve_ticket(from_server(Some(SECOND), BodyKind::Payload), String::from("what"));
    assert_eq!(failed, Err(Error::InvalidBody));
    assert_eq!(session.server_id, Some(FIRST));
    assert_eq!(session.state, SessionState::Holding(9));
    let failed = session.get_available_tickets(from_server(Some(SECOND), BodyKind::Payload), String::from(""));
    assert_eq!(failed, Err(Error::InvalidBody));
    assert_eq!(session.server_id, Some(FIRST));
}

#[test]
fn reserve_ticket_sets_what_the_session_holds() {
    let api = api();
    let mut session = UserSession::new(&api, CUSTOMER, None);
    let response = session.reserve_ticket(from_server(Some(FIRST), BodyKind::Payload), String::from("12")).unwrap();
    assert_eq!(response.result, Ok(Reservation::Reserved(12)));
    assert_eq!(session.state, SessionState::Holding(12));

    let response = session.reserve_ticket(from_server(Some(FIRST), BodyKind::Payload), String::from("13\n")).unwrap();
    assert_eq!(response.result, Ok(Reservation::Reserved(13)));
    assert_eq!(session.state, SessionState::Holding(13));

    let response = session.reserve_ticket(from_server(Some(FIRST), BodyKind::Payload), String::from("SOLD OUT")).unwrap();
    assert_eq!(response.result, Ok(Reservation::SoldOut));
    assert_eq!(session.state, SessionState::Idle);
}

#[test]
fn refused_reservation_keeps_what_the_session_holds() {
    let api = api();
    let mut session = UserSession::new(&api, CUSTOMER, None);
    session.reserve_ticket(from_server(None, BodyKind::Payload), String::from("12")).unwrap();
    let response = session
        .reserve_ticket(from_server(None, BodyKind::BusinessError), String::from("one at a time"))
        .unwrap();
    assert_eq!(response.result, Err(ApiError(String::from("one at a time"))));
    assert_eq!(session.state, SessionState::Holding(12));
}

#[test]
fn buying_and_aborting_do_not_change_what_the_session_holds() {
    let api = api();
    let mut session = UserSession::new(&api, CUSTOMER, None);
    session.reserve_ticket(from_server(None, BodyKind::Payload), String::from("12")).unwrap();
    let bought = session.buy_ticket(from_server(None, BodyKind::Payload), String::from("12")).unwrap();
    assert_eq!(bought.result, Ok(12));
    assert_eq!(session.state, SessionState::Holding(12));
    let aborted = session.abort_purchase(from_server(None, BodyKind::Payload), String::from("12")).unwrap();
    assert_eq!(aborted.result, Ok(12));
    assert_eq!(session.state, SessionState::Holding(12));
}

#[test]
fn available_tickets_are_counted() {
    let api = api();
    let mut session = UserSession::new(&api, CUSTOMER, None);
    let response = session.get_available_tickets(from_server(None, BodyKind::Payload), String::from("1000")).unwrap();
    assert_eq!(response.result, Ok(1000));
    assert_eq!(response.customer_id, Some(CUSTOMER));
    assert_eq!(response.server_id, None);
}
