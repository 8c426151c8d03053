use tester::api::{
    count_of, reservation_of, servers_of, size_of, Api, ApiError, ApiResponse, BodyKind, Envelope,
    Header, Method, Request, RequestOptions, Reservation, ResponseHead, CUSTOMER_ID_HEADER,
    SERVER_ID_HEADER, STATUS_BAD_REQUEST, STATUS_OK, TIMEOUT_MS,
};
use tester::correlation::CorrelationId;
use tester::error::{Error, HeaderFault, HeaderName};

const SERVER: u128 = 0x67e55044_10b1_426f_9247_bb680e5fe0c8;
const CUSTOMER: u128 = 0x6d93bade_bd9f_4e13_8914_9474e1e3567b;

fn api() -> Api {
    Api::new(String::from("http://127.0.0.1:8585/"))
}

fn payload() -> Envelope {
    Envelope {
        server_id: Some(CorrelationId(SERVER)),
        customer_id: Some(CorrelationId(CUSTOMER)),
        kind: BodyKind::Payload,
    }
}

fn refusal() -> Envelope {
    Envelope { server_id: Some(CorrelationId(SERVER)), customer_id: None, kind: BodyKind::BusinessError }
}

fn answer<T>(envelope: Envelope, result: Result<T, ApiError>) -> ApiResponse<T> {
    ApiResponse { server_id: envelope.server_id, customer_id: envelope.customer_id, result }
}

#[test]
fn constants_are_those_of_the_protocol() {
    assert_eq!(TIMEOUT_MS, 1000);
    assert_eq!(STATUS_OK, 200);
    assert_eq!(STATUS_BAD_REQUEST, 400);
    assert_eq!(SERVER_ID_HEADER, "X-Server-Id");
    assert_eq!(CUSTOMER_ID_HEADER, "X-Customer-Id");
}

#[test]
fn new_keeps_the_base() {
    assert_eq!(api().base_url, "http://127.0.0.1:8585/");
}

#[test]
fn default_options_carry_no_identifier() {
    assert_eq!(RequestOptions::default(), RequestOptions { server_id: None, customer_id: None });
}

#[test]
fn join_url_resolves_the_path_against_the_base() {
    assert_eq!(api().join_url("/api/admin/num_servers"), Ok(String::from("http://127.0.0.1:8585/api/admin/num_servers")));
    assert_eq!(
        Api::new(String::from("http://example.org/deep/base/")).join_url("/api/x"),
        Ok(String::from("http://example.org/api/x"))
    );
    assert_eq!(
        Api::new(String::from("http://example.org/deep/base/")).join_url("api/x"),
        Ok(String::from("http://example.org/deep/base/api/x"))
    );
    assert_eq!(
        Api::new(String::from("HTTP://Example.ORG")).join_url("/a b"),
        Ok(String::from("http://example.org/a%20b"))
    );
}

#[test]
fn join_url_fails_without_a_base() {
    assert_eq!(Api::new(String::from("not a url")).join_url("/api/x"), Err(Error::InvalidUrl));
    assert_eq!(Api::new(String::new()).join_url("/api/x"), Err(Error::InvalidUrl));
    assert_eq!(
        Api::new(String::new()).get("/api/x", &RequestOptions::default()),
        Err(Error::InvalidUrl)
    );
    assert_eq!(
        Api::new(String::from("127.0.0.1:8585")).post("/api/x", String::new(), &RequestOptions::default()),
        Err(Error::InvalidUrl)
    );
    assert_eq!(Api::new(String::from("nowhere")).get_num_servers_request(), Err(Error::InvalidUrl));
    assert_eq!(api().join_url("http://[broken"), Err(Error::InvalidUrl));
}

#[test]
fn request_to_fills_in_headers_and_timeout() {
    let options = RequestOptions { server_id: Some(CorrelationId(SERVER)), customer_id: None };
    let request = api().request_to(Method::Post, String::from("http://h/x"), Some(String::from("7")), &options);
    assert_eq!(
        request,
        Request {
            method: Method::Post,
            url: String::from("http://h/x"),
            headers: vec![Header {
                name: String::from("X-Server-Id"),
                value: String::from("67e55044-10b1-426f-9247-bb680e5fe0c8"),
            }],
            body: Some(String::from("7")),
            timeout_ms: 1000,
        }
    );
    let request = api().request_to(Method::Get, String::new(), None, &RequestOptions::default());
    assert_eq!(
        request,
        Request { method: Method::Get, url: String::new(), headers: vec![], body: None, timeout_ms: 1000 }
    );
}

#[test]
fn get_builds_a_request_without_a_body() {
    let request = api().get("/some/path", &RequestOptions::default());
    assert_eq!(
        request,
        Ok(Request {
            method: Method::Get,
            url: String::from("http://127.0.0.1:8585/some/path"),
            headers: vec![],
            body: None,
            timeout_ms: 1000,
        })
    );
}

#[test]
fn post_builds_a_request_with_the_body() {
    let options = RequestOptions { server_id: None, customer_id: Some(CorrelationId(CUSTOMER)) };
    let request = api().post("/some/path", String::from("payload"), &options);
    assert_eq!(
        request,
        Ok(Request {
            method: Method::Post,
            url: String::from("http://127.0.0.1:8585/some/path"),
            headers: vec![Header {
                name: String::from("X-Customer-Id"),
                value: String::from("6d93bade-bd9f-4e13-8914-9474e1e3567b"),
            }],
            body: Some(String::from("payload")),
            timeout_ms: 1000,
        })
    );
}

#[test]
fn headers_name_the_server_before_the_customer() {
    let options = RequestOptions {
        server_id: Some(CorrelationId(SERVER)),
        customer_id: Some(CorrelationId(CUSTOMER)),
    };
    let request = api().get("/p", &options).unwrap();
    assert_eq!(
        request.headers,
        vec![
            Header {
                name: String::from("X-Server-Id"),
                value: String::from("67e55044-10b1-426f-9247-bb680e5fe0c8"),
            },
            Header {
                name: String::from("X-Customer-Id"),
                value: String::from("6d93bade-bd9f-4e13-8914-9474e1e3567b"),
            },
        ]
    );
    let only_server = RequestOptions { server_id: Some(CorrelationId(SERVER)), customer_id: None };
    let request = api().get("/p", &only_server).unwrap();
    assert_eq!(request.headers.len(), 1);
    assert_eq!(request.headers[0].name, "X-Server-Id");
}

#[test]
fn administrative_requests_are_those_of_the_protocol() {
    let api = api();
    let request = api.get_num_servers_request().unwrap();
    assert_eq!(request.method, Method::Get);
    assert_eq!(request.url, "http://127.0.0.1:8585/api/admin/num_servers");
    assert_eq!(request.headers, vec![]);
    assert_eq!(request.body, None);
    assert_eq!(request.timeout_ms, 1000);

    let request = api.post_num_servers_request(3).unwrap();
    assert_eq!(request.method, Method::Post);
    assert_eq!(request.url, "http://127.0.0.1:8585/api/admin/num_servers");
    assert_eq!(request.headers, vec![]);
    assert_eq!(request.body, Some(String::from("3")));

    let request = api.post_num_servers_request(0).unwrap();
    assert_eq!(request.body, Some(String::from("0")));

    let request = api.get_servers_request().unwrap();
    assert_eq!(request.method, Method::Get);
    assert_eq!(request.url, "http://127.0.0.1:8585/api/admin/get_servers");
    assert_eq!(request.headers, vec![]);
    assert_eq!(request.body, None);
}

#[test]
fn status_ok_announces_the_payload() {
    let head = ResponseHead { status: 200, server_id: None, customer_id: None };
    assert_eq!(
        api().process_response(&head),
        Ok(Envelope { server_id: None, customer_id: None, kind: BodyKind::Payload })
    );
}

#[test]
fn status_bad_request_announces_a_business_error() {
    let head = ResponseHead {
        status: 400,
        server_id: Some(b"67e55044-10b1-426f-9247-bb680e5fe0c8".to_vec()),
        customer_id: Some(b"6d93bade-bd9f-4e13-8914-9474e1e3567b".to_vec()),
    };
    assert_eq!(
        api().process_response(&head),
        Ok(Envelope {
            server_id: Some(CorrelationId(SERVER)),
            customer_id: Some(CorrelationId(CUSTOMER)),
            kind: BodyKind::BusinessError,
        })
    );
}

#[test]
fn any_other_status_breaks_the_protocol() {
    for status in [0u16, 100, 199, 201, 204, 301, 399, 401, 404, 500, 503, 999, u16::MAX] {
        let head = ResponseHead { status, server_id: None, customer_id: None };
        assert_eq!(api().process_response(&head), Err(Error::InvalidStatus(status)));
    }
}

#[test]
fn unreadable_header_fails_before_the_status_counts() {
    let head = ResponseHead { status: 500, server_id: Some(b"no uuid".to_vec()), customer_id: None };
    assert_eq!(
        api().process_response(&head),
        Err(Error::InvalidHeader(HeaderName::ServerId, HeaderFault::NotUuid))
    );
    let head = ResponseHead { status: 200, server_id: None, customer_id: Some(vec![0xc3, 0xa9]) };
    assert_eq!(
        api().process_response(&head),
        Err(Error::InvalidHeader(HeaderName::CustomerId, HeaderFault::NotText))
    );
}

#[test]
fn server_header_is_read_before_the_customer_header() {
    let head = ResponseHead {
        status: 200,
        server_id: Some(vec![0x80]),
        customer_id: Some(b"no uuid".to_vec()),
    };
    assert_eq!(
        api().process_response(&head),
        Err(Error::InvalidHeader(HeaderName::ServerId, HeaderFault::NotText))
    );
}

#[test]
fn envelope_text_keeps_the_body() {
    assert_eq!(
        payload().text(String::from("12")),
        answer(payload(), Ok(String::from("12")))
    );
    assert_eq!(
        refusal().text(String::from("no such ticket")),
        answer(refusal(), Err(ApiError(String::from("no such ticket"))))
    );
}

#[test]
fn map_response_applies_the_function_to_a_result() {
    let response = answer(payload(), Ok(20u64));
    let mapped = response.map_response(|n| Ok::<u64, Error>(n + 1));
    assert_eq!(mapped, Ok(answer(payload(), Ok(21))));
}

#[test]
fn map_response_fails_where_the_function_fails() {
    let response = answer(payload(), Ok(20u64));
    let mapped = response.map_response(|_| Err::<u64, Error>(Error::InvalidBody));
    assert_eq!(mapped, Err(Error::InvalidBody));
}

#[test]
fn map_response_passes_a_business_error_through() {
    let response: ApiResponse<u64> = answer(refusal(), Err(ApiError(String::from("refused"))));
    let mapped = response.map_response(|_| -> Result<String, Error> {
        panic!("the function must not be called on a business error")
    });
    assert_eq!(mapped, Ok(answer(refusal(), Err(ApiError(String::from("refused"))))));
}

#[test]
fn api_error_message_names_the_status() {
    assert_eq!(ApiError(String::from("ticket 7 is not reserved")).message(), "Error 400: ticket 7 is not reserved");
    assert_eq!(ApiError(String::new()).message(), "Error 400: ");
}

#[test]
fn counts_are_read_without_trimming() {
    assert_eq!(count_of(String::from("12")), Ok(12));
    assert_eq!(count_of(String::from("+12")), Ok(12));
    assert_eq!(count_of(String::from("12\n")), Err(Error::InvalidBody));
    assert_eq!(count_of(String::from("")), Err(Error::InvalidBody));
    assert_eq!(count_of(String::from("18446744073709551616")), Err(Error::InvalidBody));
    assert_eq!(size_of(String::from("3")), Ok(3));
    assert_eq!(size_of(String::from(" 3")), Err(Error::InvalidBody));
    assert_eq!(size_of(String::from("-3")), Err(Error::InvalidBody));
}

#[test]
fn reservation_is_the_marker_or_a_number() {
    assert_eq!(Reservation::from_str("SOLD OUT"), Ok(Reservation::SoldOut));
    assert_eq!(Reservation::from_str("  SOLD OUT\r\n"), Ok(Reservation::SoldOut));
    assert_eq!(Reservation::from_str("17"), Ok(Reservation::Reserved(17)));
    assert_eq!(Reservation::from_str(" 17\n"), Ok(Reservation::Reserved(17)));
    assert_eq!(Reservation::from_str("0"), Ok(Reservation::Reserved(0)));
    assert_eq!(
        Reservation::from_str("18446744073709551615"),
        Ok(Reservation::Reserved(u64::MAX))
    );
    assert_eq!(reservation_of(String::from("\tSOLD OUT ")), Ok(Reservation::SoldOut));
    assert_eq!(reservation_of(String::from("5")), Ok(Reservation::Reserved(5)));
}

#[test]
fn reservation_refuses_anything_else() {
    for body in ["", "   ", "sold out", "SOLD  OUT", "SOLDOUT", "SOLD OUT!", "SOLD OU", "-1", "1 2", "18446744073709551616", "seven"] {
        assert_eq!(Reservation::from_str(body), Err(Error::InvalidBody), "on {:?}", body);
    }
}

#[test]
fn reserved_gives_the_ticket() {
    assert_eq!(Reservation::Reserved(17).reserved(), Ok(17));
    assert_eq!(Reservation::Reserved(0).reserved(), Ok(0));
}

#[test]
fn reserved_fails_when_sold_out() {
    assert_eq!(Reservation::SoldOut.reserved(), Err(Error::ReservationFailed));
}

#[test]
fn servers_are_read_token_by_token() {
    assert_eq!(servers_of(String::new()), Ok(vec![]));
    assert_eq!(servers_of(String::from(" \n")), Ok(vec![]));
    assert_eq!(
        servers_of(String::from(
            "67e55044-10b1-426f-9247-bb680e5fe0c8\n6d93bade-bd9f-4e13-8914-9474e1e3567b\n"
        )),
        Ok(vec![CorrelationId(SERVER), CorrelationId(CUSTOMER)])
    );
    assert_eq!(
        servers_of(String::from(
            "  6d93badebd9f4e1389149474e1e3567b \t {67e55044-10b1-426f-9247-bb680e5fe0c8}"
        )),
        Ok(vec![CorrelationId(CUSTOMER), CorrelationId(SERVER)])
    );
    assert_eq!(
        servers_of(String::from(
            "67e55044-10b1-426f-9247-bb680e5fe0c8 67e55044-10b1-426f-9247-bb680e5fe0c8"
        )),
        Ok(vec![CorrelationId(SERVER), CorrelationId(SERVER)])
    );
}

#[test]
fn one_wrong_token_fails_the_list_of_servers() {
    assert_eq!(
        servers_of(String::from("67e55044-10b1-426f-9247-bb680e5fe0c8 nope")),
        Err(Error::InvalidBody)
    );
    assert_eq!(
        servers_of(String::from("nope 67e55044-10b1-426f-9247-bb680e5fe0c8")),
        Err(Error::InvalidBody)
    );
    assert_eq!(
        servers_of(String::from("67e55044-10b1-426f-9247-bb680e5fe0c8,6d93bade-bd9f-4e13-8914-9474e1e3567b")),
        Err(Error::InvalidBody)
    );
}

#[test]
fn num_servers_is_read_from_the_payload() {
    let api = api();
    assert_eq!(api.get_num_servers(payload(), String::from("4")), Ok(answer(payload(), Ok(4))));
    assert_eq!(api.post_num_servers(payload(), String::from("1")), Ok(answer(payload(), Ok(1))));
    assert_eq!(api.get_num_servers(payload(), String::from("four")), Err(Error::InvalidBody));
    assert_eq!(api.post_num_servers(payload(), String::from("")), Err(Error::InvalidBody));
}

#[test]
fn business_error_keeps_message_and_identifiers() {
    let api = api();
    assert_eq!(
        api.get_num_servers(refusal(), String::from("not now")),
        Ok(answer(refusal(), Err(ApiError(String::from("not now")))))
    );
    assert_eq!(
        api.post_num_servers(refusal(), String::from("17")),
        Ok(answer(refusal(), Err(ApiError(String::from("17")))))
    );
    assert_eq!(
        api.get_servers(refusal(), String::from("nope")),
        Ok(answer(refusal(), Err(ApiError(String::from("nope")))))
    );
}

#[test]
fn get_servers_reads_the_list() {
    let api = api();
    assert_eq!(
        api.get_servers(payload(), String::from("67e55044-10b1-426f-9247-bb680e5fe0c8\n")),
        Ok(answer(payload(), Ok(vec![CorrelationId(SERVER)])))
    );
    assert_eq!(api.get_servers(payload(), String::new()), Ok(answer(payload(), Ok(vec![]))));
    assert_eq!(api.get_servers(payload(), String::from("x")), Err(Error::InvalidBody));
}
