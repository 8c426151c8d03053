//! The client side of the reservation protocol, without the network.
//!
//! Each operation of the service is a pair of functions. The first says which
//! request to send; the second takes what came back and says what it means.
//! The exchange itself is the caller's: it sends the request, hands the head
//! of the response to [`Api::process_response`], reads the body only if that
//! succeeded, and hands envelope and body to the operation.

use reqwest::Url;
use vstd::prelude::*;
use vstd::string::StrSliceExecFns;

use crate::correlation::{
    ascii_bytes, header_id, hyphenated, is_random, lemma_header_round_trip, uuid_from_header,
    uuid_of_text, CorrelationId,
};
use crate::error::{Error, HeaderFault, HeaderName};
use crate::text::{
    chars_of, decimal_text, lemma_decimal_round_trip, parse_decimal, parse_u64, parse_u64_in,
    parse_usize, token_bounds, tokens, trim, trim_bounds, u64_text,
};

verus! {

/// How long a call may take before the caller gives it up, in milliseconds.
pub const TIMEOUT_MS: u64 = 1000;

/// The status of a response that carries the result of the operation.
pub const STATUS_OK: u16 = 200;

/// The status of a response that carries a business error.
pub const STATUS_BAD_REQUEST: u16 = 400;

/// The name of the header that carries the identifier of the backend.
pub const SERVER_ID_HEADER: &'static str = "X-Server-Id";

/// The name of the header that carries the identifier of the customer.
pub const CUSTOMER_ID_HEADER: &'static str = "X-Customer-Id";

/// The client of the service: where it listens. It keeps no state between
/// calls.
#[derive(Clone, Debug, PartialEq, Eq)]
pub struct Api {
    pub base_url: String,
}

/// A business error: the service understood the call and refused it, with
/// status 400 and this message.
#[derive(Debug, PartialEq, Eq)]
pub struct ApiError(pub String);

/// What an operation gives once the protocol was kept: its result, or the
/// business error of the service.
pub type ApiResult<T> = Result<T, ApiError>;

/// What a call gives: the result, and the two identifiers that the service
/// sent along with it, whether the result is a success or a business error.
#[derive(Debug, PartialEq, Eq)]
pub struct ApiResponse<T> {
    pub server_id: Option<CorrelationId>,
    pub customer_id: Option<CorrelationId>,
    pub result: ApiResult<T>,
}

/// The identifiers that go out with a request.
#[derive(Clone, Copy, Debug, PartialEq, Eq, Structural)]
pub struct RequestOptions {
    pub server_id: Option<CorrelationId>,
    pub customer_id: Option<CorrelationId>,
}

/// The two methods that the service is called with.
#[derive(Clone, Copy, Debug, PartialEq, Eq, Structural)]
pub enum Method {
    Get,
    Post,
}

/// One header of a request.
#[derive(Debug, PartialEq, Eq)]
pub struct Header {
    pub name: String,
    pub value: String,
}

/// A request, ready to be sent.
#[derive(Debug, PartialEq, Eq)]
pub struct Request {
    pub method: Method,
    pub url: String,
    pub headers: Vec<Header>,
    pub body: Option<String>,
    pub timeout_ms: u64,
}

/// A request as a mathematical value.
pub struct RequestView {
    pub method: Method,
    pub url: Seq<char>,
    pub headers: Seq<(Seq<char>, Seq<char>)>,
    pub body: Option<Seq<char>>,
    pub timeout_ms: u64,
}

impl View for Header {
    type V = (Seq<char>, Seq<char>);

    open spec fn view(&self) -> (Seq<char>, Seq<char>) {
        (self.name@, self.value@)
    }
}

impl View for Request {
    type V = RequestView;

    open spec fn view(&self) -> RequestView {
        RequestView {
            method: self.method,
            url: self.url@,
            headers: self.headers@.map_values(|h: Header| h@),
            body: match self.body {
                Some(text) => Some(text@),
                None => None,
            },
            timeout_ms: self.timeout_ms,
        }
    }
}

/// The headers that carry the identifiers of `options`: the server first,
/// then the customer, each only if it is there.
pub open spec fn correlation_headers(options: RequestOptions) -> Seq<(Seq<char>, Seq<char>)> {
    let server = match options.server_id {
        Some(id) => seq![(SERVER_ID_HEADER@, hyphenated(id.0))],
        None => Seq::empty(),
    };
    let customer = match options.customer_id {
        Some(id) => seq![(CUSTOMER_ID_HEADER@, hyphenated(id.0))],
        None => Seq::empty(),
    };
    server + customer
}

/// The URL that stands for `path` as seen from the URL `base`, by the rules
/// for resolving a reference against a base URL; `None` where `base` is no
/// URL or `path` cannot be resolved against it.
pub uninterp spec fn joined_url(base: Seq<char>, path: Seq<char>) -> Option<Seq<char>>;

/// The request that goes to `url`.
pub open spec fn request_view(
    method: Method,
    url: Seq<char>,
    body: Option<Seq<char>>,
    options: RequestOptions,
) -> RequestView {
    RequestView {
        method,
        url,
        headers: correlation_headers(options),
        body,
        timeout_ms: TIMEOUT_MS,
    }
}

/// Whether `request` is what an operation sends to `path` below `base`: the
/// request to the joined URL, or the failure to join the two.
pub open spec fn is_request_to(
    request: Result<Request, Error>,
    base: Seq<char>,
    path: Seq<char>,
    method: Method,
    body: Option<Seq<char>>,
    options: RequestOptions,
) -> bool {
    match joined_url(base, path) {
        Some(url) => request matches Ok(r) && r@ == request_view(method, url, body, options),
        None => request == Err::<Request, Error>(Error::InvalidUrl),
    }
}

/// Resolves `path` against `base` with `Url::join` of the `url` crate, which
/// `reqwest` hands on, after `Url::parse` has read `base`.
///
/// Trusted: the text of the resulting URL depends on the two texts alone,
/// and there is none exactly where one of the two calls refuses.
#[verifier::external_body]
fn resolve(base: &str, path: &str) -> (url: Option<String>)
    ensures
        url is Some <==> joined_url(base@, path@) is Some,
        url matches Some(text) ==> joined_url(base@, path@) == Some(text@),
{
    match Url::parse(base) {
        Ok(base) => match base.join(path) {
            Ok(url) => Some(String::from(url)),
            Err(_) => None,
        },
        Err(_) => None,
    }
}

impl Default for RequestOptions {
    /// No identifier at all, as the administrative calls go out.
    fn default() -> (options: RequestOptions)
        ensures
            options == (RequestOptions { server_id: None, customer_id: None }),
    {
        RequestOptions { server_id: None, customer_id: None }
    }
}

impl<T> ApiResponse<T> {
    /// Turns the result of a response into another type with a function
    /// that may fail. A failure of the function is the failure of the whole;
    /// a business error passes through untouched, and the function is not
    /// called on it. The identifiers stay as they are.
    pub fn map_response<R, F: FnOnce(T) -> Result<R, Error>>(self, func: F) -> (mapped: Result<
        ApiResponse<R>,
        Error,
    >)
        requires
            self.result matches Ok(value) ==> func.requires((value,)),
        ensures
            self.result matches Err(error) ==> mapped matches Ok(response) && response
                == (ApiResponse::<R> {
                server_id: self.server_id,
                customer_id: self.customer_id,
                result: Err(error),
            }),
            self.result matches Ok(value) ==> match mapped {
                Ok(response) => {
                    &&& response.server_id == self.server_id
                    &&& response.customer_id == self.customer_id
                    &&& response.result matches Ok(output)
                    &&& func.ensures((value,), Ok(output))
                },
                Err(error) => func.ensures((value,), Err(error)),
            },
    {
        let ApiResponse { server_id, customer_id, result } = self;
        match result {
            Ok(value) => match func(value) {
                Ok(output) => Ok(ApiResponse { server_id, customer_id, result: Ok(output) }),
                Err(error) => Err(error),
            },
            Err(error) => Ok(ApiResponse { server_id, customer_id, result: Err(error) }),
        }
    }
}

impl ApiError {
    /// The business error as a line of text.
    pub fn message(&self) -> (text: String)
        ensures
            text@ == "Error 400: "@ + self.0@,
    {
        "Error 400: ".to_owned().concat(self.0.as_str())
    }
}

impl Api {
    /// A client of the service that listens at `base_url`.
    pub fn new(base_url: String) -> (api: Api)
        ensures
            api.base_url == base_url,
    {
        Api { base_url }
    }

    /// The headers that carry the identifiers of `options`.
    fn prepare_request(&self, options: &RequestOptions) -> (headers: Vec<Header>)
        ensures
            headers@.map_values(|h: Header| h@) == correlation_headers(*options),
    {
        let mut headers: Vec<Header> = Vec::new();
        if let Some(id) = options.server_id {
            headers.push(Header { name: SERVER_ID_HEADER.to_owned(), value: id.to_text() });
        }
        if let Some(id) = options.customer_id {
            headers.push(Header { name: CUSTOMER_ID_HEADER.to_owned(), value: id.to_text() });
        }
        headers
    }

    /// The URL of `path` below the base of the client.
    pub fn join_url(&self, path: &str) -> (url: Result<String, Error>)
        ensures
            match joined_url(self.base_url@, path@) {
                Some(text) => url matches Ok(joined) && joined@ == text,
                None => url == Err::<String, Error>(Error::InvalidUrl),
            },
    {
        match resolve(self.base_url.as_str(), path) {
            Some(url) => Ok(url),
            None => Err(Error::InvalidUrl),
        }
    }

    /// The request with this method and body that goes to `url`, with the
    /// identifiers of `options` in its headers and the timeout of every
    /// call.
    pub fn request_to(
        &self,
        method: Method,
        url: String,
        body: Option<String>,
        options: &RequestOptions,
    ) -> (request: Request)
        ensures
            request.url == url,
            request.body == body,
            request@ == request_view(
                method,
                url@,
                match body {
                    Some(text) => Some(text@),
                    None => None,
                },
                *options,
            ),
    {
        Request { method, url, headers: self.prepare_request(options), body, timeout_ms: TIMEOUT_MS }
    }

    /// A request that reads from `path`.
    pub fn get(&self, path: &str, options: &RequestOptions) -> (request: Result<Request, Error>)
        ensures
            is_request_to(request, self.base_url@, path@, Method::Get, None, *options),
    {
        match self.join_url(path) {
            Ok(url) => Ok(self.request_to(Method::Get, url, None, options)),
            Err(error) => Err(error),
        }
    }

    /// A request that hands `body` to `path`.
    pub fn post(&self, path: &str, body: String, options: &RequestOptions) -> (request: Result<
        Request,
        Error,
    >)
        ensures
            is_request_to(request, self.base_url@, path@, Method::Post, Some(body@), *options),
    {
        match self.join_url(path) {
            Ok(url) => Ok(self.request_to(Method::Post, url, Some(body), options)),
            Err(error) => Err(error),
        }
    }
}

/// The head of a response: its status and the raw values of the two
/// correlation headers, each absent if the service did not send it.
#[derive(Debug, PartialEq, Eq)]
pub struct ResponseHead {
    pub status: u16,
    pub server_id: Option<Vec<u8>>,
    pub customer_id: Option<Vec<u8>>,
}

/// What the body of a response holds.
#[derive(Clone, Copy, Debug, PartialEq, Eq, Structural)]
pub enum BodyKind {
    /// The result of the operation, as the status 200 announces it.
    Payload,
    /// The message of a business error, as the status 400 announces it.
    BusinessError,
}

/// The head of a response that kept the protocol: the identifiers it
/// carried, and what its body is to be read as.
#[derive(Clone, Copy, Debug, PartialEq, Eq, Structural)]
pub struct Envelope {
    pub server_id: Option<CorrelationId>,
    pub customer_id: Option<CorrelationId>,
    pub kind: BodyKind,
}

/// The identifier in a correlation header that may be absent.
pub open spec fn optional_id(value: Option<Vec<u8>>) -> Result<Option<CorrelationId>, HeaderFault> {
    match value {
        None => Ok(None),
        Some(bytes) => match header_id(bytes@) {
            Ok(id) => Ok(Some(id)),
            Err(fault) => Err(fault),
        },
    }
}

/// How the head of a response is classified. The server's header is read
/// first, then the customer's, then the status: 200 announces the result,
/// 400 a business error, and any other status breaks the protocol.
pub open spec fn envelope_of(head: ResponseHead) -> Result<Envelope, Error> {
    match optional_id(head.server_id) {
        Err(fault) => Err(Error::InvalidHeader(HeaderName::ServerId, fault)),
        Ok(server_id) => match optional_id(head.customer_id) {
            Err(fault) => Err(Error::InvalidHeader(HeaderName::CustomerId, fault)),
            Ok(customer_id) => if head.status == STATUS_OK {
                Ok(Envelope { server_id, customer_id, kind: BodyKind::Payload })
            } else if head.status == STATUS_BAD_REQUEST {
                Ok(Envelope { server_id, customer_id, kind: BodyKind::BusinessError })
            } else {
                Err(Error::InvalidStatus(head.status))
            },
        },
    }
}

/// What an operation gives for an envelope and a body, where `parsed` is what
/// the body means as the result of the operation. The body of a business
/// error is its message and is never parsed; a result that cannot be parsed
/// fails the call.
pub open spec fn typed_response<R>(envelope: Envelope, body: String, parsed: Result<R, Error>)
    -> Result<ApiResponse<R>, Error> {
    match envelope.kind {
        BodyKind::BusinessError => Ok(
            ApiResponse {
                server_id: envelope.server_id,
                customer_id: envelope.customer_id,
                result: Err(ApiError(body)),
            },
        ),
        BodyKind::Payload => match parsed {
            Ok(value) => Ok(
                ApiResponse {
                    server_id: envelope.server_id,
                    customer_id: envelope.customer_id,
                    result: Ok(value),
                },
            ),
            Err(error) => Err(error),
        },
    }
}

/// What a body means as a count that fits in 64 bits.
pub open spec fn count_result(body: Seq<char>) -> Result<u64, Error> {
    match parse_decimal(body, u64::MAX as nat) {
        Some(n) => Ok(n as u64),
        None => Err(Error::InvalidBody),
    }
}

/// What a body means as a count that fits in a `usize`.
pub open spec fn size_result(body: Seq<char>) -> Result<usize, Error> {
    match parse_decimal(body, usize::MAX as nat) {
        Some(n) => Ok(n as usize),
        None => Err(Error::InvalidBody),
    }
}

/// What a body means as the answer to a reservation: the marker `SOLD OUT`
/// or the number of the reserved ticket, with white space allowed around
/// either.
pub open spec fn reservation_result(body: Seq<char>) -> Result<Reservation, Error> {
    if trim(body) == "SOLD OUT"@ {
        Ok(Reservation::SoldOut)
    } else {
        match parse_decimal(trim(body), u64::MAX as nat) {
            Some(n) => Ok(Reservation::Reserved(n as u64)),
            None => Err(Error::InvalidBody),
        }
    }
}

/// What a body means as a list of servers: the identifiers that its tokens
/// stand for, in their order, if every token stands for one.
pub open spec fn server_list(body: Seq<char>) -> Option<Seq<CorrelationId>> {
    let names = tokens(body);
    if forall|i: int| 0 <= i < names.len() ==> uuid_of_text(#[trigger] names[i]) is Some {
        Some(Seq::new(names.len(), |i: int| CorrelationId(uuid_of_text(names[i])->0)))
    } else {
        None
    }
}

/// The answer to a reservation.
#[derive(Clone, Copy, Debug, PartialEq, Eq, Structural)]
pub enum Reservation {
    /// No ticket is left.
    SoldOut,
    /// The ticket with this number is held for the customer.
    Reserved(u64),
}

fn is_sold_out(chars: &Vec<char>, from: usize, to: usize) -> (yes: bool)
    requires
        from <= to <= chars.len(),
    ensures
        yes == (chars@.subrange(from as int, to as int) == "SOLD OUT"@),
{
    proof {
        reveal_strlit("SOLD OUT");
    }
    let ghost part = chars@.subrange(from as int, to as int);
    if to - from != 8 {
        assert(part.len() != "SOLD OUT"@.len());
        return false;
    }
    let yes = chars[from] == 'S' && chars[from + 1] == 'O' && chars[from + 2] == 'L' && chars[from
        + 3] == 'D' && chars[from + 4] == ' ' && chars[from + 5] == 'O' && chars[from + 6] == 'U'
        && chars[from + 7] == 'T';
    proof {
        let marker = "SOLD OUT"@;
        assert(part[0] == chars@[from as int]);
        assert(part[1] == chars@[from + 1]);
        assert(part[2] == chars@[from + 2]);
        assert(part[3] == chars@[from + 3]);
        assert(part[4] == chars@[from + 4]);
        assert(part[5] == chars@[from + 5]);
        assert(part[6] == chars@[from + 6]);
        assert(part[7] == chars@[from + 7]);
        if yes {
            assert(part =~= marker);
        }
    }
    yes
}

impl Reservation {
    /// The number of the reserved ticket, where a reservation was expected.
    pub fn reserved(&self) -> (ticket: Result<u64, Error>)
        ensures
            ticket == match *self {
                Reservation::SoldOut => Err::<u64, Error>(Error::ReservationFailed),
                Reservation::Reserved(ticket_id) => Ok(ticket_id),
            },
    {
        match self {
            Reservation::SoldOut => Err(Error::ReservationFailed),
            Reservation::Reserved(ticket_id) => Ok(*ticket_id),
        }
    }

    /// Reads the body that answers a reservation.
    pub fn from_str(s: &str) -> (reservation: Result<Reservation, Error>)
        ensures
            reservation == reservation_result(s@),
    {
        let chars = chars_of(s);
        let (from, to) = trim_bounds(&chars);
        if is_sold_out(&chars, from, to) {
            Ok(Reservation::SoldOut)
        } else {
            match parse_u64_in(&chars, from, to) {
                Some(ticket_id) => Ok(Reservation::Reserved(ticket_id)),
                None => Err(Error::InvalidBody),
            }
        }
    }
}

/// Reads a body as a count that fits in 64 bits.
pub fn count_of(body: String) -> (count: Result<u64, Error>)
    ensures
        count == count_result(body@),
{
    match parse_u64(body.as_str()) {
        Some(n) => Ok(n),
        None => Err(Error::InvalidBody),
    }
}

/// Reads a body as a count that fits in a `usize`.
pub fn size_of(body: String) -> (count: Result<usize, Error>)
    ensures
        count == size_result(body@),
{
    match parse_usize(body.as_str()) {
        Some(n) => Ok(n),
        None => Err(Error::InvalidBody),
    }
}

/// Reads a body as the answer to a reservation.
pub fn reservation_of(body: String) -> (reservation: Result<Reservation, Error>)
    ensures
        reservation == reservation_result(body@),
{
    Reservation::from_str(body.as_str())
}

/// Reads a body as a list of servers. One token that is no identifier fails
/// the whole list.
pub fn servers_of(body: String) -> (servers: Result<Vec<CorrelationId>, Error>)
    ensures
        match server_list(body@) {
            Some(ids) => servers matches Ok(list) && list@ == ids,
            None => servers matches Err(Error::InvalidBody),
        },
{
    let text = body.as_str();
    let chars = chars_of(text);
    let bounds = token_bounds(&chars);
    let ghost names = tokens(body@);
    let mut servers: Vec<CorrelationId> = Vec::new();
    let mut k: usize = 0;
    while k < bounds.len()
        invariant
            k <= bounds.len(),
            chars@ == text@,
            text@ == body@,
            names == tokens(body@),
            bounds.len() == names.len(),
            forall|j: int|
                0 <= j < bounds.len() ==> (#[trigger] bounds[j]).0 <= bounds[j].1 <= chars.len(),
            forall|j: int|
                0 <= j < bounds.len() ==> chars@.subrange(
                    (#[trigger] bounds[j]).0 as int,
                    bounds[j].1 as int,
                ) == names[j],
            servers.len() == k,
            forall|j: int| 0 <= j < k ==> uuid_of_text(#[trigger] names[j]) == Some(servers[j].0),
        decreases bounds.len() - k,
    {
        let (from, to) = bounds[k];
        let name = text.substring_char(from, to);
        match CorrelationId::parse(name) {
            Some(id) => {
                servers.push(id);
            },
            None => {
                return Err(Error::InvalidBody);
            },
        }
        k = k + 1;
    }
    Ok(servers)
}

impl Envelope {
    /// The response with its body as it came: the text of the result, or
    /// the business error with its message.
    pub fn text(self, body: String) -> (response: ApiResponse<String>)
        ensures
            response == (ApiResponse::<String> {
                server_id: self.server_id,
                customer_id: self.customer_id,
                result: match self.kind {
                    BodyKind::Payload => Ok(body),
                    BodyKind::BusinessError => Err(ApiError(body)),
                },
            }),
    {
        let result = match self.kind {
            BodyKind::Payload => Ok(body),
            BodyKind::BusinessError => Err(ApiError(body)),
        };
        ApiResponse { server_id: self.server_id, customer_id: self.customer_id, result }
    }
}

fn read_header(value: &Option<Vec<u8>>) -> (id: Result<Option<CorrelationId>, HeaderFault>)
    ensures
        id == optional_id(*value),
{
    match value {
        None => Ok(None),
        Some(bytes) => match uuid_from_header(bytes.as_slice()) {
            Ok(id) => Ok(Some(id)),
            Err(fault) => Err(fault),
        },
    }
}

impl Api {
    /// Classifies the head of a response, before its body is read. An error
    /// ends the call: the body is then of no interest.
    pub fn process_response(&self, head: &ResponseHead) -> (envelope: Result<Envelope, Error>)
        ensures
            envelope == envelope_of(*head),
    {
        let server_id = match read_header(&head.server_id) {
            Ok(id) => id,
            Err(fault) => {
                return Err(Error::InvalidHeader(HeaderName::ServerId, fault));
            },
        };
        let customer_id = match read_header(&head.customer_id) {
            Ok(id) => id,
            Err(fault) => {
                return Err(Error::InvalidHeader(HeaderName::CustomerId, fault));
            },
        };
        if head.status == STATUS_OK {
            Ok(Envelope { server_id, customer_id, kind: BodyKind::Payload })
        } else if head.status == STATUS_BAD_REQUEST {
            Ok(Envelope { server_id, customer_id, kind: BodyKind::BusinessError })
        } else {
            Err(Error::InvalidStatus(head.status))
        }
    }

    /// The request that asks how many servers run.
    pub fn get_num_servers_request(&self) -> (request: Result<Request, Error>)
        ensures
            is_request_to(
                request,
                self.base_url@,
                "/api/admin/num_servers"@,
                Method::Get,
                None,
                RequestOptions { server_id: None, customer_id: None },
            ),
    {
        self.get("/api/admin/num_servers", &RequestOptions::default())
    }

    /// How many servers run, from the response to that request.
    pub fn get_num_servers(&self, envelope: Envelope, body: String) -> (response: Result<
        ApiResponse<usize>,
        Error,
    >)
        ensures
            response == typed_response(envelope, body, size_result(body@)),
    {
        envelope.text(body).map_response(size_of)
    }

    /// The request that sets the number of servers.
    pub fn post_num_servers_request(&self, number: usize) -> (request: Result<Request, Error>)
        ensures
            is_request_to(
                request,
                self.base_url@,
                "/api/admin/num_servers"@,
                Method::Post,
                Some(decimal_text(number as nat)),
                RequestOptions { server_id: None, customer_id: None },
            ),
    {
        self.post("/api/admin/num_servers", u64_text(number as u64), &RequestOptions::default())
    }

    /// The number of servers that the service confirms, from the response to
    /// that request.
    pub fn post_num_servers(&self, envelope: Envelope, body: String) -> (response: Result<
        ApiResponse<usize>,
        Error,
    >)
        ensures
            response == typed_response(envelope, body, size_result(body@)),
    {
        envelope.text(body).map_response(size_of)
    }

    /// The request that asks which servers run.
    pub fn get_servers_request(&self) -> (request: Result<Request, Error>)
        ensures
            is_request_to(
                request,
                self.base_url@,
                "/api/admin/get_servers"@,
                Method::Get,
                None,
                RequestOptions { server_id: None, customer_id: None },
            ),
    {
        self.get("/api/admin/get_servers", &RequestOptions::default())
    }

    /// The servers that run, from the response to that request.
    pub fn get_servers(&self, envelope: Envelope, body: String) -> (response: Result<
        ApiResponse<Vec<CorrelationId>>,
        Error,
    >)
        ensures
            envelope.kind == BodyKind::BusinessError ==> {
                &&& response matches Ok(r)
                &&& r.server_id == envelope.server_id
                &&& r.customer_id == envelope.customer_id
                &&& r.result matches Err(error)
                &&& error == ApiError(body)
            },
            envelope.kind == BodyKind::Payload ==> match server_list(body@) {
                Some(ids) => {
                    &&& response matches Ok(r)
                    &&& r.server_id == envelope.server_id
                    &&& r.customer_id == envelope.customer_id
                    &&& r.result matches Ok(list)
                    &&& list@ == ids
                },
                None => response matches Err(Error::InvalidBody),
            },
    {
        envelope.text(body).map_response(servers_of)
    }

    /// A new customer: a session with a random identifier of its own, which
    /// is pinned to `server_id` if one is given and holds no ticket.
    pub fn create_user_session(&self, server_id: Option<CorrelationId>) -> (session: UserSession<
        '_,
    >)
        ensures
            session.api == self,
            is_random(session.customer_id.0),
            session.server_id == server_id,
            session.state == SessionState::Idle,
    {
        UserSession::new(self, CorrelationId::random(), server_id)
    }
}

/// Whether a session holds a ticket.
#[derive(Clone, Copy, Debug, PartialEq, Eq, Structural)]
pub enum SessionState {
    /// No ticket is held.
    Idle,
    /// The ticket with this number is held.
    Holding(u64),
}

/// One simulated customer: the identifier under which it calls, the backend
/// it is pinned to, and the ticket it holds.
#[derive(Debug, PartialEq, Eq)]
pub struct UserSession<'a> {
    pub api: &'a Api,
    pub customer_id: CorrelationId,
    pub server_id: Option<CorrelationId>,
    pub state: SessionState,
}

/// The backend a session is pinned to after a response: the one that the
/// response names, and the one it was pinned to before if the response names
/// none.
pub open spec fn next_affinity(current: Option<CorrelationId>, received: Option<CorrelationId>)
    -> Option<CorrelationId> {
    match received {
        Some(id) => Some(id),
        None => current,
    }
}

/// The ticket a session holds after a reservation was answered: none if the
/// tickets are sold out, the reserved one if there is one, and what it held
/// before if the service refused with a business error.
pub open spec fn next_state(current: SessionState, result: ApiResult<Reservation>)
    -> SessionState {
    match result {
        Ok(Reservation::SoldOut) => SessionState::Idle,
        Ok(Reservation::Reserved(ticket_id)) => SessionState::Holding(ticket_id),
        Err(_) => current,
    }
}

/// The backend a session is pinned to after a run of responses, given the
/// server that each of them named.
pub open spec fn affinity_after(current: Option<CorrelationId>, received: Seq<Option<CorrelationId>>)
    -> Option<CorrelationId>
    decreases received.len(),
{
    if received.len() == 0 {
        current
    } else {
        next_affinity(affinity_after(current, received.drop_last()), received.last())
    }
}

impl<'a> UserSession<'a> {
    /// A session of the customer `customer_id` that holds no ticket.
    pub fn new(api: &'a Api, customer_id: CorrelationId, server_id: Option<CorrelationId>) -> (session:
        UserSession<'a>)
        ensures
            session.api == api,
            session.customer_id == customer_id,
            session.server_id == server_id,
            session.state == SessionState::Idle,
    {
        UserSession { api, customer_id, server_id, state: SessionState::Idle }
    }

    /// The identifiers that every request of the session carries: its own,
    /// and that of the backend it is pinned to, if it is pinned.
    pub open spec fn options(&self) -> RequestOptions {
        RequestOptions { server_id: self.server_id, customer_id: Some(self.customer_id) }
    }

    /// The session as it is after `response`: pinned as the response says,
    /// and else unchanged.
    pub open spec fn after<T>(self, response: ApiResponse<T>) -> UserSession<'a> {
        UserSession {
            api: self.api,
            customer_id: self.customer_id,
            server_id: next_affinity(self.server_id, response.server_id),
            state: self.state,
        }
    }

    /// The identifiers that the next request of the session carries.
    pub fn request_options(&self) -> (options: RequestOptions)
        ensures
            options == self.options(),
    {
        RequestOptions { server_id: self.server_id, customer_id: Some(self.customer_id) }
    }

    /// Takes the pinning from a response, whether it is a success or a
    /// business error, and hands the response on.
    pub fn process_response<T>(&mut self, response: ApiResponse<T>) -> (same: ApiResponse<T>)
        ensures
            same == response,
            *final(self) == old(self).after(response),
    {
        if let Some(id) = response.server_id {
            self.server_id = Some(id);
        }
        response
    }

    /// The request that asks how many tickets are left.
    pub fn get_available_tickets_request(&self) -> (request: Result<Request, Error>)
        ensures
            is_request_to(
                request,
                self.api.base_url@,
                "/api/num_available_tickets"@,
                Method::Get,
                None,
                self.options(),
            ),
    {
        self.api.get("/api/num_available_tickets", &self.request_options())
    }

    /// How many tickets are left, from the response to that request.
    pub fn get_available_tickets(&mut self, envelope: Envelope, body: String) -> (response: Result<
        ApiResponse<u64>,
        Error,
    >)
        ensures
            response == typed_response(envelope, body, count_result(body@)),
            *final(self) == match response {
                Ok(r) => old(self).after(r),
                Err(_) => *old(self),
            },
    {
        match envelope.text(body).map_response(count_of) {
            Ok(response) => Ok(self.process_response(response)),
            Err(error) => Err(error),
        }
    }

    /// The request that reserves a ticket.
    pub fn reserve_ticket_request(&self) -> (request: Result<Request, Error>)
        ensures
            is_request_to(
                request,
                self.api.base_url@,
                "/api/reserve_ticket"@,
                Method::Post,
                Some(Seq::<char>::empty()),
                self.options(),
            ),
    {
        self.api.post("/api/reserve_ticket", String::new(), &self.request_options())
    }

    /// The answer to a reservation, from the response to that request. The
    /// session then holds the reserved ticket, or none if the tickets are
    /// sold out.
    pub fn reserve_ticket(&mut self, envelope: Envelope, body: String) -> (response: Result<
        ApiResponse<Reservation>,
        Error,
    >)
        ensures
            response == typed_response(envelope, body, reservation_result(body@)),
            *final(self) == match response {
                Ok(r) => (UserSession {
                    state: next_state(old(self).state, r.result),
                    ..old(self).after(r)
                }),
                Err(_) => *old(self),
            },
    {
        match envelope.text(body).map_response(reservation_of) {
            Ok(response) => {
                let response = self.process_response(response);
                match &response.result {
                    Ok(Reservation::SoldOut) => {
                        self.state = SessionState::Idle;
                    },
                    Ok(Reservation::Reserved(ticket_id)) => {
                        self.state = SessionState::Holding(*ticket_id);
                    },
                    Err(_) => {},
                }
                Ok(response)
            },
            Err(error) => Err(error),
        }
    }

    /// The request that gives a reserved ticket back.
    pub fn abort_purchase_request(&self, ticket_id: u64) -> (request: Result<Request, Error>)
        ensures
            is_request_to(
                request,
                self.api.base_url@,
                "/api/abort_purchase"@,
                Method::Post,
                Some(decimal_text(ticket_id as nat)),
                self.options(),
            ),
    {
        self.api.post("/api/abort_purchase", u64_text(ticket_id), &self.request_options())
    }

    /// The ticket that the service gave back, from the response to that
    /// request. What the session holds stays as it is.
    pub fn abort_purchase(&mut self, envelope: Envelope, body: String) -> (response: Result<
        ApiResponse<u64>,
        Error,
    >)
        ensures
            response == typed_response(envelope, body, count_result(body@)),
            *final(self) == match response {
                Ok(r) => old(self).after(r),
                Err(_) => *old(self),
            },
    {
        match envelope.text(body).map_response(count_of) {
            Ok(response) => Ok(self.process_response(response)),
            Err(error) => Err(error),
        }
    }

    /// The request that buys a reserved ticket.
    pub fn buy_ticket_request(&self, ticket_id: u64) -> (request: Result<Request, Error>)
        ensures
            is_request_to(
                request,
                self.api.base_url@,
                "/api/buy_ticket"@,
                Method::Post,
                Some(decimal_text(ticket_id as nat)),
                self.options(),
            ),
    {
        self.api.post("/api/buy_ticket", u64_text(ticket_id), &self.request_options())
    }

    /// The ticket that the service sold, from the response to that request.
    /// What the session holds stays as it is.
    pub fn buy_ticket(&mut self, envelope: Envelope, body: String) -> (response: Result<
        ApiResponse<u64>,
        Error,
    >)
        ensures
            response == typed_response(envelope, body, count_result(body@)),
            *final(self) == match response {
                Ok(r) => old(self).after(r),
                Err(_) => *old(self),
            },
    {
        match envelope.text(body).map_response(count_of) {
            Ok(response) => Ok(self.process_response(response)),
            Err(error) => Err(error),
        }
    }
}

/// Sticky routing. Once a response has pinned a session to a backend, the
/// session stays pinned through every later response, to the backend that
/// the last response with a server identifier named; and every request that
/// the session then builds starts with the header that names this backend,
/// followed by the header of the customer.
pub proof fn lemma_sticky_routing(
    session: UserSession,
    received: Seq<Option<CorrelationId>>,
    k: int,
)
    requires
        0 <= k <= received.len(),
        affinity_after(session.server_id, received.take(k)) is Some,
    ensures
        affinity_after(session.server_id, received) is Some,
        received.len() > 0 && received.last() is Some ==> affinity_after(
            session.server_id,
            received,
        ) == received.last(),
        correlation_headers(
            RequestOptions {
                server_id: affinity_after(session.server_id, received),
                customer_id: Some(session.customer_id),
            },
        ) == seq![
            (SERVER_ID_HEADER@, hyphenated((affinity_after(session.server_id, received)->0).0)),
            (CUSTOMER_ID_HEADER@, hyphenated(session.customer_id.0)),
        ],
    decreases received.len(),
{
    if k == received.len() {
        assert(received.take(k) =~= received);
    } else {
        assert(received.drop_last().take(k) =~= received.take(k));
        lemma_sticky_routing(session, received.drop_last(), k);
    }
}

/// A purchase that the service acknowledges by sending back the body of the
/// request, with status 200, gives exactly the ticket that was asked for.
pub proof fn lemma_echoed_ticket(envelope: Envelope, body: String, ticket_id: u64)
    requires
        envelope.kind == BodyKind::Payload,
        body@ == decimal_text(ticket_id as nat),
    ensures
        count_result(body@) == Ok::<u64, Error>(ticket_id),
        typed_response(envelope, body, count_result(body@)) == Ok::<ApiResponse<u64>, Error>(
            ApiResponse {
                server_id: envelope.server_id,
                customer_id: envelope.customer_id,
                result: Ok(ticket_id),
            },
        ),
{
    lemma_decimal_round_trip(ticket_id as nat, u64::MAX as nat);
}

/// An identifier that went out in a request header, and comes back byte for
/// byte in the headers of a response with status 200 or 400, is the
/// identifier of the envelope.
pub proof fn lemma_echoed_identifiers(
    head: ResponseHead,
    server_id: CorrelationId,
    customer_id: CorrelationId,
)
    requires
        head.status == STATUS_OK || head.status == STATUS_BAD_REQUEST,
        head.server_id matches Some(bytes) && bytes@ == ascii_bytes(hyphenated(server_id.0)),
        head.customer_id matches Some(bytes) && bytes@ == ascii_bytes(hyphenated(customer_id.0)),
    ensures
        envelope_of(head) matches Ok(envelope) && envelope.server_id == Some(server_id)
            && envelope.customer_id == Some(customer_id),
{
    lemma_header_round_trip(server_id);
    lemma_header_round_trip(customer_id);
}

} // verus!
