//! Classification of a completed HTTP exchange.

use crate::error::{Error, ErrorView};
use vstd::prelude::*;
use vstd::string::StringExecFns;

verus! {

/// A response as read from the transport: the status code and the whole body
/// as text.
#[derive(Debug, Clone, PartialEq, Eq)]
pub struct Response {
    pub status: u16,
    pub body: String,
}

/// The mathematical value of a [`Response`].
pub struct ResponseView {
    pub status: u16,
    pub body: Seq<char>,
}

impl View for Response {
    type V = ResponseView;

    open spec fn view(&self) -> ResponseView {
        ResponseView { status: self.status, body: self.body@ }
    }
}

/// Whether `status` lies in the HTTP success range, 200 to 299.
pub open spec fn is_success(status: u16) -> bool {
    200 <= status <= 299
}

/// The error that a response with a status outside the success range stands
/// for. The well-known codes get a kind or a prefix of their own; any other
/// code is passed on with the raw body.
pub open spec fn failure(status: u16, body: Seq<char>) -> ErrorView {
    if status == 400 {
        ErrorView::Api(status, "Bad request: "@ + body)
    } else if status == 401 {
        ErrorView::InvalidApiKey
    } else if status == 403 {
        ErrorView::Api(status, "Forbidden: "@ + body)
    } else if status == 404 {
        ErrorView::Api(status, "Not found: "@ + body)
    } else if status == 429 {
        ErrorView::Api(status, "Too many requests: "@ + body)
    } else if status == 500 {
        ErrorView::ServerError
    } else if status == 503 {
        ErrorView::Api(status, "Service temporarily unavailable: "@ + body)
    } else {
        ErrorView::Api(status, body)
    }
}

/// The error that stands for a successful response whose body could not be
/// decoded: the status that was received, and a message that holds both the
/// decoder's diagnostic and the raw body.
pub open spec fn decode_failure(status: u16, diagnostic: Seq<char>, body: Seq<char>) -> ErrorView {
    ErrorView::Api(
        status,
        "Failed to parse JSON response: "@ + diagnostic + ". Response body: "@ + body,
    )
}

/// What a response amounts to once its body has been handed to a decoder that
/// answered `decoded`: the failure that its status stands for, if it is not a
/// success; else the decoded value, or the decode failure.
pub open spec fn verdict<T>(response: ResponseView, decoded: Result<T, Seq<char>>) -> Result<
    T,
    ErrorView,
> {
    if !is_success(response.status) {
        Err(failure(response.status, response.body))
    } else {
        match decoded {
            Ok(value) => Ok(value),
            Err(diagnostic) => Err(decode_failure(response.status, diagnostic, response.body)),
        }
    }
}

/// What a whole exchange amounts to: a transport error if the transport
/// failed, else the verdict on the response.
pub open spec fn outcome<T>(
    exchange: Result<ResponseView, Seq<char>>,
    decoded: Result<T, Seq<char>>,
) -> Result<T, ErrorView> {
    match exchange {
        Err(diagnostic) => Err(ErrorView::Http(diagnostic)),
        Ok(response) => verdict(response, decoded),
    }
}

/// A result of the library seen as a mathematical value: the error by its view.
pub open spec fn result_view<T>(r: Result<T, Error>) -> Result<T, ErrorView> {
    match r {
        Ok(value) => Ok(value),
        Err(e) => Err(e@),
    }
}

/// A decoder's answer seen as a mathematical value: the diagnostic by its view.
pub open spec fn decoded_view<T>(d: Result<T, String>) -> Result<T, Seq<char>> {
    match d {
        Ok(value) => Ok(value),
        Err(diagnostic) => Err(diagnostic@),
    }
}

/// An exchange seen as a mathematical value.
pub open spec fn exchange_view(exchange: Result<Response, String>) -> Result<
    ResponseView,
    Seq<char>,
> {
    match exchange {
        Ok(response) => Ok(response@),
        Err(diagnostic) => Err(diagnostic@),
    }
}

fn prefixed(prefix: &str, body: &str) -> (r: String)
    ensures
        r@ == prefix@ + body@,
{
    let mut message = String::from_str(prefix);
    message.append(body);
    message
}

impl Response {
    /// Tells whether the status reports success.
    pub fn is_success(&self) -> (r: bool)
        ensures
            r == is_success(self.status),
    {
        200 <= self.status && self.status <= 299
    }

    /// The error that the status stands for, if it is not a success.
    pub fn error(&self) -> (r: Option<Error>)
        ensures
            is_success(self.status) <==> r is None,
            r matches Some(e) ==> e@ == failure(self.status, self.body@),
    {
        if self.is_success() {
            return None;
        }
        let status = self.status;
        let body = self.body.as_str();
        let e = match status {
            400 => Error::Api(status, prefixed("Bad request: ", body)),
            401 => Error::InvalidApiKey,
            403 => Error::Api(status, prefixed("Forbidden: ", body)),
            404 => Error::Api(status, prefixed("Not found: ", body)),
            429 => Error::Api(status, prefixed("Too many requests: ", body)),
            500 => Error::ServerError,
            503 => Error::Api(status, prefixed("Service temporarily unavailable: ", body)),
            _ => Error::Api(status, self.body.clone()),
        };
        Some(e)
    }

    /// Settles a response whose body the decoder answered with `decoded`.
    ///
    /// A status outside the success range decides alone; `decoded` is then
    /// not looked at.
    pub fn settle<T>(&self, decoded: Result<T, String>) -> (r: Result<T, Error>)
        ensures
            result_view(r) == verdict(self@, decoded_view(decoded)),
    {
        match self.error() {
            Some(e) => Err(e),
            None => match decoded {
                Ok(value) => Ok(value),
                Err(diagnostic) => {
                    let mut message = String::from_str("Failed to parse JSON response: ");
                    message.append(diagnostic.as_str());
                    message.append(". Response body: ");
                    message.append(self.body.as_str());
                    Err(Error::Api(self.status, message))
                },
            },
        }
    }
}

/// Whether `part` stands somewhere in `whole`, unbroken.
pub open spec fn occurs_in(part: Seq<char>, whole: Seq<char>) -> bool {
    exists|at: int|
        0 <= at && at + part.len() <= whole.len() && #[trigger] whole.subrange(
            at,
            at + part.len(),
        ) == part
}

/// Success is owed exactly when the status is in the success range and the
/// decoder succeeded; the value is then the decoder's.
pub proof fn lemma_success_is_decoded<T>(response: ResponseView, decoded: Result<T, Seq<char>>)
    ensures
        verdict(response, decoded) is Ok <==> is_success(response.status) && decoded is Ok,
        verdict(response, decoded) matches Ok(value) ==> decoded == Ok::<T, Seq<char>>(value),
{
}

/// A response with status 401 is an invalid credential, whatever its body
/// holds and whatever a decoder would make of it.
pub proof fn lemma_unauthorized_whatever_the_body<T>(
    body: Seq<char>,
    decoded: Result<T, Seq<char>>,
)
    ensures
        verdict(ResponseView { status: 401, body }, decoded) == Err::<T, ErrorView>(
            ErrorView::InvalidApiKey,
        ),
{
}

/// A response with status 500 is a server error that holds nothing of the
/// body: two such responses give the same error whatever their bodies are.
pub proof fn lemma_server_error_drops_the_body<T>(
    body: Seq<char>,
    other_body: Seq<char>,
    decoded: Result<T, Seq<char>>,
)
    ensures
        verdict(ResponseView { status: 500, body }, decoded) == Err::<T, ErrorView>(
            ErrorView::ServerError,
        ),
        failure(500, body) == failure(500, other_body),
{
}

/// Every status outside the success range other than 401 and 500 gives an
/// API error that holds this status and a message that ends with the raw
/// body.
pub proof fn lemma_failure_carries_status_and_body(status: u16, body: Seq<char>)
    requires
        !is_success(status),
        status != 401,
        status != 500,
    ensures
        failure(status, body) matches ErrorView::Api(code, message) && code == status
            && message.len() >= body.len() && message.subrange(
            message.len() - body.len(),
            message.len() as int,
        ) == body,
{
    let message = failure(status, body)->Api_1;
    assert(message.subrange(message.len() - body.len(), message.len() as int) =~= body);
}

/// A successful response whose body could not be decoded gives an API error
/// that no response outside the success range gives, and its message holds
/// both the decoder's diagnostic and the raw body.
pub proof fn lemma_decode_failure_is_told_apart(
    status: u16,
    diagnostic: Seq<char>,
    body: Seq<char>,
    other_status: u16,
    other_body: Seq<char>,
)
    requires
        is_success(status),
        !is_success(other_status),
    ensures
        verdict::<int>(ResponseView { status, body }, Err(diagnostic)) == Err::<int, ErrorView>(
            decode_failure(status, diagnostic, body),
        ),
        decode_failure(status, diagnostic, body) != failure(other_status, other_body),
        decode_failure(status, diagnostic, body) matches ErrorView::Api(code, message) && code
            == status && occurs_in(diagnostic, message) && occurs_in(body, message),
{
    let head = "Failed to parse JSON response: "@;
    let middle = ". Response body: "@;
    let message = head + diagnostic + middle + body;
    let from: int = head.len() as int;
    assert(message.subrange(from, from + diagnostic.len()) =~= diagnostic);
    let at: int = from + diagnostic.len() + middle.len();
    assert(message.subrange(at, at + body.len()) =~= body);
}

} // verus!
