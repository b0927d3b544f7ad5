//! Requests that a flow sends, and what it takes from their responses.

use crate::address::{check_request_url, request_address, url_parsed};
use crate::codec::{json_parsed, read_json};
use crate::guards::value_text;
use crate::json::{Json, JsonValue};
use crate::outputs::resolve_runtime;
use crate::report::FailureCategory;
use crate::step_error::{plain_error, StepError};
use crate::text::{decimal, decimal_text};
use crate::values::{resolved_text, Outputs, RuntimeValue, MAX_RUNTIME_VALUE_BYTES};
use vstd::prelude::*;
use vstd::string::*;

verus! {

/// A request with everything put together.
#[derive(Debug)]
pub struct HttpRequest {
    pub headers: Vec<(String, String)>,
    pub body: Option<String>,
}

/// The headers of a request, or what is told of the first output that one lacks.
pub open spec fn header_texts(
    headers: Seq<(String, RuntimeValue)>,
    outputs: Seq<(Seq<char>, Json)>,
) -> Result<Seq<(Seq<char>, Seq<char>)>, Seq<char>>
    decreases headers.len(),
{
    if headers.len() == 0 {
        Ok(Seq::empty())
    } else {
        match header_texts(headers.drop_last(), outputs) {
            Err(message) => Err(message),
            Ok(before) => match value_text(headers.last().1, outputs) {
                Err(message) => Err(message),
                Ok(text) => Ok(before.push((headers.last().0@, text))),
            },
        }
    }
}

/// The names and values of resolved headers.
pub open spec fn headers_view(headers: Seq<(String, String)>) -> Seq<(Seq<char>, Seq<char>)> {
    headers.map_values(|header: (String, String)| (header.0@, header.1@))
}

proof fn missing_header_stays_missing(
    headers: Seq<(String, RuntimeValue)>,
    outputs: Seq<(Seq<char>, Json)>,
    at: int,
)
    requires
        0 <= at <= headers.len(),
        header_texts(headers.take(at), outputs) is Err,
    ensures
        header_texts(headers, outputs) == header_texts(headers.take(at), outputs),
    decreases headers.len() - at,
{
    if at < headers.len() {
        assert(headers.take(at + 1).drop_last() == headers.take(at));
        missing_header_stays_missing(headers, outputs, at + 1);
    } else {
        assert(headers.take(at) == headers);
    }
}

fn resolve_headers(headers: &Vec<(String, RuntimeValue)>, outputs: &Outputs) -> (result: Result<
    Vec<(String, String)>,
    StepError,
>)
    ensures
        match result {
            Ok(resolved) => header_texts(headers@, outputs@) == Ok::<
                Seq<(Seq<char>, Seq<char>)>,
                Seq<char>,
            >(headers_view(resolved@)),
            Err(error) => header_texts(headers@, outputs@) is Err && plain_error(
                error,
                FailureCategory::Protocol,
                header_texts(headers@, outputs@)->Err_0,
            ),
        },
{
    let mut resolved: Vec<(String, String)> = Vec::new();
    let mut i: usize = 0;
    assert(headers@.take(0) == Seq::<(String, RuntimeValue)>::empty());
    assert(headers_view(resolved@) == Seq::<(Seq<char>, Seq<char>)>::empty());
    while i < headers.len()
        invariant
            i <= headers.len(),
            header_texts(headers@.take(i as int), outputs@) == Ok::<
                Seq<(Seq<char>, Seq<char>)>,
                Seq<char>,
            >(headers_view(resolved@)),
        decreases headers.len() - i,
    {
        proof {
            let taken = headers@.take(i + 1);
            assert(taken.drop_last() == headers@.take(i as int));
            assert(taken.last() == headers@[i as int]);
        }
        match resolve_runtime(&headers[i].1, outputs) {
            Ok(text) => {
                let ghost before = resolved@;
                resolved.push((headers[i].0.clone(), text.value));
                assert(headers_view(resolved@) == headers_view(before).push(
                    (headers@[i as int].0@, text.value@),
                ));
            },
            Err(error) => {
                proof {
                    missing_header_stays_missing(headers@, outputs@, i + 1);
                }
                return Err(error);
            },
        }
        i += 1;
    }
    assert(headers@.take(i as int) == headers@);
    Ok(resolved)
}

/// The first reason not to send a request: its address, then a header, then its body.
pub open spec fn request_refused(
    url: Seq<char>,
    headers: Seq<(String, RuntimeValue)>,
    body: Option<RuntimeValue>,
    outputs: Seq<(Seq<char>, Json)>,
) -> Option<(FailureCategory, Seq<char>)> {
    if !request_address(url_parsed(url)) {
        Some((FailureCategory::Request, "request URL is invalid"@))
    } else {
        match header_texts(headers, outputs) {
            Err(message) => Some((FailureCategory::Protocol, message)),
            Ok(_) => match body {
                Some(body) => match value_text(body, outputs) {
                    Err(message) => Some((FailureCategory::Protocol, message)),
                    Ok(_) => None,
                },
                None => None,
            },
        }
    }
}

/// Puts a request together.
pub fn prepare_request(
    url: &str,
    headers: &Vec<(String, RuntimeValue)>,
    body: &Option<RuntimeValue>,
    outputs: &Outputs,
) -> (result: Result<HttpRequest, StepError>)
    ensures
        match result {
            Ok(request) => {
                &&& request_refused(url@, headers@, *body, outputs@) is None
                &&& header_texts(headers@, outputs@) == Ok::<
                    Seq<(Seq<char>, Seq<char>)>,
                    Seq<char>,
                >(headers_view(request.headers@))
                &&& match *body {
                    Some(value) => request.body is Some && value_text(value, outputs@) == Ok::<
                        Seq<char>,
                        Seq<char>,
                    >(request.body->0@),
                    None => request.body is None,
                }
            },
            Err(error) => match request_refused(url@, headers@, *body, outputs@) {
                Some((category, message)) => plain_error(error, category, message),
                None => false,
            },
        },
{
    if let Err(error) = check_request_url(url) {
        return Err(error);
    }
    let headers = match resolve_headers(headers, outputs) {
        Ok(headers) => headers,
        Err(error) => {
            return Err(error);
        },
    };
    match body {
        Some(value) => match resolve_runtime(value, outputs) {
            Ok(text) => Ok(HttpRequest { headers, body: Some(text.value) }),
            Err(error) => Err(error),
        },
        None => Ok(HttpRequest { headers, body: None }),
    }
}

/// The failure of a request that got no response.
pub fn request_failed() -> (error: StepError)
    ensures
        plain_error(error, FailureCategory::Request, "HTTP request failed"@),
{
    StepError::new(FailureCategory::Request, "HTTP request failed")
}

/// The failure of a response whose body broke off.
pub fn body_failed() -> (error: StepError)
    ensures
        plain_error(error, FailureCategory::Request, "HTTP response body failed"@),
{
    StepError::new(FailureCategory::Request, "HTTP response body failed")
}

/// What is told of an unexpected status.
pub open spec fn status_text(actual: u16, expected: u16) -> Seq<char> {
    "HTTP status was "@ + decimal(actual as nat) + ", expected "@ + decimal(expected as nat)
}

/// What is told of a body that is too large.
pub open spec fn too_large(error: StepError) -> bool {
    plain_error(
        error,
        FailureCategory::Request,
        "HTTP response body exceeds the runtime value size limit"@,
    )
}

fn body_too_large() -> (error: StepError)
    ensures
        too_large(error),
{
    StepError::new(
        FailureCategory::Request,
        "HTTP response body exceeds the runtime value size limit",
    )
}

/// The body of a response while it is read.
#[derive(Debug)]
pub struct ResponseBody {
    pub bytes: Vec<u8>,
}

impl ResponseBody {
    /// Takes the head of a response: refuses an unexpected status, and a body that is announced as
    /// too large. Without a wish for the body there is nothing to read.
    pub fn begin(
        status: u16,
        expected_status: u16,
        save_body: bool,
        content_length: Option<u64>,
    ) -> (result: Result<Option<ResponseBody>, StepError>)
        ensures
            match result {
                Ok(body) => {
                    &&& status == expected_status
                    &&& body is Some == save_body
                    &&& body is Some ==> body->0.bytes@ == Seq::<u8>::empty()
                    &&& save_body && content_length is Some ==> content_length->0
                        <= MAX_RUNTIME_VALUE_BYTES
                },
                Err(error) => if status != expected_status {
                    plain_error(
                        error,
                        FailureCategory::Request,
                        status_text(status, expected_status),
                    )
                } else {
                    &&& save_body
                    &&& content_length is Some
                    &&& content_length->0 > MAX_RUNTIME_VALUE_BYTES
                    &&& too_large(error)
                },
            },
    {
        if status != expected_status {
            let mut message = "HTTP status was ".to_owned();
            let actual = decimal_text(status as u64);
            message.append(actual.as_str());
            message.append(", expected ");
            let expected = decimal_text(expected_status as u64);
            message.append(expected.as_str());
            return Err(StepError::new(FailureCategory::Request, message.as_str()));
        }
        if !save_body {
            return Ok(None);
        }
        if let Some(length) = content_length {
            if length > MAX_RUNTIME_VALUE_BYTES as u64 {
                return Err(body_too_large());
            }
        }
        Ok(Some(ResponseBody { bytes: Vec::new() }))
    }

    /// Takes the next piece of the body, unless it grows too large.
    pub fn add_chunk(&mut self, chunk: &[u8]) -> (result: Result<(), StepError>)
        ensures
            match result {
                Ok(_) => {
                    &&& old(self).bytes@.len() + chunk@.len() <= MAX_RUNTIME_VALUE_BYTES
                    &&& final(self).bytes@ == old(self).bytes@ + chunk@
                },
                Err(error) => {
                    &&& old(self).bytes@.len() + chunk@.len() > MAX_RUNTIME_VALUE_BYTES
                    &&& too_large(error)
                    &&& *final(self) == *old(self)
                },
            },
    {
        match self.bytes.len().checked_add(chunk.len()) {
            Some(length) => {
                if length > MAX_RUNTIME_VALUE_BYTES {
                    return Err(body_too_large());
                }
            },
            None => {
                return Err(body_too_large());
            },
        }
        let mut i: usize = 0;
        while i < chunk.len()
            invariant
                i <= chunk.len(),
                self.bytes@ == old(self).bytes@ + chunk@.take(i as int),
            decreases chunk.len() - i,
        {
            self.bytes.push(chunk[i]);
            i += 1;
        }
        assert(chunk@.take(i as int) == chunk@);
        Ok(())
    }

    /// The value of the body once it is read.
    pub fn finish(&self) -> (value: JsonValue)
        ensures
            value@ == body_model(self.bytes@, json_parsed(self.bytes@)),
    {
        if self.bytes.len() == 0 {
            return JsonValue::Null;
        }
        match read_json(self.bytes.as_slice()) {
            Ok(value) => value,
            Err(_) => JsonValue::Text(lossy(&self.bytes)),
        }
    }
}

/// The text that `String::from_utf8_lossy` of std makes of bytes.
pub uninterp spec fn lossy_text(bytes: Seq<u8>) -> Seq<char>;

/// Calls `String::from_utf8_lossy` of std.
#[verifier::external_body]
pub(crate) fn lossy(bytes: &Vec<u8>) -> (text: String)
    ensures
        text@ == lossy_text(bytes@),
{
    String::from_utf8_lossy(bytes).into_owned()
}

/// The value of a body: null where it is empty, the JSON that was read from it, else its text.
pub open spec fn body_model(bytes: Seq<u8>, parsed: Result<Json, Seq<char>>) -> Json {
    if bytes.len() == 0 {
        Json::Null
    } else {
        match parsed {
            Ok(value) => value,
            Err(_) => Json::Text(lossy_text(bytes)),
        }
    }
}

/// The bytes of a body after pieces that arrive in turn, unless they grow too large.
pub open spec fn gathered_body(bytes: Seq<u8>, chunks: Seq<Seq<u8>>) -> Option<Seq<u8>>
    decreases chunks.len(),
{
    if chunks.len() == 0 {
        Some(bytes)
    } else {
        match gathered_body(bytes, chunks.drop_last()) {
            Some(before) => if before.len() + chunks.last().len() <= MAX_RUNTIME_VALUE_BYTES {
                Some(before + chunks.last())
            } else {
                None
            },
            None => None,
        }
    }
}

/// How a body is cut into pieces makes no difference: it is taken exactly if all of it is small
/// enough, and then it is the pieces put together.
pub proof fn pieces_make_no_difference(bytes: Seq<u8>, chunks: Seq<Seq<u8>>)
    requires
        bytes.len() <= MAX_RUNTIME_VALUE_BYTES,
    ensures
        gathered_body(bytes, chunks) == if bytes.len() + chunks.flatten().len()
            <= MAX_RUNTIME_VALUE_BYTES {
            Some(bytes + chunks.flatten())
        } else {
            None
        },
    decreases chunks.len(),
{
    if chunks.len() == 0 {
        assert(bytes + chunks.flatten() == bytes);
    } else {
        pieces_make_no_difference(bytes, chunks.drop_last());
        chunks.lemma_flatten_and_flatten_alt_are_equivalent();
        chunks.drop_last().lemma_flatten_and_flatten_alt_are_equivalent();
        assert(chunks.flatten() == chunks.drop_last().flatten() + chunks.last());
        assert(bytes + chunks.flatten() == (bytes + chunks.drop_last().flatten()) + chunks.last());
    }
}

/// A response is taken exactly if its status is the expected one and, where its body is kept, its announced
/// length is at most a mebibyte. A body is kept exactly if it was asked for, and begins empty.
pub proof fn responses_are_taken_by_status_and_size(
    status: u16,
    expected: u16,
    save_body: bool,
    length: Option<u64>,
    result: Result<Option<ResponseBody>, StepError>,
)
    requires
        call_ensures(ResponseBody::begin, (status, expected, save_body, length), result),
    ensures
        result is Ok <==> status == expected && !(save_body && length is Some && length->0
            > 1_048_576),
        result matches Ok(body) ==> (body is Some <==> save_body),
        result matches Ok(Some(body)) ==> body.bytes@.len() == 0,
        result is Err ==> result->Err_0.category is Request && !result->Err_0.deadline_based,
{
}

/// A body that is no JSON text is kept as text, an empty one as null, and any other as the value it stands for.
pub proof fn bodies_are_values(body: ResponseBody, value: JsonValue)
    requires
        call_ensures(ResponseBody::finish, (&body,), value),
    ensures
        body.bytes@.len() == 0 ==> value@ is Null,
        body.bytes@.len() > 0 && json_parsed(body.bytes@) is Ok ==> value@ == json_parsed(
            body.bytes@,
        )->Ok_0,
        body.bytes@.len() > 0 && json_parsed(body.bytes@) is Err ==> value@ == Json::Text(
            lossy_text(body.bytes@),
        ),
{
}

/// Chunks add up to the body while it has at most a mebibyte.
pub proof fn bodies_have_at_most_a_mebibyte(first: Seq<u8>, second: Seq<u8>)
    ensures
        first.len() + second.len() <= 1_048_576 ==> gathered_body(
            Seq::empty(),
            seq![first, second],
        ) == Some(first + second),
        first.len() + second.len() > 1_048_576 ==> gathered_body(
            Seq::empty(),
            seq![first, second],
        ) is None,
{
    let chunks = seq![first, second];
    assert(chunks.drop_last() =~= seq![first]);
    assert(chunks.drop_last().drop_last() =~= Seq::<Seq<u8>>::empty());
    assert(Seq::<u8>::empty() + first =~= first);
    assert(seq![first].drop_last() =~= Seq::<Seq<u8>>::empty());
    reveal_with_fuel(gathered_body, 3);
}

/// The headers of a request are those that were given, name for name, each with the text of its value.
pub proof fn headers_are_those_given(
    url: &str,
    headers: Vec<(String, RuntimeValue)>,
    body: Option<RuntimeValue>,
    outputs: Outputs,
    result: Result<HttpRequest, StepError>,
    i: int,
)
    requires
        call_ensures(prepare_request, (url, &headers, &body, &outputs), result),
    ensures
        result matches Ok(request) ==> {
            &&& request.headers@.len() == headers@.len()
            &&& (0 <= i < headers@.len() ==> request.headers@[i].0@ == headers@[i].0@
                && resolved_text(headers@[i].1.parts@, outputs@) == Ok::<Seq<char>, Seq<char>>(
                request.headers@[i].1@,
            ))
            &&& (request.body is Some <==> body is Some)
            &&& (body matches Some(value) ==> resolved_text(value.parts@, outputs@) == Ok::<
                Seq<char>,
                Seq<char>,
            >(request.body->0@))
        },
{
    if let Ok(request) = result {
        headers_have_their_texts(headers@, outputs@, i);
        assert(headers_view(request.headers@).len() == request.headers@.len());
    }
}

proof fn headers_have_their_texts(
    headers: Seq<(String, RuntimeValue)>,
    outputs: Seq<(Seq<char>, Json)>,
    i: int,
)
    requires
        header_texts(headers, outputs) is Ok,
    ensures
        header_texts(headers, outputs)->Ok_0.len() == headers.len(),
        0 <= i < headers.len() ==> header_texts(headers, outputs)->Ok_0[i].0 == headers[i].0@
            && value_text(headers[i].1, outputs) == Ok::<Seq<char>, Seq<char>>(
            header_texts(headers, outputs)->Ok_0[i].1,
        ),
    decreases headers.len(),
{
    if headers.len() > 0 {
        headers_have_their_texts(headers.drop_last(), outputs, i);
    }
}

/// A request is refused exactly if its address takes none, or an output in a header or in its body is missing.
pub proof fn requests_need_an_address_and_their_outputs(
    url: &str,
    headers: Vec<(String, RuntimeValue)>,
    body: Option<RuntimeValue>,
    outputs: Outputs,
    result: Result<HttpRequest, StepError>,
    checked: Result<(), StepError>,
)
    requires
        call_ensures(prepare_request, (url, &headers, &body, &outputs), result),
        call_ensures(check_request_url, (url,), checked),
    ensures
        checked is Err ==> result is Err && result->Err_0.category is Request,
        checked is Ok && headers@.len() == 0 && body is None ==> result is Ok,
        checked is Ok && result is Err ==> result->Err_0.category is Protocol,
        (body matches Some(value) && resolved_text(value.parts@, outputs@) is Err) ==> result is Err,
{
}

/// A chunk is added whole or, where the body would have more than a mebibyte, not at all.
pub proof fn chunks_are_added_whole(
    body: &mut ResponseBody,
    chunk: &[u8],
    result: Result<(), StepError>,
)
    requires
        call_ensures(ResponseBody::add_chunk, (body, chunk), result),
    ensures
        result is Ok <==> old(body).bytes@.len() + chunk@.len() <= 1_048_576,
        result is Ok ==> final(body).bytes@ == old(body).bytes@ + chunk@,
        result is Err ==> final(body).bytes@ == old(body).bytes@ && result->Err_0.category is Request,
{
}

/// Requests and bodies that fail are failures of the request.
pub proof fn failed_requests_are_told(request: StepError, body: StepError)
    requires
        call_ensures(request_failed, (), request),
        call_ensures(body_failed, (), body),
    ensures
        request.category is Request && !request.deadline_based,
        body.category is Request && !body.deadline_based,
{
}

} // verus!
