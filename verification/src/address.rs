//! Addresses of pages and requests, read by the `url` crate.

use crate::flow::UrlExpectation;
use crate::report::FailureCategory;
use crate::step_error::{plain_error, protocol, StepError};
use crate::text::{chars_of, optional_text, same_text};
use vstd::prelude::*;
use vstd::string::*;

verus! {

/// The parts of an address that matter here.
#[derive(Debug, Clone, PartialEq, Eq)]
pub struct Address {
    pub scheme: String,
    pub has_host: bool,
    pub path: String,
    pub query: Option<String>,
}

/// The model of an address.
pub struct AddressView {
    pub scheme: Seq<char>,
    pub has_host: bool,
    pub path: Seq<char>,
    pub query: Option<Seq<char>>,
}

impl View for Address {
    type V = AddressView;

    open spec fn view(&self) -> AddressView {
        AddressView {
            scheme: self.scheme@,
            has_host: self.has_host,
            path: self.path@,
            query: optional_text(self.query),
        }
    }
}

/// The address that `Url::parse` of the `url` crate reads from a text, or the text of its error.
pub uninterp spec fn url_parsed(text: Seq<char>) -> Result<AddressView, Seq<char>>;

/// Calls `Url::parse` of the `url` crate and copies the parts out of the address it returns:
/// scheme, whether there is a host, path, and query.
#[verifier::external_body]
fn parse_url(text: &str) -> (parsed: Result<Address, String>)
    ensures
        match parsed {
            Ok(address) => url_parsed(text@) == Ok::<AddressView, Seq<char>>(address@),
            Err(error) => url_parsed(text@) == Err::<AddressView, Seq<char>>(error@),
        },
{
    let url = url::Url::parse(text).map_err(|error| error.to_string())?;
    Ok(Address {
        scheme: url.scheme().to_owned(),
        has_host: url.host().is_some(),
        path: url.path().to_owned(),
        query: url.query().map(str::to_owned),
    })
}

/// The origin, in ASCII, of the address that a text holds.
pub uninterp spec fn url_origin(text: Seq<char>) -> Seq<char>;

/// Calls `Url::origin` of the `url` crate on the address that `Url::parse` reads from a text, and
/// `Origin::ascii_serialization` on what it returns. The contract claims that the origin depends on
/// the text alone, and that there is none exactly where the text holds no address.
#[verifier::external_body]
fn parse_origin(text: &str) -> (origin: Result<String, String>)
    ensures
        match origin {
            Ok(origin) => url_parsed(text@) is Ok && origin@ == url_origin(text@),
            Err(error) => url_parsed(text@) == Err::<AddressView, Seq<char>>(error@),
        },
{
    let url = url::Url::parse(text).map_err(|error| error.to_string())?;
    Ok(url.origin().ascii_serialization())
}

/// The path of an address and, where it has one, its query.
pub open spec fn path_and_query(address: AddressView) -> Seq<char> {
    match address.query {
        Some(query) => address.path.push('?') + query,
        None => address.path,
    }
}

impl Address {
    /// The path and, where there is one, the query.
    pub fn path_and_query(&self) -> (text: String)
        ensures
            text@ == path_and_query(self@),
    {
        let mut text = self.path.clone();
        if let Some(query) = &self.query {
            text.push('?');
            text.append(query.as_str());
        }
        text
    }

    /// Whether requests can be sent there: over HTTP or HTTPS, to a host.
    pub fn takes_requests(&self) -> (takes: bool)
        ensures
            takes == ((self.scheme@ == "http"@ || self.scheme@ == "https"@) && self.has_host),
    {
        (same_text(self.scheme.as_str(), "http") || same_text(self.scheme.as_str(), "https"))
            && self.has_host
    }
}

/// Whether an address that was read meets an expectation. `text` is the address as it stands. A query
/// counts only where the expectation supplies one.
pub open spec fn meets(
    text: Seq<char>,
    address: Result<AddressView, Seq<char>>,
    expectation: UrlExpectation,
) -> bool {
    match expectation {
        UrlExpectation::Equals(expected) => text == expected.value@,
        UrlExpectation::Path(expected) => match address {
            Ok(address) => if expected.value@.contains('?') {
                path_and_query(address) == expected.value@
            } else {
                address.path == expected.value@
            },
            Err(_) => false,
        },
    }
}

fn supplies_query(expected: &str) -> (supplies: bool)
    ensures
        supplies == expected@.contains('?'),
{
    let chars = chars_of(expected);
    let mut i: usize = 0;
    while i < chars.len()
        invariant
            i <= chars.len(),
            chars@ == expected@,
            forall|k: int| 0 <= k < i ==> (#[trigger] chars@[k]) != '?',
        decreases chars.len() - i,
    {
        if chars[i] == '?' {
            assert(expected@[i as int] == '?');
            return true;
        }
        i += 1;
    }
    false
}

/// Whether an address that was read meets an expectation.
pub fn address_meets(
    text: &str,
    address: Option<&Address>,
    expectation: &UrlExpectation,
) -> (matches: bool)
    ensures
        matches == meets(
            text@,
            match address {
                Some(address) => Ok(address@),
                None => Err(Seq::empty()),
            },
            *expectation,
        ),
{
    match expectation {
        UrlExpectation::Equals(expected) => same_text(text, expected.value.as_str()),
        UrlExpectation::Path(expected) => match address {
            Some(address) => if supplies_query(expected.value.as_str()) {
                let shown = address.path_and_query();
                same_text(shown.as_str(), expected.value.as_str())
            } else {
                same_text(address.path.as_str(), expected.value.as_str())
            },
            None => false,
        },
    }
}

/// Whether the address of a page meets an expectation: as a whole, or by its path and, where the
/// expectation supplies one, its query, whatever its origin and fragment are.
pub fn url_matches(actual: &str, expectation: &UrlExpectation) -> (matches: bool)
    ensures
        matches == meets(actual@, url_parsed(actual@), *expectation),
{
    match parse_url(actual) {
        Ok(address) => address_meets(actual, Some(&address), expectation),
        Err(_) => address_meets(actual, None, expectation),
    }
}

/// Whether requests can be sent to an address that was read.
pub open spec fn request_address(parsed: Result<AddressView, Seq<char>>) -> bool {
    match parsed {
        Ok(address) => (address.scheme == "http"@ || address.scheme == "https"@)
            && address.has_host,
        Err(_) => false,
    }
}

/// Refuses an address to which no request can be sent.
pub fn check_request_url(url: &str) -> (result: Result<(), StepError>)
    ensures
        match result {
            Ok(_) => request_address(url_parsed(url@)),
            Err(error) => !request_address(url_parsed(url@)) && plain_error(
                error,
                FailureCategory::Request,
                "request URL is invalid"@,
            ),
        },
{
    if let Ok(address) = parse_url(url) {
        if address.takes_requests() {
            return Ok(());
        }
    }
    Err(StepError::new(FailureCategory::Request, "request URL is invalid"))
}

/// The origin whose service workers a step clears, given the address of the active page.
pub fn service_worker_origin(url: Option<&str>) -> (result: Result<String, StepError>)
    ensures
        match url {
            None => result matches Err(error) && plain_error(
                error,
                FailureCategory::Protocol,
                "active page has no URL"@,
            ),
            Some(url) => match url_parsed(url@) {
                Ok(_) => result matches Ok(origin) && origin@ == url_origin(url@),
                Err(message) => result matches Err(error) && plain_error(
                    error,
                    FailureCategory::Protocol,
                    message,
                ),
            },
        },
{
    match url {
        None => Err(protocol("active page has no URL")),
        Some(url) => match parse_origin(url) {
            Ok(origin) => Ok(origin),
            Err(message) => Err(protocol(message.as_str())),
        },
    }
}

/// An expectation of a whole address is met by that address and no other. One of a path is met by every address
/// with that path, whatever its query, unless the expectation has a query itself.
pub proof fn paths_are_met_with_or_without_query(
    text: &str,
    address: Address,
    expectation: UrlExpectation,
    matched: bool,
    unparsed: bool,
)
    requires
        call_ensures(address_meets, (text, Some(&address), &expectation), matched),
        call_ensures(address_meets, (text, None, &expectation), unparsed),
    ensures
        match expectation {
            UrlExpectation::Equals(expected) => {
                &&& (matched <==> text@ == expected.value@)
                &&& unparsed == matched
            },
            UrlExpectation::Path(expected) => {
                &&& !unparsed
                &&& (!expected.value@.contains('?') ==> (matched <==> address.path@
                    == expected.value@))
                &&& (expected.value@.contains('?') && address.query is Some ==> (matched
                    <==> address.path@ + seq!['?'] + address.query->0@ == expected.value@))
                &&& (expected.value@.contains('?') && address.query is None ==> (matched
                    <==> address.path@ == expected.value@))
            },
        },
{
    if address.query is Some {
        assert(address.path@.push('?') + address.query->0@ =~= address.path@ + seq!['?']
            + address.query->0@);
    }
}

/// An address matches by what it is parsed to.
pub proof fn addresses_match_as_parsed(
    actual: &str,
    expectation: UrlExpectation,
    matched: bool,
    address: Address,
    met: bool,
)
    requires
        call_ensures(url_matches, (actual, &expectation), matched),
        url_parsed(actual@) == Ok::<AddressView, Seq<char>>(address@),
        call_ensures(address_meets, (actual, Some(&address), &expectation), met),
    ensures
        matched == met,
{
}

/// A request goes to a host, over one of two schemes, and nowhere else.
pub proof fn requests_go_to_hosts(address: Address, takes: bool)
    requires
        call_ensures(Address::takes_requests, (&address,), takes),
    ensures
        takes ==> address.has_host,
        takes ==> address.scheme@ == "http"@ || address.scheme@ == "https"@,
        address.has_host && address.scheme@ == "http"@ ==> takes,
        address.has_host && address.scheme@ == "https"@ ==> takes,
{
}

/// Service workers are cleared for the origin of the page, which has to have an address.
pub proof fn service_workers_belong_to_an_origin(
    url: Option<&str>,
    result: Result<String, StepError>,
)
    requires
        call_ensures(service_worker_origin, (url,), result),
    ensures
        result is Ok <==> url is Some && url_parsed(url->0@) is Ok,
        result is Ok ==> result->Ok_0@ == url_origin(url->0@),
        result is Err ==> result->Err_0.category is Protocol,
{
}

} // verus!
