//! A measurement taken from the JSON body of an HTTP response.
//!
//! The request is described here and sent by the caller. The answer counts
//! only with a 2xx status; its body is then read like a JSON file.

use vstd::prelude::*;

use crate::config::HttpSourceConfig;
use crate::error::SourceError;
use crate::error::SourceFailure;
use crate::http::canonical_reason;
use crate::http::header_name_accepted;
use crate::http::header_value_accepted;
use crate::http::header_value_error;
use crate::http::is_header_name;
use crate::http::is_method;
use crate::http::is_success;
use crate::http::method_accepted;
use crate::http::reason_phrase;
use crate::http::reason_view;
use crate::http::status_line_with;
use crate::http::status_text_with;
use crate::http::to_uppercase;
use crate::http::uppercase;
use crate::sources::json_source::locate;
use crate::sources::json_source::located;
use crate::sources::raw_view;
use crate::sources::RawValue;
use crate::text::join;
use crate::text::join3;

verus! {

/// A source that takes its measurement from an HTTP endpoint.
#[derive(Debug, Clone)]
pub struct HttpSource {
    url: String,
    method: String,
    json_path: String,
    unit: String,
    multiplier_bits: u64,
    headers: Vec<(String, String)>,
    timeout_secs: u64,
    source_id: String,
}

/// What an `HttpSource` holds.
pub struct HttpSourceView {
    pub url: Seq<char>,
    /// The request method, in upper case.
    pub method: Seq<char>,
    pub json_path: Seq<char>,
    pub unit: Seq<char>,
    pub multiplier_bits: u64,
    pub headers: Seq<(Seq<char>, Seq<char>)>,
    pub timeout_secs: u64,
    pub source_id: Seq<char>,
}

impl View for HttpSource {
    type V = HttpSourceView;

    closed spec fn view(&self) -> HttpSourceView {
        HttpSourceView {
            url: self.url@,
            method: self.method@,
            json_path: self.json_path@,
            unit: self.unit@,
            multiplier_bits: self.multiplier_bits,
            headers: self.headers.deep_view(),
            timeout_secs: self.timeout_secs,
            source_id: self.source_id@,
        }
    }
}

/// Why the header at position `i` or a later one cannot be sent: the first
/// name or value, in order, that is not accepted.
pub open spec fn header_failure_from(headers: Seq<(Seq<char>, Seq<char>)>, i: int) -> Option<
    SourceFailure,
>
    decreases headers.len() - i,
{
    if i < 0 || i >= headers.len() {
        None
    } else if !header_name_accepted(headers[i].0) {
        Some(SourceFailure::ParseError("Invalid header name: "@ + headers[i].0))
    } else if !header_value_accepted(headers[i].1) {
        Some(SourceFailure::ParseError("Invalid header value: "@ + headers[i].1))
    } else {
        header_failure_from(headers, i + 1)
    }
}

/// The source that a configuration describes, or why it describes none: the
/// method, put in upper case, must be accepted, and so must every header.
pub open spec fn http_source_of(config: HttpSourceConfig) -> Result<HttpSourceView, SourceFailure> {
    match request_failure(uppercase(config.method@), config.method@, config.headers.deep_view()) {
        Some(failure) => Err(failure),
        None => Ok(
            HttpSourceView {
                url: config.url@,
                method: uppercase(config.method@),
                json_path: config.json_path@,
                unit: config.unit@,
                multiplier_bits: config.multiplier_bits,
                headers: config.headers.deep_view(),
                timeout_secs: config.timeout_secs,
                source_id: "http:"@ + config.url@,
            },
        ),
    }
}

/// The failure that a status outside the 2xx range stands for, where
/// `reason` is the reason phrase of the status.
pub open spec fn status_failure_with(status: u16, reason: Option<Seq<char>>) -> SourceFailure {
    SourceFailure::HttpError(
        "HTTP "@ + status_line_with(status, reason) + " - "@ + match reason {
            Some(phrase) => phrase,
            None => "Unknown error"@,
        },
    )
}

/// The failure that a status outside the 2xx range stands for.
pub open spec fn status_failure(status: u16) -> SourceFailure {
    status_failure_with(status, reason_phrase(status))
}

/// Whether a request can be sent, or why not: the method, which is in upper
/// case already, must be accepted, and so must every header. `written` is
/// the method as the configuration spells it.
pub open spec fn request_failure(
    method: Seq<char>,
    written: Seq<char>,
    headers: Seq<(Seq<char>, Seq<char>)>,
) -> Option<SourceFailure> {
    if !method_accepted(method) {
        Some(SourceFailure::ParseError("Invalid HTTP method: "@ + written))
    } else {
        header_failure_from(headers, 0)
    }
}

/// Copies the headers.
fn copy_headers(headers: &Vec<(String, String)>) -> (copy: Vec<(String, String)>)
    ensures
        copy.deep_view() == headers.deep_view(),
{
    let mut copy: Vec<(String, String)> = Vec::new();
    let mut i: usize = 0;
    while i < headers.len()
        invariant
            0 <= i <= headers.len(),
            copy.len() == i,
            forall|j: int| 0 <= j < i ==> #[trigger] copy@[j].deep_view() == headers@[j].deep_view(),
        decreases headers.len() - i,
    {
        copy.push((headers[i].0.clone(), headers[i].1.clone()));
        i = i + 1;
    }
    assert(copy.deep_view() =~= headers.deep_view());
    copy
}

/// Checks that a request can be sent: the method, which is in upper case
/// already, and every header in order. `written` is the method as the
/// configuration spells it, for the message.
pub fn validate_request(method: &str, written: &str, headers: &Vec<(String, String)>) -> (r: Result<
    (),
    SourceError,
>)
    ensures
        match r {
            Ok(_) => request_failure(method@, written@, headers.deep_view()) is None,
            Err(e) => request_failure(method@, written@, headers.deep_view()) == Some(e@),
        },
{
    if !is_method(method) {
        return Err(SourceError::ParseError(join("Invalid HTTP method: ", written)));
    }
    let ghost views = headers.deep_view();
    let mut i: usize = 0;
    while i < headers.len()
        invariant
            0 <= i <= headers.len(),
            views == headers.deep_view(),
            method_accepted(method@),
            header_failure_from(views, 0) == header_failure_from(views, i as int),
        decreases headers.len() - i,
    {
        let name = headers[i].0.as_str();
        let value = headers[i].1.as_str();
        assert(views[i as int] == (name@, value@));
        if !is_header_name(name) {
            return Err(SourceError::ParseError(join("Invalid header name: ", name)));
        }
        if header_value_error(value).is_some() {
            return Err(SourceError::ParseError(join("Invalid header value: ", value)));
        }
        i = i + 1;
    }
    Ok(())
}

impl HttpSource {
    /// Builds the source. Fails exactly when the method or a header cannot
    /// be sent, and names the first that cannot.
    pub fn new(config: &HttpSourceConfig) -> (r: Result<HttpSource, SourceError>)
        ensures
            match r {
                Ok(source) => http_source_of(*config) == Ok::<HttpSourceView, SourceFailure>(
                    source@,
                ),
                Err(e) => http_source_of(*config) == Err::<HttpSourceView, SourceFailure>(e@),
            },
    {
        let method = to_uppercase(config.method.as_str());
        if let Err(e) = validate_request(method.as_str(), config.method.as_str(), &config.headers) {
            return Err(e);
        }
        Ok(
            HttpSource {
                url: config.url.clone(),
                method,
                json_path: config.json_path.clone(),
                unit: config.unit.clone(),
                multiplier_bits: config.multiplier_bits,
                headers: copy_headers(&config.headers),
                timeout_secs: config.timeout_secs,
                source_id: join("http:", config.url.as_str()),
            },
        )
    }

    /// Accepts an answer with a 2xx status and refuses any other, given the
    /// reason phrase of the status.
    pub fn check_status_with(status: u16, reason: &Option<String>) -> (r: Result<(), SourceError>)
        ensures
            r is Ok <==> is_success(status),
            r matches Err(e) ==> e@ == status_failure_with(status, reason_view(*reason)),
    {
        if 200 <= status && status < 300 {
            Ok(())
        } else {
            let line = status_text_with(status, reason);
            let head = join3("HTTP ", line.as_str(), " - ");
            match reason {
                Some(phrase) => Err(
                    SourceError::HttpError(join(head.as_str(), phrase.as_str())),
                ),
                None => Err(SourceError::HttpError(join(head.as_str(), "Unknown error"))),
            }
        }
    }

    /// Accepts an answer with a 2xx status and refuses any other.
    pub fn check_status(status: u16) -> (r: Result<(), SourceError>)
        ensures
            r is Ok <==> is_success(status),
            r matches Err(e) ==> e@ == status_failure(status),
    {
        let reason = canonical_reason(status);
        HttpSource::check_status_with(status, &reason)
    }

    /// Locates the measurement in the body of an accepted answer.
    pub fn extract_value(&self, body: &str) -> (r: Result<RawValue, SourceError>)
        ensures
            raw_view(r) == located(body@, self@.json_path),
    {
        locate(body, self.json_path.as_str())
    }

    /// The identifier under which this source appears in logs.
    pub fn source_id(&self) -> (r: &str)
        ensures
            r@ == self@.source_id,
    {
        self.source_id.as_str()
    }

    /// The address that is requested.
    pub fn url(&self) -> (r: &str)
        ensures
            r@ == self@.url,
    {
        self.url.as_str()
    }

    /// The request method, in upper case.
    pub fn method(&self) -> (r: &str)
        ensures
            r@ == self@.method,
    {
        self.method.as_str()
    }

    /// The request headers as name and value.
    pub fn headers(&self) -> (r: &Vec<(String, String)>)
        ensures
            r.deep_view() == self@.headers,
    {
        &self.headers
    }

    /// The time allowed for one request, in seconds.
    pub fn timeout_secs(&self) -> (r: u64)
        ensures
            r == self@.timeout_secs,
    {
        self.timeout_secs
    }

    /// The unit label of the readings.
    pub fn unit(&self) -> (r: &str)
        ensures
            r@ == self@.unit,
    {
        self.unit.as_str()
    }

    /// The scale factor, as the bit pattern of a double.
    pub fn multiplier_bits(&self) -> (r: u64)
        ensures
            r == self@.multiplier_bits,
    {
        self.multiplier_bits
    }
}

} // verus!
