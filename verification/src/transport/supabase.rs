//! One delivery attempt against the remote ingestion API: what is sent, and
//! how the answer is classified.

use vstd::prelude::*;

use crate::config::SupabaseSettings;
use crate::error::TransportError;
use crate::error::TransportFailure;
use crate::http::canonical_reason;
use crate::http::header_value_accepted;
use crate::http::header_value_error;
use crate::http::reason_phrase;
use crate::http::reason_view;
use crate::http::status_line_with;
use crate::http::status_text_with;
use crate::text::join;
use crate::text::join3;

verus! {

/// The body of one delivery; sent as a JSON object with these three members.
#[derive(Debug, Clone, PartialEq, Eq)]
pub struct InsertLiveDataRequest {
    pub p_api_key: String,
    /// The value, as the bit pattern of a double.
    pub p_value_bits: u64,
    pub p_unit: String,
}

/// One HTTP POST, ready to be sent.
#[derive(Debug, Clone, PartialEq, Eq)]
pub struct DeliveryRequest {
    pub url: String,
    /// Request headers as name and value.
    pub headers: Vec<(String, String)>,
    pub body: InsertLiveDataRequest,
}

/// How sending a request failed before any answer arrived.
#[derive(Debug, Clone, PartialEq, Eq)]
pub struct SendFailure {
    /// The request ran into its timeout.
    pub timed_out: bool,
    /// The connection could not be established.
    pub connect_failed: bool,
    /// The failure in words.
    pub text: String,
}

/// The settings of the remote endpoint.
#[derive(Debug, Clone)]
pub struct SupabaseClient {
    base_url: String,
    anon_key: String,
    rpc_endpoint: String,
    timeout_secs: u64,
}

/// The outcome of a delivery attempt that was answered with `status` and
/// `body`, where `reason` is the reason phrase of the status.
pub open spec fn classify_with(status: u16, reason: Option<Seq<char>>, body: Seq<char>) -> Result<
    (),
    TransportFailure,
> {
    if 200 <= status < 300 {
        Ok(())
    } else if status == 401 || status == 403 {
        Err(TransportFailure::AuthFailed(body))
    } else if status == 429 {
        Err(TransportFailure::RateLimited(60))
    } else if 500 <= status <= 599 {
        Err(TransportFailure::ServerError { status, message: body })
    } else {
        Err(
            TransportFailure::InvalidResponse(
                "HTTP "@ + status_line_with(status, reason) + ": "@ + body,
            ),
        )
    }
}

/// The outcome of a delivery attempt that was answered with `status` and `body`.
pub open spec fn classify(status: u16, body: Seq<char>) -> Result<(), TransportFailure> {
    classify_with(status, reason_phrase(status), body)
}

/// The outcome of a delivery attempt that got no answer.
pub open spec fn classify_failure(
    timed_out: bool,
    connect_failed: bool,
    text: Seq<char>,
) -> TransportFailure {
    if timed_out {
        TransportFailure::Timeout
    } else if connect_failed {
        TransportFailure::Network("Connection failed: "@ + text)
    } else {
        TransportFailure::Network(text)
    }
}

/// Classifies the answer to one delivery attempt, given the reason phrase
/// of its status: 2xx is success, 401 and 403 are authentication failures,
/// 429 is a rate limit with a hint of 60 seconds, 5xx is a server error, and
/// any other status is an invalid response.
pub fn classify_response_with(status: u16, reason: &Option<String>, body: String) -> (r: Result<
    (),
    TransportError,
>)
    ensures
        match r {
            Ok(_) => classify_with(status, reason_view(*reason), body@) is Ok,
            Err(e) => classify_with(status, reason_view(*reason), body@) == Err::<
                (),
                TransportFailure,
            >(e@),
        },
{
    if 200 <= status && status < 300 {
        Ok(())
    } else if status == 401 || status == 403 {
        Err(TransportError::AuthFailed(body))
    } else if status == 429 {
        Err(TransportError::RateLimited(60))
    } else if 500 <= status && status <= 599 {
        Err(TransportError::ServerError { status, message: body })
    } else {
        let line = status_text_with(status, reason);
        let head = join3("HTTP ", line.as_str(), ": ");
        Err(TransportError::InvalidResponse(join(head.as_str(), body.as_str())))
    }
}

/// Classifies the answer to one delivery attempt.
pub fn classify_response(status: u16, body: String) -> (r: Result<(), TransportError>)
    ensures
        match r {
            Ok(_) => classify(status, body@) is Ok,
            Err(e) => classify(status, body@) == Err::<(), TransportFailure>(e@),
        },
{
    let reason = canonical_reason(status);
    classify_response_with(status, &reason, body)
}

/// Classifies a delivery attempt that got no answer: a timeout, a failed
/// connection, or any other network failure.
pub fn classify_send_failure(failure: SendFailure) -> (e: TransportError)
    ensures
        e@ == classify_failure(failure.timed_out, failure.connect_failed, failure.text@),
{
    if failure.timed_out {
        TransportError::Timeout
    } else if failure.connect_failed {
        TransportError::Network(join("Connection failed: ", failure.text.as_str()))
    } else {
        TransportError::Network(failure.text)
    }
}

impl SupabaseClient {
    /// Takes the endpoint settings over as they are.
    pub fn new(settings: &SupabaseSettings) -> (r: Result<Self, TransportError>)
        ensures
            r matches Ok(client) && client.base_url() == settings.url@ && client.anon_key()
                == settings.anon_key@ && client.rpc_endpoint() == settings.rpc_endpoint@
                && client.timeout() == settings.timeout_secs,
    {
        Ok(
            SupabaseClient {
                base_url: settings.url.clone(),
                anon_key: settings.anon_key.clone(),
                rpc_endpoint: settings.rpc_endpoint.clone(),
                timeout_secs: settings.timeout_secs,
            },
        )
    }

    pub closed spec fn base_url(&self) -> Seq<char> {
        self.base_url@
    }

    pub closed spec fn anon_key(&self) -> Seq<char> {
        self.anon_key@
    }

    pub closed spec fn rpc_endpoint(&self) -> Seq<char> {
        self.rpc_endpoint@
    }

    pub closed spec fn timeout(&self) -> u64 {
        self.timeout_secs
    }

    /// The per-request timeout in seconds.
    pub fn timeout_secs(&self) -> (r: u64)
        ensures
            r == self.timeout(),
    {
        self.timeout_secs
    }

    /// Plans one delivery: a POST to the RPC endpoint below the base URL,
    /// authenticated by the static key, with the credential, the value and
    /// the unit as its body. Fails, before anything is sent, exactly when the
    /// static key cannot stand in a header.
    pub fn insert_live_data(&self, api_key: &str, value_bits: u64, unit: &str) -> (r: Result<
        DeliveryRequest,
        TransportError,
    >)
        ensures
            r is Ok <==> header_value_accepted(self.anon_key()),
            r matches Ok(request) ==> {
                &&& request.url@ == self.base_url() + self.rpc_endpoint()
                &&& request.headers@.len() == 2
                &&& request.headers@[0].0@ == "apikey"@
                &&& request.headers@[0].1@ == self.anon_key()
                &&& request.headers@[1].0@ == "content-type"@
                &&& request.headers@[1].1@ == "application/json"@
                &&& request.body.p_api_key@ == api_key@
                &&& request.body.p_value_bits == value_bits
                &&& request.body.p_unit@ == unit@
            },
            r matches Err(e) ==> e@ == TransportFailure::Network(
                "Invalid API key header: failed to parse header value"@,
            ),
    {
        let url = join(self.base_url.as_str(), self.rpc_endpoint.as_str());
        match header_value_error(self.anon_key.as_str()) {
            Some(text) => {
                proof {
                    reveal_strlit("Invalid API key header: ");
                    reveal_strlit("failed to parse header value");
                    reveal_strlit("Invalid API key header: failed to parse header value");
                }
                let message = join("Invalid API key header: ", text.as_str());
                assert(message@ =~= "Invalid API key header: failed to parse header value"@);
                Err(TransportError::Network(message))
            },
            None => {
                let mut headers: Vec<(String, String)> = Vec::new();
                headers.push((String::from_str("apikey"), self.anon_key.clone()));
                headers.push(
                    (String::from_str("content-type"), String::from_str("application/json")),
                );
                Ok(
                    DeliveryRequest {
                        url,
                        headers,
                        body: InsertLiveDataRequest {
                            p_api_key: String::from_str(api_key),
                            p_value_bits: value_bits,
                            p_unit: String::from_str(unit),
                        },
                    },
                )
            },
        }
    }
}

} // verus!
