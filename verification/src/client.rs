//! The alert/heartbeat transport client: builds the exact HTTP POST request
//! (URL, JSON body, headers) for each notification, and the error taxonomy
//! for a failed exchange. The socket work itself is an external collaborator:
//! the unverified shell performs the exchange this module prescribes.

use vstd::prelude::*;
use vstd::utf8::encode_utf8;
use crate::payload::request_body;
use crate::payload::request_body_bytes;
use crate::text::decimal_digits;
use crate::text::render_decimal;

verus! {

/// The value of the `content-type` header on every request.
pub const CONTENT_TYPE_JSON: &'static str = "application/json";

/// The stage of an HTTP exchange at which a failure occurred.
#[derive(PartialEq, Eq, Structural, Clone, Copy, Debug)]
pub enum TransportStage {
    Connect,
    WriteBody,
    Flush,
    Submit,
    ReadResponse,
}

/// A single failed HTTP exchange: the stage that failed and the underlying
/// cause's description. Always recovered locally by the caller; never fatal.
pub struct TransportError {
    pub stage: TransportStage,
    pub detail: String,
}

impl TransportError {
    pub fn new(stage: TransportStage, detail: String) -> (e: TransportError)
        ensures
            e.stage == stage,
            e.detail == detail,
    {
        TransportError { stage, detail }
    }
}

/// Everything the transport needs to perform one POST: the URL, the JSON
/// body bytes, and the decimal text of the body length for the
/// `content-length` header.
pub struct PostRequest {
    pub url: String,
    pub body: Vec<u8>,
    pub content_length: Vec<u8>,
}

impl PostRequest {
    /// A request is well formed when its `content-length` text is exactly
    /// the decimal rendering of its body length.
    pub open spec fn wf(self) -> bool {
        self.content_length@ == decimal_digits(self.body@.len())
    }
}

/// The notification client, bound to the resolved alert and heartbeat
/// endpoints. It holds no other state: requests are built fresh per send.
pub struct ClientService {
    pub alert_url: String,
    pub i_am_alive_url: String,
}

impl ClientService {
    pub fn new(alert_url: &str, i_am_alive_url: &str) -> (s: ClientService)
        ensures
            s.alert_url@ == alert_url@,
            s.i_am_alive_url@ == i_am_alive_url@,
    {
        ClientService { alert_url: alert_url.to_owned(), i_am_alive_url: i_am_alive_url.to_owned() }
    }

    /// The POST that announces a motion detection: the alert endpoint and
    /// the `{"macAddress":...}` body for this device id.
    pub fn alert_request(&self, mac_address: &str) -> (r: PostRequest)
        ensures
            r.url@ == self.alert_url@,
            r.body@ == request_body_bytes(encode_utf8(mac_address@)),
            r.wf(),
    {
        build_post(&self.alert_url, mac_address)
    }

    /// The POST that reports liveness: the heartbeat endpoint and the same
    /// single-field body.
    pub fn i_am_alive_request(&self, mac_address: &str) -> (r: PostRequest)
        ensures
            r.url@ == self.i_am_alive_url@,
            r.body@ == request_body_bytes(encode_utf8(mac_address@)),
            r.wf(),
    {
        build_post(&self.i_am_alive_url, mac_address)
    }
}

fn build_post(url: &String, mac_address: &str) -> (r: PostRequest)
    ensures
        r.url@ == url@,
        r.body@ == request_body_bytes(encode_utf8(mac_address@)),
        r.wf(),
{
    let body = request_body(mac_address);
    let content_length = render_decimal(body.len() as u64);
    PostRequest { url: url.clone(), body, content_length }
}

} // verus!
