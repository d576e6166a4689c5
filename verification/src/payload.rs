//! Request payload framing: the alert and heartbeat DTOs and the exact JSON
//! bytes they serialize to. Both requests carry a single field, the device's
//! stable MAC-address string, as `{"macAddress":"<device-id>"}`.

use vstd::prelude::*;
use vstd::utf8::encode_utf8;
use crate::text::json_escaped;
use crate::text::json_escape_bytes;

verus! {

/// The opening bytes of every request body: `{"macAddress":"`.
pub open spec fn body_prefix() -> Seq<u8> {
    seq![
        ('{' as u8),
        ('"' as u8),
        ('m' as u8),
        ('a' as u8),
        ('c' as u8),
        ('A' as u8),
        ('d' as u8),
        ('d' as u8),
        ('r' as u8),
        ('e' as u8),
        ('s' as u8),
        ('s' as u8),
        ('"' as u8),
        (':' as u8),
        ('"' as u8),
    ]
}

/// The closing bytes of every request body: `"}`.
pub open spec fn body_suffix() -> Seq<u8> {
    seq![('"' as u8), ('}' as u8)]
}

/// The exact JSON body posted for a device id whose UTF-8 bytes are `mac`:
/// the single-field object, with the id JSON-escaped.
pub open spec fn request_body_bytes(mac: Seq<u8>) -> Seq<u8> {
    body_prefix() + json_escaped(mac) + body_suffix()
}

/// Builds the JSON body for the given device id. The result is a pure
/// function of the id: repeated calls yield identical bytes.
pub fn request_body(mac: &str) -> (body: Vec<u8>)
    ensures
        body@ == request_body_bytes(encode_utf8(mac@)),
{
    let mut body: Vec<u8> = Vec::new();
    body.push(('{' as u8));
    body.push(('"' as u8));
    body.push(('m' as u8));
    body.push(('a' as u8));
    body.push(('c' as u8));
    body.push(('A' as u8));
    body.push(('d' as u8));
    body.push(('d' as u8));
    body.push(('r' as u8));
    body.push(('e' as u8));
    body.push(('s' as u8));
    body.push(('s' as u8));
    body.push(('"' as u8));
    body.push((':' as u8));
    body.push(('"' as u8));
    let mut escaped = json_escape_bytes(mac.as_bytes());
    body.append(&mut escaped);
    body.push(('"' as u8));
    body.push(('}' as u8));
    proof {
        assert(body@ =~= request_body_bytes(encode_utf8(mac@)));
    }
    body
}

/// The alert request DTO: sent when motion starts.
pub struct RequestAlert {
    pub mac_address: String,
}

impl RequestAlert {
    pub fn new(mac_address: String) -> (r: RequestAlert)
        ensures
            r.mac_address == mac_address,
    {
        RequestAlert { mac_address }
    }

    /// Serializes the request to its JSON bytes.
    pub fn to_json_bytes(&self) -> (body: Vec<u8>)
        ensures
            body@ == request_body_bytes(encode_utf8(self.mac_address@)),
    {
        request_body(self.mac_address.as_str())
    }
}

/// The heartbeat ("I am alive") request DTO: sent on the liveness cadence.
pub struct RequestIAmAlive {
    pub mac_address: String,
}

impl RequestIAmAlive {
    pub fn new(mac_address: String) -> (r: RequestIAmAlive)
        ensures
            r.mac_address == mac_address,
    {
        RequestIAmAlive { mac_address }
    }

    /// Serializes the request to its JSON bytes.
    pub fn to_json_bytes(&self) -> (body: Vec<u8>)
        ensures
            body@ == request_body_bytes(encode_utf8(self.mac_address@)),
    {
        request_body(self.mac_address.as_str())
    }
}

/// Law: an alert and a heartbeat built for the same device id serialize to
/// structurally identical JSON payload bytes, and the payload is a function
/// of the id alone, so repeated invocations agree byte for byte.
pub proof fn lemma_alert_heartbeat_payloads_identical(a: RequestAlert, h: RequestIAmAlive)
    requires
        a.mac_address@ == h.mac_address@,
    ensures
        request_body_bytes(encode_utf8(a.mac_address@)) == request_body_bytes(
            encode_utf8(h.mac_address@),
        ),
{
}

} // verus!
