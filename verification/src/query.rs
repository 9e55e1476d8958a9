use vstd::prelude::*;
use crate::convert::{as_unsigned, unsigned_of};
use crate::data::{Encoding, ZBytes};

verus! {

/// Which queryables a query is delivered to.
#[derive(Debug, Clone, Copy, PartialEq, Eq, Structural)]
pub enum QueryTarget {
    BestMatching,
    All,
    AllComplete,
}

/// How replies to a query are consolidated.
#[derive(Debug, Clone, Copy, PartialEq, Eq, Structural)]
pub enum ConsolidationMode {
    Auto,
    /// No consolidation: several samples may arrive for the same key and
    /// timestamp (Zenoh's `None` mode).
    NoConsolidation,
    Monotonic,
    Latest,
}

/// Which reply key expressions a query accepts.
#[derive(Debug, Clone, Copy, PartialEq, Eq, Structural)]
pub enum ReplyKeyExpr {
    Any,
    MatchingQuery,
}

/// Pairs a request payload with its encoding. The encoding is only sent when
/// there is a payload to describe.
pub fn payload_with_encoding(payload: Option<ZBytes>, encoding: &Encoding) -> (r: Option<(ZBytes, Encoding)>)
    ensures
        r is Some <==> payload is Some,
        r matches Some((b, e)) ==> b == payload->0 && e@ == encoding@,
{
    match payload {
        Some(p) => Some((p, encoding.clone())),
        None => None,
    }
}

/// The values a session `get` derives from its arguments.
#[derive(Debug)]
pub struct GetOptions {
    /// The selector's parameters; empty when the caller gave none.
    pub parameters: String,
    /// The timeout in milliseconds handed to Zenoh.
    pub timeout_ms: u64,
    /// The payload and its encoding, when the query carries a payload.
    pub payload: Option<(ZBytes, Encoding)>,
    /// The attachment, when the caller gave one.
    pub attachment: Option<ZBytes>,
}

/// The parameters of a selector built from optional parameters.
pub open spec fn selector_parameters(parameters: Option<String>) -> Seq<char> {
    match parameters {
        Some(p) => p@,
        None => Seq::empty(),
    }
}

/// Derives the options of a session `get`: missing parameters become the
/// empty string, the signed timeout is read as unsigned milliseconds, and the
/// encoding only travels with a payload.
pub fn session_get_options(
    parameters: Option<String>,
    timeout_ms: i64,
    payload: Option<ZBytes>,
    encoding: &Encoding,
    attachment: Option<ZBytes>,
) -> (o: GetOptions)
    ensures
        o.parameters@ == selector_parameters(parameters),
        parameters matches Some(p) ==> o.parameters@ == p@,
        parameters is None ==> o.parameters@ == Seq::<char>::empty(),
        o.timeout_ms == unsigned_of(timeout_ms),
        timeout_ms >= 0 ==> o.timeout_ms == timeout_ms,
        timeout_ms < 0 ==> o.timeout_ms == timeout_ms + 0x1_0000_0000_0000_0000,
        o.payload is Some <==> payload is Some,
        o.payload matches Some((b, e)) ==> b == payload->0 && e@ == encoding@,
        o.attachment == attachment,
{
    let parameters = match parameters {
        Some(p) => p,
        None => String::new(),
    };
    GetOptions {
        parameters,
        timeout_ms: as_unsigned(timeout_ms),
        payload: payload_with_encoding(payload, encoding),
        attachment,
    }
}

/// Given selector parameters are kept whole, and only missing ones become
/// the empty string.
pub proof fn lemma_selector_parameters_kept(p: String)
    ensures
        selector_parameters(Some(p)) == p@,
        selector_parameters(None) == Seq::<char>::empty(),
{
}

/// The values a querier `get` derives from its arguments.
#[derive(Debug)]
pub struct QuerierGetOptions {
    /// The selector's parameters, only set when the caller gave some.
    pub parameters: Option<String>,
    /// The payload and its encoding, when the query carries a payload.
    pub payload: Option<(ZBytes, Encoding)>,
    /// The attachment, when the caller gave one.
    pub attachment: Option<ZBytes>,
}

/// Derives the options of a querier `get`: parameters and attachment are set
/// only when given, and the encoding only travels with a payload.
pub fn querier_get_options(
    parameters: Option<String>,
    payload: Option<ZBytes>,
    encoding: &Encoding,
    attachment: Option<ZBytes>,
) -> (o: QuerierGetOptions)
    ensures
        o.parameters == parameters,
        o.payload is Some <==> payload is Some,
        o.payload matches Some((b, e)) ==> b == payload->0 && e@ == encoding@,
        o.attachment == attachment,
{
    QuerierGetOptions { parameters, payload: payload_with_encoding(payload, encoding), attachment }
}

/// The timestamp a reply carries, from the binding's signed NTP64 value.
pub open spec fn reply_timestamp(timestamp_ntp64: Option<i64>) -> Option<u64> {
    match timestamp_ntp64 {
        Some(t) => Some(unsigned_of(t) as u64),
        None => None,
    }
}

/// The NTP64 time of a reply's timestamp: the binding's signed value read as
/// unsigned, or no timestamp when none was given.
pub fn reply_timestamp_ntp64(timestamp_ntp64: Option<i64>) -> (r: Option<u64>)
    ensures
        r == reply_timestamp(timestamp_ntp64),
        r is Some <==> timestamp_ntp64 is Some,
        timestamp_ntp64 matches Some(t) ==> (t >= 0 ==> r->0 == t)
            && (t < 0 ==> r->0 == t + 0x1_0000_0000_0000_0000),
{
    match timestamp_ntp64 {
        Some(t) => Some(as_unsigned(t)),
        None => None,
    }
}

} // verus!

verus! {

/// A reply timestamp is sent exactly when one is given, and it keeps the
/// given value's bits: non-negative values are unchanged, negative ones wrap
/// to `t + 2^64`. In particular every given timestamp, however large, is kept.
pub proof fn lemma_reply_timestamp_kept(t: i64)
    ensures
        reply_timestamp(Some(t)) is Some,
        reply_timestamp(None) is None,
        t >= 0 ==> reply_timestamp(Some(t)) == Some(t as u64),
        t < 0 ==> reply_timestamp(Some(t))->0 == t + 0x1_0000_0000_0000_0000,
{
}

} // verus!
