use vstd::prelude::*;
use crate::qos::{CongestionControl, Priority};

verus! {

/// A payload: the raw bytes carried by a sample, a reply or an attachment.
#[derive(Debug)]
pub struct ZBytes(pub Vec<u8>);

impl View for ZBytes {
    type V = Seq<u8>;

    open spec fn view(&self) -> Seq<u8> {
        self.0@
    }
}

impl Clone for ZBytes {
    fn clone(&self) -> (r: Self)
        ensures
            r@ == self@,
    {
        let v = self.0.clone();
        assert(v@ =~= self.0@);
        ZBytes(v)
    }
}

/// An encoding, in its textual form (for example `text/plain;utf-8`).
#[derive(Debug)]
pub struct Encoding(pub String);

impl View for Encoding {
    type V = Seq<char>;

    open spec fn view(&self) -> Seq<char> {
        self.0@
    }
}

impl Clone for Encoding {
    fn clone(&self) -> (r: Self)
        ensures
            r@ == self@,
    {
        Encoding(self.0.clone())
    }
}

/// The identifier of a Zenoh node, as its little-endian bytes.
#[derive(Debug)]
pub struct ZenohId(pub Vec<u8>);

impl View for ZenohId {
    type V = Seq<u8>;

    open spec fn view(&self) -> Seq<u8> {
        self.0@
    }
}

impl Clone for ZenohId {
    fn clone(&self) -> (r: Self)
        ensures
            r@ == self@,
    {
        let v = self.0.clone();
        assert(v@ =~= self.0@);
        ZenohId(v)
    }
}

/// A key expression, in its textual form (for example `demo/**`).
#[derive(Debug)]
pub struct KeyExprText(pub String);

impl View for KeyExprText {
    type V = Seq<char>;

    open spec fn view(&self) -> Seq<char> {
        self.0@
    }
}

impl Clone for KeyExprText {
    fn clone(&self) -> (r: Self)
        ensures
            r@ == self@,
    {
        KeyExprText(self.0.clone())
    }
}

/// Whether a sample publishes a value or deletes one.
#[derive(Debug, Clone, Copy, PartialEq, Eq, Structural)]
pub enum SampleKind {
    Put,
    Delete,
}

/// The view of an optional payload.
pub open spec fn bytes_opt_view(o: Option<ZBytes>) -> Option<Seq<u8>> {
    match o {
        Some(b) => Some(b@),
        None => None,
    }
}

/// Copies an optional payload.
pub fn clone_bytes_opt(o: &Option<ZBytes>) -> (r: Option<ZBytes>)
    ensures
        bytes_opt_view(r) == bytes_opt_view(*o),
{
    match o {
        Some(b) => Some(b.clone()),
        None => None,
    }
}

/// The plain-value view of a [`Sample`].
pub struct SampleView {
    pub key_expr: Seq<char>,
    pub payload: Seq<u8>,
    pub encoding: Seq<char>,
    pub kind: SampleKind,
    pub timestamp_ntp64: Option<i64>,
    pub attachment: Option<Seq<u8>>,
    pub congestion_control: CongestionControl,
    pub priority: Priority,
    pub express: bool,
}

/// Data-class twin of a received sample: every field is a plain value.
#[derive(Debug)]
pub struct Sample {
    pub key_expr: KeyExprText,
    pub payload: ZBytes,
    pub encoding: Encoding,
    pub kind: SampleKind,
    pub timestamp_ntp64: Option<i64>,
    pub attachment: Option<ZBytes>,
    pub congestion_control: CongestionControl,
    pub priority: Priority,
    pub express: bool,
}

impl View for Sample {
    type V = SampleView;

    open spec fn view(&self) -> SampleView {
        SampleView {
            key_expr: self.key_expr@,
            payload: self.payload@,
            encoding: self.encoding@,
            kind: self.kind,
            timestamp_ntp64: self.timestamp_ntp64,
            attachment: bytes_opt_view(self.attachment),
            congestion_control: self.congestion_control,
            priority: self.priority,
            express: self.express,
        }
    }
}

impl Clone for Sample {
    fn clone(&self) -> (r: Self)
        ensures
            r@ == self@,
    {
        Sample {
            key_expr: self.key_expr.clone(),
            payload: self.payload.clone(),
            encoding: self.encoding.clone(),
            kind: self.kind,
            timestamp_ntp64: self.timestamp_ntp64,
            attachment: clone_bytes_opt(&self.attachment),
            congestion_control: self.congestion_control,
            priority: self.priority,
            express: self.express,
        }
    }
}

/// Data-class twin of a scouting hello: the node's id, its kind (1 for a
/// router, 2 for a peer, 4 for a client) and the locators it listens on.
#[derive(Debug)]
pub struct Hello {
    pub zid: ZenohId,
    pub whatami: i32,
    pub locators: Vec<String>,
}

} // verus!
