use vstd::prelude::*;
use vstd::std_specs::convert::FromSpecImpl;
use crate::convert::{as_signed32, signed32_of};
use crate::data::{Encoding, Sample, SampleView, ZBytes, ZenohId};

verus! {

/// The global identity of the entity that answered a query: the node's id and
/// the entity id inside that node.
#[derive(Debug)]
pub struct EntityGlobalId {
    pub zid: ZenohId,
    pub eid: u32,
}

/// The error variant of a reply: an error payload and its encoding.
#[derive(Debug)]
pub struct ReplyError {
    pub payload: ZBytes,
    pub encoding: Encoding,
}

/// A reply as received from Zenoh, held as plain values: who answered (when
/// known) and either the sample or the error that was sent back.
#[derive(Debug)]
pub struct ZReply {
    pub replier_id: Option<EntityGlobalId>,
    pub result: Result<Sample, ReplyError>,
}

/// The plain-value view of a [`ZReply`].
pub struct ZReplyView {
    pub replier_id: Option<(Seq<u8>, u32)>,
    pub result: Result<SampleView, (Seq<u8>, Seq<char>)>,
}

impl View for ZReply {
    type V = ZReplyView;

    open spec fn view(&self) -> ZReplyView {
        ZReplyView {
            replier_id: match self.replier_id {
                Some(id) => Some((id.zid@, id.eid)),
                None => None,
            },
            result: match self.result {
                Ok(s) => Ok(s@),
                Err(e) => Err((e.payload@, e.encoding@)),
            },
        }
    }
}

/// Data-class twin of a reply. A success carries `sample`; an error carries
/// `error_payload` and `error_encoding`. `replier_*` identify the node that
/// answered (`None` and 0 when unknown).
#[derive(Debug)]
pub struct Reply {
    pub replier_zid: Option<ZenohId>,
    pub replier_eid: i32,
    pub sample: Option<Sample>,
    pub error_payload: Option<ZBytes>,
    pub error_encoding: Option<Encoding>,
}

/// The plain-value view of a [`Reply`].
pub struct ReplyView {
    pub replier_zid: Option<Seq<u8>>,
    pub replier_eid: int,
    pub sample: Option<SampleView>,
    pub error_payload: Option<Seq<u8>>,
    pub error_encoding: Option<Seq<char>>,
}

impl View for Reply {
    type V = ReplyView;

    open spec fn view(&self) -> ReplyView {
        ReplyView {
            replier_zid: match self.replier_zid {
                Some(z) => Some(z@),
                None => None,
            },
            replier_eid: self.replier_eid as int,
            sample: match self.sample {
                Some(s) => Some(s@),
                None => None,
            },
            error_payload: match self.error_payload {
                Some(p) => Some(p@),
                None => None,
            },
            error_encoding: match self.error_encoding {
                Some(e) => Some(e@),
                None => None,
            },
        }
    }
}

/// The data class a received reply decodes to.
pub open spec fn expand_reply(r: ZReplyView) -> ReplyView {
    let (zid, eid) = match r.replier_id {
        Some((z, e)) => (Some(z), signed32_of(e)),
        None => (None, 0),
    };
    match r.result {
        Ok(s) => ReplyView {
            replier_zid: zid,
            replier_eid: eid,
            sample: Some(s),
            error_payload: None,
            error_encoding: None,
        },
        Err((p, e)) => ReplyView {
            replier_zid: zid,
            replier_eid: eid,
            sample: None,
            error_payload: Some(p),
            error_encoding: Some(e),
        },
    }
}

impl From<&ZReply> for Reply {
    fn from(r: &ZReply) -> (out: Reply)
        ensures
            out@ == expand_reply(r@),
    {
        let (replier_zid, replier_eid) = match &r.replier_id {
            Some(id) => (Some(id.zid.clone()), as_signed32(id.eid)),
            None => (None, 0i32),
        };
        match &r.result {
            Ok(sample) => Reply {
                replier_zid,
                replier_eid,
                sample: Some(sample.clone()),
                error_payload: None,
                error_encoding: None,
            },
            Err(err) => Reply {
                replier_zid,
                replier_eid,
                sample: None,
                error_payload: Some(err.payload.clone()),
                error_encoding: Some(err.encoding.clone()),
            },
        }
    }
}

// Decoding copies the payloads, so a decoded reply is pinned down by its view
// (the `ensures` of `from` above), not as a value equal to a spec function's.
impl FromSpecImpl<&ZReply> for Reply {
    open spec fn obeys_from_spec() -> bool {
        false
    }

    open spec fn from_spec(v: &ZReply) -> Reply {
        arbitrary()
    }
}

/// A decoded reply carries the received sample exactly when the query was
/// answered with success, and the received error payload and encoding exactly
/// when it was answered with an error; never both.
pub proof fn lemma_reply_success_or_error(r: ZReplyView)
    ensures
        expand_reply(r).sample is Some <==> r.result is Ok,
        expand_reply(r).error_payload is Some <==> r.result is Err,
        expand_reply(r).error_encoding is Some <==> r.result is Err,
        !(expand_reply(r).sample is Some && expand_reply(r).error_payload is Some),
        r.result matches Ok(s) ==> expand_reply(r).sample == Some(s),
        r.result matches Err((p, e)) ==> expand_reply(r).error_payload == Some(p)
            && expand_reply(r).error_encoding == Some(e),
{
}

/// The replier identity of a decoded reply is `None` and 0 when the replier
/// is unknown; otherwise it is the replier's node id and the bits of its
/// entity id, read as a signed `int`.
pub proof fn lemma_reply_replier(r: ZReplyView)
    ensures
        r.replier_id is None ==> expand_reply(r).replier_zid is None
            && expand_reply(r).replier_eid == 0,
        r.replier_id matches Some((z, e)) ==> expand_reply(r).replier_zid == Some(z)
            && (expand_reply(r).replier_eid + 0x1_0000_0000) % 0x1_0000_0000 == e
            && i32::MIN <= expand_reply(r).replier_eid <= i32::MAX,
{
}

/// Decodes a received reply into the [`Reply`] data class in one step.
pub fn z_reply_expand(r: &ZReply) -> (out: Reply)
    ensures
        out@ == expand_reply(r@),
{
    Reply::from(r)
}

} // verus!
