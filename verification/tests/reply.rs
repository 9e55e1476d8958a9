use zenoh_flat::data::{Encoding, KeyExprText, Sample, SampleKind, ZBytes, ZenohId};
use zenoh_flat::qos::{CongestionControl, Priority};
use zenoh_flat::reply::{z_reply_expand, EntityGlobalId, Reply, ReplyError, ZReply};

fn sample() -> Sample {
    Sample {
        key_expr: KeyExprText("demo/a".to_string()),
        payload: ZBytes(vec![1, 2, 3]),
        encoding: Encoding("text/plain".to_string()),
        kind: SampleKind::Put,
        timestamp_ntp64: Some(77),
        attachment: Some(ZBytes(vec![9])),
        congestion_control: CongestionControl::Block,
        priority: Priority::Data,
        express: true,
    }
}

#[test]
fn success_reply_carries_the_sample() {
    let z = ZReply { replier_id: None, result: Ok(sample()) };
    let r = Reply::from(&z);
    let s = r.sample.expect("success carries a sample");
    assert_eq!(s.key_expr.0, "demo/a");
    assert_eq!(s.payload.0, vec![1, 2, 3]);
    assert_eq!(s.encoding.0, "text/plain");
    assert_eq!(s.kind, SampleKind::Put);
    assert_eq!(s.timestamp_ntp64, Some(77));
    assert_eq!(s.attachment.map(|a| a.0), Some(vec![9]));
    assert_eq!(s.congestion_control, CongestionControl::Block);
    assert_eq!(s.priority, Priority::Data);
    assert!(s.express);
    assert!(r.error_payload.is_none());
    assert!(r.error_encoding.is_none());
}

#[test]
fn error_reply_carries_payload_and_encoding() {
    let z = ZReply {
        replier_id: None,
        result: Err(ReplyError {
            payload: ZBytes(b"boom".to_vec()),
            encoding: Encoding("text/plain;utf-8".to_string()),
        }),
    };
    let r = z_reply_expand(&z);
    assert!(r.sample.is_none());
    assert_eq!(r.error_payload.map(|p| p.0), Some(b"boom".to_vec()));
    assert_eq!(r.error_encoding.map(|e| e.0), Some("text/plain;utf-8".to_string()));
}

#[test]
fn unknown_replier_is_zeroed() {
    let z = ZReply { replier_id: None, result: Ok(sample()) };
    let r = z_reply_expand(&z);
    assert!(r.replier_zid.is_none());
    assert_eq!(r.replier_eid, 0);
}

#[test]
fn known_replier_is_copied() {
    let z = ZReply {
        replier_id: Some(EntityGlobalId { zid: ZenohId(vec![0xab, 0xcd]), eid: 12 }),
        result: Ok(sample()),
    };
    let r = z_reply_expand(&z);
    assert_eq!(r.replier_zid.map(|z| z.0), Some(vec![0xab, 0xcd]));
    assert_eq!(r.replier_eid, 12);
}

#[test]
fn replier_entity_id_keeps_its_bits() {
    let z = ZReply {
        replier_id: Some(EntityGlobalId { zid: ZenohId(vec![1]), eid: u32::MAX }),
        result: Err(ReplyError { payload: ZBytes(vec![]), encoding: Encoding(String::new()) }),
    };
    let r = z_reply_expand(&z);
    assert_eq!(r.replier_eid, -1);
}

#[test]
fn expanding_leaves_the_received_reply_intact() {
    let z = ZReply { replier_id: None, result: Ok(sample()) };
    let _ = z_reply_expand(&z);
    assert_eq!(z.result.as_ref().map(|s| s.payload.0.clone()).ok(), Some(vec![1, 2, 3]));
}
