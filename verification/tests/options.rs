use zenoh_flat::data::{Encoding, ZBytes};
use zenoh_flat::query::{
    payload_with_encoding, querier_get_options, reply_timestamp_ntp64, session_get_options,
};

#[test]
fn get_without_parameters_uses_empty_parameters() {
    let o = session_get_options(None, 1000, None, &Encoding("text/plain".into()), None);
    assert_eq!(o.parameters, "");
    assert_eq!(o.timeout_ms, 1000);
    assert!(o.payload.is_none());
    assert!(o.attachment.is_none());
}

#[test]
fn get_keeps_given_parameters() {
    let o = session_get_options(Some("a=1;b=2".into()), 10, None, &Encoding("x".into()), None);
    assert_eq!(o.parameters, "a=1;b=2");
}

#[test]
fn get_negative_timeout_wraps() {
    let o = session_get_options(None, -1, None, &Encoding("x".into()), None);
    assert_eq!(o.timeout_ms, u64::MAX);
}

#[test]
fn get_encoding_only_travels_with_payload() {
    let enc = Encoding("application/json".into());
    let o = session_get_options(None, 5, Some(ZBytes(vec![7])), &enc, Some(ZBytes(vec![8])));
    let (p, e) = o.payload.expect("payload given");
    assert_eq!(p.0, vec![7]);
    assert_eq!(e.0, "application/json");
    assert_eq!(o.attachment.map(|a| a.0), Some(vec![8]));
    assert!(payload_with_encoding(None, &enc).is_none());
}

#[test]
fn querier_parameters_only_when_given() {
    let enc = Encoding("text/plain".into());
    let o = querier_get_options(None, None, &enc, None);
    assert!(o.parameters.is_none());
    assert!(o.payload.is_none());
    let o = querier_get_options(Some("k=v".into()), Some(ZBytes(vec![1])), &enc, None);
    assert_eq!(o.parameters.as_deref(), Some("k=v"));
    let (p, e) = o.payload.expect("payload given");
    assert_eq!(p.0, vec![1]);
    assert_eq!(e.0, "text/plain");
}

#[test]
fn reply_timestamp_is_read_as_unsigned() {
    assert_eq!(reply_timestamp_ntp64(None), None);
    assert_eq!(reply_timestamp_ntp64(Some(123)), Some(123));
    assert_eq!(reply_timestamp_ntp64(Some(-2)), Some(u64::MAX - 1));
}
