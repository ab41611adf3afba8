use session_auth::encoding::{Base64Error, IdDecodeError};
use session_auth::session::{Error, Id, Record};
use session_auth::session_store;
use std::str::FromStr;

#[test]
fn id_zero_text() {
    assert_eq!(Id(0).to_string(), "AAAAAAAAAAAAAAAAAAAAAA");
}

#[test]
fn id_one_text() {
    assert_eq!(Id(1).to_string(), "AQAAAAAAAAAAAAAAAAAAAA");
}

#[test]
fn id_minus_one_text() {
    assert_eq!(Id(-1).to_string(), "_____________________w");
}

#[test]
fn id_text_has_22_url_safe_chars() {
    for x in [0i128, 1, -1, i128::MAX, i128::MIN, 0x0123_4567_89ab_cdef_fedc_ba98_7654_3210] {
        let s = Id(x).to_string();
        assert_eq!(s.len(), 22);
        assert!(s.chars().all(|c| c.is_ascii_alphanumeric() || c == '-' || c == '_'));
    }
}

#[test]
fn id_text_reads_back() {
    for x in [0i128, 1, -1, i128::MAX, i128::MIN, 42, -123_456_789_012_345_678_901_234] {
        let id = Id(x);
        assert_eq!(Id::from_str(&id.to_string()), Ok(id));
        assert_eq!(id.to_string().parse::<Id>(), Ok(id));
    }
}

#[test]
fn random_ids_read_back() {
    for _ in 0..32 {
        let id = Id::default();
        assert_eq!(Id::from_str(&id.to_string()), Ok(id));
    }
}

#[test]
fn read_text_is_canonical() {
    let s = "AQIDBAUGBwgJCgsMDQ4PEA";
    let id = Id::from_str(s).unwrap();
    assert_eq!(id.to_string(), s);
    assert_eq!(id, Id(i128::from_le_bytes([1, 2, 3, 4, 5, 6, 7, 8, 9, 10, 11, 12, 13, 14, 15, 16])));
}

#[test]
fn short_text_is_invalid_length() {
    assert_eq!(
        Id::from_str("AAAA"),
        Err(IdDecodeError::DecodeError(Base64Error::InvalidLength(3)))
    );
    assert_eq!(
        Id::from_str(""),
        Err(IdDecodeError::DecodeError(Base64Error::InvalidLength(0)))
    );
    assert_eq!(
        Id::from_str("AAAAAAAAAAAAAAAAAAAA"),
        Err(IdDecodeError::DecodeError(Base64Error::InvalidLength(15)))
    );
}

#[test]
fn long_text_does_not_fit() {
    assert_eq!(
        Id::from_str("AAAAAAAAAAAAAAAAAAAAAAAA"),
        Err(IdDecodeError::OutputSliceTooSmall)
    );
}

#[test]
fn bad_symbol_is_rejected() {
    assert_eq!(
        Id::from_str("AAAAAAAAAA!AAAAAAAAAAA"),
        Err(IdDecodeError::DecodeError(Base64Error::InvalidByte(10, b'!')))
    );
    assert!(Id::from_str("AAAAAAAAAAAAAAAAAAAA+A").is_err());
}

#[test]
fn trailing_bits_are_rejected() {
    assert_eq!(
        Id::from_str("AAAAAAAAAAAAAAAAAAAAAB"),
        Err(IdDecodeError::DecodeError(Base64Error::InvalidLastSymbol(21, b'B')))
    );
}

#[test]
fn padding_is_rejected() {
    assert_eq!(
        Id::from_str("AAAAAAAAAAAAAAAAAAAAAA=="),
        Err(IdDecodeError::DecodeError(Base64Error::InvalidPadding))
    );
}

#[test]
fn new_record_is_empty() {
    let expiry = time::OffsetDateTime::UNIX_EPOCH;
    let r = Record::new(expiry);
    assert!(r.data.is_empty());
    assert_eq!(r.expiry_date, expiry);
    assert_eq!(Id::from_str(&r.id.to_string()), Ok(r.id));
}

#[test]
fn session_error_from_store_error() {
    let e: Error = session_store::Error::Backend("down".to_string()).into();
    match e {
        Error::Store(session_store::Error::Backend(m)) => assert_eq!(m, "down"),
        _ => panic!("wrong variant"),
    }
}

#[test]
fn session_error_from_json_error() {
    let json_err = serde_json::from_str::<serde_json::Value>("{").unwrap_err();
    let e: Error = json_err.into();
    assert!(matches!(e, Error::SerdeJson(_)));
}

#[test]
fn store_error_messages() {
    assert_eq!(
        session_store::Error::Encode("bad".to_string()).to_string(),
        "Encoding failed with: bad"
    );
    assert_eq!(
        session_store::Error::Decode("worse".to_string()).to_string(),
        "Decoding failed with: worse"
    );
    assert_eq!(session_store::Error::Backend("plain".to_string()).to_string(), "plain");
}

#[test]
fn cloned_record_keeps_expiry() {
    let expiry = time::OffsetDateTime::UNIX_EPOCH + time::Duration::seconds(90);
    let r = Record::new(expiry);
    let c = r.clone();
    assert_eq!(c.expiry_date, expiry);
    assert_eq!(c.id, r.id);
}

#[test]
fn id_from_decoded_buffer() {
    let bytes = [7u8, 0, 0, 0, 0, 0, 0, 0, 0, 0, 0, 0, 0, 0, 0, 0x80];
    assert_eq!(Id::from_decoded(Ok(16), bytes), Ok(Id(i128::from_le_bytes(bytes))));
    assert_eq!(
        Id::from_decoded(Ok(12), bytes),
        Err(IdDecodeError::DecodeError(Base64Error::InvalidLength(12)))
    );
    assert_eq!(
        Id::from_decoded(Err(IdDecodeError::OutputSliceTooSmall), bytes),
        Err(IdDecodeError::OutputSliceTooSmall)
    );
}
