use launcher_core::codec::{decode_credentials, encode_credentials};
use launcher_core::credentials::{AccountCredentials, TokenWithExpiry, XstsToken};

fn round_trip(c: &AccountCredentials) {
    let bytes = encode_credentials(c);
    let back = decode_credentials(&bytes).expect("an encoding must decode");
    assert_eq!(&back, c);
}

fn empty_chain() -> AccountCredentials {
    AccountCredentials {
        msa_refresh: None,
        msa_access: None,
        xbl: None,
        xsts: None,
        access_token: None,
    }
}

fn full_chain() -> AccountCredentials {
    AccountCredentials {
        msa_refresh: Some("refresh-token".to_string()),
        msa_access: Some(TokenWithExpiry {
            token: "msa-access".to_string(),
            expiry: 1_700_000_000_123,
        }),
        xbl: Some(TokenWithExpiry {
            token: "xbl-token".to_string(),
            expiry: 1_700_000_000_456,
        }),
        xsts: Some(XstsToken {
            token: "xsts-token".to_string(),
            expiry: 1_700_000_000_789,
            userhash: "123456789".to_string(),
        }),
        access_token: Some(TokenWithExpiry {
            token: "service-access".to_string(),
            expiry: 1_700_000_001_000,
        }),
    }
}

#[test]
fn round_trip_empty_record() {
    round_trip(&empty_chain());
}

#[test]
fn round_trip_full_record() {
    round_trip(&full_chain());
}

#[test]
fn round_trip_every_single_slot_combination() {
    let full = full_chain();
    for mask in 0u32..32 {
        let c = AccountCredentials {
            msa_refresh: if mask & 1 != 0 {
                full.msa_refresh.clone()
            } else {
                None
            },
            msa_access: if mask & 2 != 0 {
                full.msa_access.clone()
            } else {
                None
            },
            xbl: if mask & 4 != 0 { full.xbl.clone() } else { None },
            xsts: if mask & 8 != 0 { full.xsts.clone() } else { None },
            access_token: if mask & 16 != 0 {
                full.access_token.clone()
            } else {
                None
            },
        };
        round_trip(&c);
    }
}

#[test]
fn round_trip_keeps_unicode_and_empty_strings() {
    let c = AccountCredentials {
        msa_refresh: Some(String::new()),
        msa_access: Some(TokenWithExpiry {
            token: "zäh 🟢 жетон".to_string(),
            expiry: 0,
        }),
        xbl: None,
        xsts: Some(XstsToken {
            token: "トークン".to_string(),
            expiry: 1,
            userhash: String::new(),
        }),
        access_token: None,
    };
    round_trip(&c);
}

#[test]
fn round_trip_keeps_negative_and_extreme_expiries() {
    let c = AccountCredentials {
        msa_refresh: None,
        msa_access: Some(TokenWithExpiry {
            token: "a".to_string(),
            expiry: -1,
        }),
        xbl: Some(TokenWithExpiry {
            token: "b".to_string(),
            expiry: i64::MIN,
        }),
        xsts: Some(XstsToken {
            token: "c".to_string(),
            expiry: i64::MAX,
            userhash: "h".to_string(),
        }),
        access_token: Some(TokenWithExpiry {
            token: "d".to_string(),
            expiry: 0,
        }),
    };
    round_trip(&c);
}

#[test]
fn the_empty_record_encodes_as_five_absent_slots() {
    let bytes = encode_credentials(&empty_chain());
    assert_eq!(bytes, vec![0u8, 0, 0, 0, 0]);
}

#[test]
fn decode_rejects_empty_input() {
    assert_eq!(decode_credentials(&[]), None);
}

#[test]
fn decode_rejects_an_unknown_presence_tag() {
    assert_eq!(decode_credentials(&[2, 0, 0, 0, 0]), None);
}

#[test]
fn decode_rejects_truncated_input() {
    let bytes = encode_credentials(&full_chain());
    for cut in [1, bytes.len() / 2, bytes.len() - 1] {
        assert_eq!(decode_credentials(&bytes[..cut]), None);
    }
}

#[test]
fn decode_rejects_trailing_garbage() {
    let mut bytes = encode_credentials(&full_chain());
    bytes.push(0);
    assert_eq!(decode_credentials(&bytes), None);
}

#[test]
fn decode_rejects_invalid_utf8_in_a_token() {
    // A present refresh token of length 1 whose byte is not valid UTF-8.
    let bytes = vec![1u8, 1, 0, 0, 0, 0, 0, 0, 0, 0xFF, 0, 0, 0, 0];
    assert_eq!(decode_credentials(&bytes), None);
}

#[test]
fn decode_rejects_a_string_length_past_the_input() {
    let bytes = vec![1u8, 9, 0, 0, 0, 0, 0, 0, 0, b'x'];
    assert_eq!(decode_credentials(&bytes), None);
}
