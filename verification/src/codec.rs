//! A lossless, self-delimiting byte encoding of the persisted credential
//! record, together with its decoder and a proof that decoding an encoding
//! returns the original record.
//!
//! Layout: the five slots in pipeline order, each introduced by a presence
//! byte (0 absent, 1 present). A string is its byte length as a little-endian
//! u64 followed by its UTF-8 bytes; a timestamp is a sign byte (0 for
//! non-negative, 1 for negative) followed by its magnitude as a little-endian
//! u64.

use vstd::prelude::*;
use vstd::bytes::{lemma_auto_spec_u64_to_from_le_bytes, spec_u64_from_le_bytes,
    spec_u64_to_le_bytes, u64_from_le_bytes, u64_to_le_bytes};
use vstd::slice::{slice_subrange, slice_to_vec};
use vstd::string::StringSliceAdditionalSpecFns;
use vstd::utf8::{decode_utf8, encode_utf8, valid_utf8};
use crate::credentials::{AccountCredentials, TokenWithExpiry, XstsToken};

verus! {

broadcast use vstd::utf8::encode_utf8_valid_utf8, vstd::utf8::encode_utf8_decode_utf8, vstd::slice::axiom_slice_get_usize;

/// Mathematical model of a token with expiry: the token's characters and the
/// expiry instant.
pub ghost struct TokenView {
    pub token: Seq<char>,
    pub expiry: int,
}

/// Mathematical model of a secure identity-exchange token.
pub ghost struct XstsView {
    pub token: Seq<char>,
    pub expiry: int,
    pub userhash: Seq<char>,
}

/// Mathematical model of the whole credential record.
pub ghost struct CredsView {
    pub msa_refresh: Option<Seq<char>>,
    pub msa_access: Option<TokenView>,
    pub xbl: Option<TokenView>,
    pub xsts: Option<XstsView>,
    pub access_token: Option<TokenView>,
}

impl View for TokenWithExpiry {
    type V = TokenView;

    open spec fn view(&self) -> TokenView {
        TokenView { token: self.token@, expiry: self.expiry as int }
    }
}

impl View for XstsToken {
    type V = XstsView;

    open spec fn view(&self) -> XstsView {
        XstsView { token: self.token@, expiry: self.expiry as int, userhash: self.userhash@ }
    }
}

pub open spec fn opt_str_view(o: Option<String>) -> Option<Seq<char>> {
    match o {
        Some(s) => Some(s@),
        None => None,
    }
}

pub open spec fn opt_token_view(o: Option<TokenWithExpiry>) -> Option<TokenView> {
    match o {
        Some(t) => Some(t@),
        None => None,
    }
}

pub open spec fn opt_xsts_view(o: Option<XstsToken>) -> Option<XstsView> {
    match o {
        Some(t) => Some(t@),
        None => None,
    }
}

impl View for AccountCredentials {
    type V = CredsView;

    open spec fn view(&self) -> CredsView {
        CredsView {
            msa_refresh: opt_str_view(self.msa_refresh),
            msa_access: opt_token_view(self.msa_access),
            xbl: opt_token_view(self.xbl),
            xsts: opt_xsts_view(self.xsts),
            access_token: opt_token_view(self.access_token),
        }
    }
}

/// The encoding of a string: byte length, then UTF-8 bytes.
pub open spec fn spec_enc_str(s: Seq<char>) -> Seq<u8> {
    spec_u64_to_le_bytes(encode_utf8(s).len() as u64) + encode_utf8(s)
}

/// The encoding of a timestamp: sign byte, then magnitude.
pub open spec fn spec_enc_i64(x: int) -> Seq<u8> {
    if x >= 0 {
        seq![0u8] + spec_u64_to_le_bytes(x as u64)
    } else {
        seq![1u8] + spec_u64_to_le_bytes((-x) as u64)
    }
}

pub open spec fn spec_enc_opt_str(o: Option<Seq<char>>) -> Seq<u8> {
    match o {
        None => seq![0u8],
        Some(s) => seq![1u8] + spec_enc_str(s),
    }
}

pub open spec fn spec_enc_opt_token(o: Option<TokenView>) -> Seq<u8> {
    match o {
        None => seq![0u8],
        Some(t) => seq![1u8] + spec_enc_str(t.token) + spec_enc_i64(t.expiry),
    }
}

pub open spec fn spec_enc_opt_xsts(o: Option<XstsView>) -> Seq<u8> {
    match o {
        None => seq![0u8],
        Some(t) => seq![1u8] + spec_enc_str(t.token) + spec_enc_i64(t.expiry) + spec_enc_str(
            t.userhash,
        ),
    }
}

/// The encoding of the whole record: the five slots in pipeline order.
pub open spec fn spec_encode(v: CredsView) -> Seq<u8> {
    spec_enc_opt_str(v.msa_refresh) + spec_enc_opt_token(v.msa_access) + spec_enc_opt_token(v.xbl)
        + spec_enc_opt_xsts(v.xsts) + spec_enc_opt_token(v.access_token)
}

fn enc_u64(out: &mut Vec<u8>, x: u64)
    ensures
        final(out)@ == old(out)@ + spec_u64_to_le_bytes(x),
{
    let mut b = u64_to_le_bytes(x);
    out.append(&mut b);
}

fn enc_i64(out: &mut Vec<u8>, x: i64)
    ensures
        final(out)@ == old(out)@ + spec_enc_i64(x as int),
{
    if x >= 0 {
        out.push(0u8);
        enc_u64(out, x as u64);
        proof {
            assert(final(out)@ =~= old(out)@ + spec_enc_i64(x as int));
        }
    } else {
        let m: i128 = -(x as i128);
        out.push(1u8);
        enc_u64(out, m as u64);
        proof {
            assert(final(out)@ =~= old(out)@ + spec_enc_i64(x as int));
        }
    }
}

fn enc_str(out: &mut Vec<u8>, s: &str)
    ensures
        final(out)@ == old(out)@ + spec_enc_str(s@),
        str_encodable(s@),
{
    let b = s.as_bytes();
    enc_u64(out, b.len() as u64);
    let mut bv = slice_to_vec(b);
    out.append(&mut bv);
    proof {
        assert(final(out)@ =~= old(out)@ + spec_enc_str(s@));
    }
}

fn enc_opt_str(out: &mut Vec<u8>, o: &Option<String>)
    ensures
        final(out)@ == old(out)@ + spec_enc_opt_str(opt_str_view(*o)),
        opt_str_view(*o) matches Some(s) ==> str_encodable(s),
{
    match o {
        None => {
            out.push(0u8);
            proof {
                assert(final(out)@ =~= old(out)@ + spec_enc_opt_str(opt_str_view(*o)));
            }
        },
        Some(s) => {
            out.push(1u8);
            enc_str(out, s.as_str());
            proof {
                assert(final(out)@ =~= old(out)@ + spec_enc_opt_str(opt_str_view(*o)));
            }
        },
    }
}

fn enc_opt_token(out: &mut Vec<u8>, o: &Option<TokenWithExpiry>)
    ensures
        final(out)@ == old(out)@ + spec_enc_opt_token(opt_token_view(*o)),
        opt_token_view(*o) matches Some(t) ==> token_encodable(t),
{
    match o {
        None => {
            out.push(0u8);
            proof {
                assert(final(out)@ =~= old(out)@ + spec_enc_opt_token(opt_token_view(*o)));
            }
        },
        Some(t) => {
            out.push(1u8);
            enc_str(out, t.token.as_str());
            enc_i64(out, t.expiry);
            proof {
                assert(final(out)@ =~= old(out)@ + spec_enc_opt_token(opt_token_view(*o)));
            }
        },
    }
}

fn enc_opt_xsts(out: &mut Vec<u8>, o: &Option<XstsToken>)
    ensures
        final(out)@ == old(out)@ + spec_enc_opt_xsts(opt_xsts_view(*o)),
        opt_xsts_view(*o) matches Some(t) ==> xsts_encodable(t),
{
    match o {
        None => {
            out.push(0u8);
            proof {
                assert(final(out)@ =~= old(out)@ + spec_enc_opt_xsts(opt_xsts_view(*o)));
            }
        },
        Some(t) => {
            out.push(1u8);
            enc_str(out, t.token.as_str());
            enc_i64(out, t.expiry);
            enc_str(out, t.userhash.as_str());
            proof {
                assert(final(out)@ =~= old(out)@ + spec_enc_opt_xsts(opt_xsts_view(*o)));
            }
        },
    }
}

/// Decoding a string: read the length, then take that many bytes, which must
/// be valid UTF-8; yields the characters and the remaining input.
pub open spec fn spec_dec_str(b: Seq<u8>) -> Option<(Seq<char>, Seq<u8>)> {
    if b.len() >= 8 {
        let n = spec_u64_from_le_bytes(b.take(8)) as int;
        let rest = b.skip(8);
        if rest.len() >= n && valid_utf8(rest.take(n)) {
            Some((decode_utf8(rest.take(n)), rest.skip(n)))
        } else {
            None
        }
    } else {
        None
    }
}

/// Decoding a timestamp: sign byte, then magnitude; a magnitude outside the
/// range of the sign is rejected.
pub open spec fn spec_dec_i64(b: Seq<u8>) -> Option<(int, Seq<u8>)> {
    if b.len() >= 9 {
        let tag = b[0];
        let m = spec_u64_from_le_bytes(b.skip(1).take(8));
        let rest = b.skip(9);
        if tag == 0u8 && m <= i64::MAX as u64 {
            Some((m as int, rest))
        } else if tag == 1u8 && 1 <= m <= 0x8000_0000_0000_0000u64 {
            Some((-(m as int), rest))
        } else {
            None
        }
    } else {
        None
    }
}

pub open spec fn spec_dec_opt_str(b: Seq<u8>) -> Option<(Option<Seq<char>>, Seq<u8>)> {
    if b.len() >= 1 {
        if b[0] == 0u8 {
            Some((None, b.skip(1)))
        } else if b[0] == 1u8 {
            match spec_dec_str(b.skip(1)) {
                Some((s, rest)) => Some((Some(s), rest)),
                None => None,
            }
        } else {
            None
        }
    } else {
        None
    }
}

pub open spec fn spec_dec_opt_token(b: Seq<u8>) -> Option<(Option<TokenView>, Seq<u8>)> {
    if b.len() >= 1 {
        if b[0] == 0u8 {
            Some((None, b.skip(1)))
        } else if b[0] == 1u8 {
            match spec_dec_str(b.skip(1)) {
                Some((s, rest)) => match spec_dec_i64(rest) {
                    Some((x, rest2)) => Some((Some(TokenView { token: s, expiry: x }), rest2)),
                    None => None,
                },
                None => None,
            }
        } else {
            None
        }
    } else {
        None
    }
}

pub open spec fn spec_dec_opt_xsts(b: Seq<u8>) -> Option<(Option<XstsView>, Seq<u8>)> {
    if b.len() >= 1 {
        if b[0] == 0u8 {
            Some((None, b.skip(1)))
        } else if b[0] == 1u8 {
            match spec_dec_str(b.skip(1)) {
                Some((s, rest)) => match spec_dec_i64(rest) {
                    Some((x, rest2)) => match spec_dec_str(rest2) {
                        Some((h, rest3)) => Some(
                            (Some(XstsView { token: s, expiry: x, userhash: h }), rest3),
                        ),
                        None => None,
                    },
                    None => None,
                },
                None => None,
            }
        } else {
            None
        }
    } else {
        None
    }
}

/// Decoding the whole record: the five slots in pipeline order, with no
/// bytes left over.
pub open spec fn spec_decode(b: Seq<u8>) -> Option<CredsView> {
    match spec_dec_opt_str(b) {
        Some((msa_refresh, b)) => match spec_dec_opt_token(b) {
            Some((msa_access, b)) => match spec_dec_opt_token(b) {
                Some((xbl, b)) => match spec_dec_opt_xsts(b) {
                    Some((xsts, b)) => match spec_dec_opt_token(b) {
                        Some((access_token, b)) => if b.len() == 0 {
                            Some(CredsView { msa_refresh, msa_access, xbl, xsts, access_token })
                        } else {
                            None
                        },
                        None => None,
                    },
                    None => None,
                },
                None => None,
            },
            None => None,
        },
        None => None,
    }
}

/// Relies on std::str::from_utf8: yields a string slice over exactly the
/// given bytes when they are valid UTF-8, and nothing otherwise.
#[verifier::external_body]
fn bytes_to_str(v: &[u8]) -> (r: Option<&str>)
    ensures
        match r {
            Some(s) => valid_utf8(v@) && s.spec_bytes() == v@,
            None => !valid_utf8(v@),
        },
{
    core::str::from_utf8(v).ok()
}

fn byte_at(b: &[u8], pos: usize) -> (r: u8)
    requires
        pos < b@.len(),
    ensures
        r == b@[pos as int],
{
    match b.get(pos) {
        Some(x) => *x,
        None => 0u8,
    }
}

fn dec_u64(b: &[u8], pos: usize) -> (r: Option<(u64, usize)>)
    requires
        pos <= b@.len(),
    ensures
        match r {
            Some(v) => {
                &&& pos <= v.1 <= b@.len()
                &&& b@.skip(pos as int).len() >= 8
                &&& spec_u64_from_le_bytes(b@.skip(pos as int).take(8)) == v.0
                &&& b@.skip(pos as int).skip(8) == b@.skip(v.1 as int)
            },
            None => b@.skip(pos as int).len() < 8,
        },
{
    if b.len() - pos >= 8 {
        let s = slice_subrange(b, pos, pos + 8);
        let x = u64_from_le_bytes(s);
        proof {
            assert(b@.skip(pos as int).take(8) =~= b@.subrange(pos as int, pos as int + 8));
            assert(b@.skip(pos as int).skip(8) =~= b@.skip(pos as int + 8));
        }
        Some((x, pos + 8))
    } else {
        None
    }
}

fn dec_str(b: &[u8], pos: usize) -> (r: Option<(String, usize)>)
    requires
        pos <= b@.len(),
    ensures
        match r {
            Some(v) => {
                &&& pos <= v.1 <= b@.len()
                &&& spec_dec_str(b@.skip(pos as int)) == Some((v.0@, b@.skip(v.1 as int)))
            },
            None => spec_dec_str(b@.skip(pos as int)) is None,
        },
{
    match dec_u64(b, pos) {
        None => None,
        Some((n, p1)) => {
            let rem = b.len() - p1;
            if n <= rem as u64 {
                let nn = n as usize;
                let bytes = slice_subrange(b, p1, p1 + nn);
                proof {
                    assert(bytes@ =~= b@.skip(pos as int).skip(8).take(n as int));
                }
                match bytes_to_str(bytes) {
                    None => None,
                    Some(s) => {
                        let owned = s.to_owned();
                        proof {
                            assert(b@.skip(pos as int).skip(8).skip(n as int) =~= b@.skip(
                                p1 + nn as int,
                            ));
                            assert(decode_utf8(encode_utf8(s@)) == s@);
                        }
                        Some((owned, p1 + nn))
                    },
                }
            } else {
                None
            }
        },
    }
}

fn dec_i64(b: &[u8], pos: usize) -> (r: Option<(i64, usize)>)
    requires
        pos <= b@.len(),
    ensures
        match r {
            Some(v) => {
                &&& pos <= v.1 <= b@.len()
                &&& spec_dec_i64(b@.skip(pos as int)) == Some((v.0 as int, b@.skip(v.1 as int)))
            },
            None => spec_dec_i64(b@.skip(pos as int)) is None,
        },
{
    if b.len() - pos >= 1 {
        let tag = byte_at(b, pos);
        match dec_u64(b, pos + 1) {
            None => None,
            Some((m, p2)) => {
                proof {
                    assert(b@.skip(pos as int).skip(1) =~= b@.skip(pos as int + 1));
                    assert(b@.skip(pos as int).skip(1).take(8) =~= b@.skip(pos as int + 1).take(8));
                    assert(b@.skip(pos as int).skip(9) =~= b@.skip(pos as int + 1).skip(8));
                }
                if tag == 0u8 && m <= i64::MAX as u64 {
                    Some((m as i64, p2))
                } else if tag == 1u8 && 1 <= m && m <= 0x8000_0000_0000_0000u64 {
                    let x: i128 = -(m as i128);
                    Some((x as i64, p2))
                } else {
                    None
                }
            },
        }
    } else {
        None
    }
}

fn dec_opt_str(b: &[u8], pos: usize) -> (r: Option<(Option<String>, usize)>)
    requires
        pos <= b@.len(),
    ensures
        match r {
            Some(v) => {
                &&& pos <= v.1 <= b@.len()
                &&& spec_dec_opt_str(b@.skip(pos as int)) == Some(
                    (opt_str_view(v.0), b@.skip(v.1 as int)),
                )
            },
            None => spec_dec_opt_str(b@.skip(pos as int)) is None,
        },
{
    if b.len() - pos >= 1 {
        let tag = byte_at(b, pos);
        if tag == 0u8 {
            proof {
                assert(b@.skip(pos as int).skip(1) =~= b@.skip(pos as int + 1));
            }
            Some((None, pos + 1))
        } else if tag == 1u8 {
            proof {
                assert(b@.skip(pos as int).skip(1) =~= b@.skip(pos as int + 1));
            }
            match dec_str(b, pos + 1) {
                Some((s, p2)) => Some((Some(s), p2)),
                None => None,
            }
        } else {
            None
        }
    } else {
        None
    }
}

fn dec_opt_token(b: &[u8], pos: usize) -> (r: Option<(Option<TokenWithExpiry>, usize)>)
    requires
        pos <= b@.len(),
    ensures
        match r {
            Some(v) => {
                &&& pos <= v.1 <= b@.len()
                &&& spec_dec_opt_token(b@.skip(pos as int)) == Some(
                    (opt_token_view(v.0), b@.skip(v.1 as int)),
                )
            },
            None => spec_dec_opt_token(b@.skip(pos as int)) is None,
        },
{
    if b.len() - pos >= 1 {
        let tag = byte_at(b, pos);
        if tag == 0u8 {
            proof {
                assert(b@.skip(pos as int).skip(1) =~= b@.skip(pos as int + 1));
            }
            Some((None, pos + 1))
        } else if tag == 1u8 {
            proof {
                assert(b@.skip(pos as int).skip(1) =~= b@.skip(pos as int + 1));
            }
            match dec_str(b, pos + 1) {
                Some((s, p2)) => match dec_i64(b, p2) {
                    Some((x, p3)) => Some((Some(TokenWithExpiry { token: s, expiry: x }), p3)),
                    None => None,
                },
                None => None,
            }
        } else {
            None
        }
    } else {
        None
    }
}

fn dec_opt_xsts(b: &[u8], pos: usize) -> (r: Option<(Option<XstsToken>, usize)>)
    requires
        pos <= b@.len(),
    ensures
        match r {
            Some(v) => {
                &&& pos <= v.1 <= b@.len()
                &&& spec_dec_opt_xsts(b@.skip(pos as int)) == Some(
                    (opt_xsts_view(v.0), b@.skip(v.1 as int)),
                )
            },
            None => spec_dec_opt_xsts(b@.skip(pos as int)) is None,
        },
{
    if b.len() - pos >= 1 {
        let tag = byte_at(b, pos);
        if tag == 0u8 {
            proof {
                assert(b@.skip(pos as int).skip(1) =~= b@.skip(pos as int + 1));
            }
            Some((None, pos + 1))
        } else if tag == 1u8 {
            proof {
                assert(b@.skip(pos as int).skip(1) =~= b@.skip(pos as int + 1));
            }
            match dec_str(b, pos + 1) {
                Some((s, p2)) => match dec_i64(b, p2) {
                    Some((x, p3)) => match dec_str(b, p3) {
                        Some((h, p4)) => Some(
                            (Some(XstsToken { token: s, expiry: x, userhash: h }), p4),
                        ),
                        None => None,
                    },
                    None => None,
                },
                None => None,
            }
        } else {
            None
        }
    } else {
        None
    }
}

/// Decodes a persisted byte form back into the credential record it encodes,
/// rejecting anything that is not exactly an encoding.
pub fn decode_credentials(b: &[u8]) -> (r: Option<AccountCredentials>)
    ensures
        match r {
            Some(c) => spec_decode(b@) == Some(c@),
            None => spec_decode(b@) is None,
        },
{
    proof {
        assert(b@.skip(0) =~= b@);
    }
    match dec_opt_str(b, 0) {
        None => None,
        Some((msa_refresh, p1)) => match dec_opt_token(b, p1) {
            None => None,
            Some((msa_access, p2)) => match dec_opt_token(b, p2) {
                None => None,
                Some((xbl, p3)) => match dec_opt_xsts(b, p3) {
                    None => None,
                    Some((xsts, p4)) => match dec_opt_token(b, p4) {
                        None => None,
                        Some((access_token, p5)) => {
                            if p5 == b.len() {
                                Some(
                                    AccountCredentials {
                                        msa_refresh,
                                        msa_access,
                                        xbl,
                                        xsts,
                                        access_token,
                                    },
                                )
                            } else {
                                None
                            }
                        },
                    },
                },
            },
        },
    }
}

/// Encodes the credential record into its persisted byte form; what was
/// held in memory is always encodable.
pub fn encode_credentials(c: &AccountCredentials) -> (r: Vec<u8>)
    ensures
        r@ == spec_encode(c@),
        creds_encodable(c@),
{
    let mut out: Vec<u8> = Vec::new();
    enc_opt_str(&mut out, &c.msa_refresh);
    enc_opt_token(&mut out, &c.msa_access);
    enc_opt_token(&mut out, &c.xbl);
    enc_opt_xsts(&mut out, &c.xsts);
    enc_opt_token(&mut out, &c.access_token);
    proof {
        assert(out@ =~= spec_encode(c@));
    }
    out
}

/// A string is encodable when its byte length fits the length field.
pub open spec fn str_encodable(s: Seq<char>) -> bool {
    encode_utf8(s).len() <= u64::MAX
}

/// A timestamp is encodable when it lies in the range of a 64-bit signed
/// integer.
pub open spec fn i64_range(x: int) -> bool {
    i64::MIN <= x <= i64::MAX
}

pub open spec fn token_encodable(t: TokenView) -> bool {
    str_encodable(t.token) && i64_range(t.expiry)
}

pub open spec fn xsts_encodable(t: XstsView) -> bool {
    str_encodable(t.token) && i64_range(t.expiry) && str_encodable(t.userhash)
}

/// A credential record is encodable when each present slot is; every record
/// actually held in memory is.
pub open spec fn creds_encodable(v: CredsView) -> bool {
    &&& (v.msa_refresh matches Some(s) ==> str_encodable(s))
    &&& (v.msa_access matches Some(t) ==> token_encodable(t))
    &&& (v.xbl matches Some(t) ==> token_encodable(t))
    &&& (v.xsts matches Some(t) ==> xsts_encodable(t))
    &&& (v.access_token matches Some(t) ==> token_encodable(t))
}

proof fn lemma_dec_enc_str(s: Seq<char>, rest: Seq<u8>)
    requires
        str_encodable(s),
    ensures
        spec_dec_str(spec_enc_str(s) + rest) == Some((s, rest)),
{
    lemma_auto_spec_u64_to_from_le_bytes();
    let b = spec_enc_str(s) + rest;
    let n = encode_utf8(s).len() as int;
    assert(b.take(8) =~= spec_u64_to_le_bytes(encode_utf8(s).len() as u64));
    assert(b.skip(8) =~= encode_utf8(s) + rest);
    assert(b.skip(8).take(n) =~= encode_utf8(s));
    assert(b.skip(8).skip(n) =~= rest);
}

proof fn lemma_dec_enc_i64(x: int, rest: Seq<u8>)
    requires
        i64_range(x),
    ensures
        spec_dec_i64(spec_enc_i64(x) + rest) == Some((x, rest)),
{
    lemma_auto_spec_u64_to_from_le_bytes();
    let b = spec_enc_i64(x) + rest;
    if x >= 0 {
        assert(b[0] == 0u8);
        assert(b.skip(1).take(8) =~= spec_u64_to_le_bytes(x as u64));
        assert(b.skip(9) =~= rest);
    } else {
        assert(b[0] == 1u8);
        assert(b.skip(1).take(8) =~= spec_u64_to_le_bytes((-x) as u64));
        assert(b.skip(9) =~= rest);
    }
}

proof fn lemma_dec_enc_opt_str(o: Option<Seq<char>>, rest: Seq<u8>)
    requires
        o matches Some(s) ==> str_encodable(s),
    ensures
        spec_dec_opt_str(spec_enc_opt_str(o) + rest) == Some((o, rest)),
{
    let b = spec_enc_opt_str(o) + rest;
    match o {
        None => {
            assert(b[0] == 0u8);
            assert(b.skip(1) =~= rest);
        },
        Some(s) => {
            assert(b[0] == 1u8);
            assert(b.skip(1) =~= spec_enc_str(s) + rest);
            lemma_dec_enc_str(s, rest);
        },
    }
}

proof fn lemma_dec_enc_opt_token(o: Option<TokenView>, rest: Seq<u8>)
    requires
        o matches Some(t) ==> token_encodable(t),
    ensures
        spec_dec_opt_token(spec_enc_opt_token(o) + rest) == Some((o, rest)),
{
    let b = spec_enc_opt_token(o) + rest;
    match o {
        None => {
            assert(b[0] == 0u8);
            assert(b.skip(1) =~= rest);
        },
        Some(t) => {
            assert(b[0] == 1u8);
            assert(b.skip(1) =~= spec_enc_str(t.token) + (spec_enc_i64(t.expiry) + rest));
            lemma_dec_enc_str(t.token, spec_enc_i64(t.expiry) + rest);
            lemma_dec_enc_i64(t.expiry, rest);
        },
    }
}

proof fn lemma_dec_enc_opt_xsts(o: Option<XstsView>, rest: Seq<u8>)
    requires
        o matches Some(t) ==> xsts_encodable(t),
    ensures
        spec_dec_opt_xsts(spec_enc_opt_xsts(o) + rest) == Some((o, rest)),
{
    let b = spec_enc_opt_xsts(o) + rest;
    match o {
        None => {
            assert(b[0] == 0u8);
            assert(b.skip(1) =~= rest);
        },
        Some(t) => {
            assert(b[0] == 1u8);
            assert(b.skip(1) =~= spec_enc_str(t.token) + (spec_enc_i64(t.expiry) + (spec_enc_str(
                t.userhash,
            ) + rest)));
            lemma_dec_enc_str(t.token, spec_enc_i64(t.expiry) + (spec_enc_str(t.userhash) + rest));
            lemma_dec_enc_i64(t.expiry, spec_enc_str(t.userhash) + rest);
            lemma_dec_enc_str(t.userhash, rest);
        },
    }
}

/// The codec round trip: decoding the encoding of any encodable credential
/// record yields exactly that record, whatever combination of slots is
/// present and whatever the tokens hold.
pub proof fn lemma_codec_round_trip(v: CredsView)
    requires
        creds_encodable(v),
    ensures
        spec_decode(spec_encode(v)) == Some(v),
{
    let e1 = spec_enc_opt_str(v.msa_refresh);
    let e2 = spec_enc_opt_token(v.msa_access);
    let e3 = spec_enc_opt_token(v.xbl);
    let e4 = spec_enc_opt_xsts(v.xsts);
    let e5 = spec_enc_opt_token(v.access_token);
    let b = spec_encode(v);
    assert(b =~= e1 + (e2 + (e3 + (e4 + (e5 + Seq::<u8>::empty())))));
    lemma_dec_enc_opt_str(v.msa_refresh, e2 + (e3 + (e4 + (e5 + Seq::<u8>::empty()))));
    lemma_dec_enc_opt_token(v.msa_access, e3 + (e4 + (e5 + Seq::<u8>::empty())));
    lemma_dec_enc_opt_token(v.xbl, e4 + (e5 + Seq::<u8>::empty()));
    lemma_dec_enc_opt_xsts(v.xsts, e5 + Seq::<u8>::empty());
    lemma_dec_enc_opt_token(v.access_token, Seq::<u8>::empty());
}

} // verus!
