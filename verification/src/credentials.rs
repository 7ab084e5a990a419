//! The credential chain: the five-slot record of tokens with expiries, the
//! ordered authentication stages, the stage resolver and the chain validator.
//!
//! Timestamps are absolute UTC instants in milliseconds; a token is live at
//! `now` exactly when `now` is strictly before its expiry.

use vstd::prelude::*;

verus! {

/// An opaque token value plus an absolute expiry timestamp (UTC, ms).
#[derive(Debug, Clone, PartialEq, Eq)]
pub struct TokenWithExpiry {
    pub token: String,
    pub expiry: i64,
}

/// A secure identity-exchange token: a token with expiry plus the associated
/// user-hash; both are required together to perform the final exchange.
#[derive(Debug, Clone, PartialEq, Eq)]
pub struct XstsToken {
    pub token: String,
    pub expiry: i64,
    pub userhash: String,
}

/// The final service access token.
#[derive(Debug, Clone, PartialEq, Eq)]
pub struct MinecraftAccessToken(pub String);

/// The persisted credential record for one account: five optional slots,
/// ordered by pipeline position. A cleared slot means "must re-derive from
/// the previous valid slot".
#[derive(Debug, Clone, PartialEq, Eq)]
pub struct AccountCredentials {
    pub msa_refresh: Option<String>,
    pub msa_access: Option<TokenWithExpiry>,
    pub xbl: Option<TokenWithExpiry>,
    pub xsts: Option<XstsToken>,
    pub access_token: Option<TokenWithExpiry>,
}

/// A position in the ordered authentication pipeline, `Initial` meaning that
/// no usable token is held and a full re-login is required.
#[derive(Clone, Copy, PartialEq, Eq, PartialOrd, Ord, Debug, Structural)]
pub enum AuthStage {
    Initial,
    MsaRefresh,
    MsaAccess,
    XboxLive,
    XboxSecure,
    AccessToken,
}

pub const AUTH_STAGE_COUNT: u8 = 6;

/// A stage together with exactly the payload needed to perform the next
/// external exchange from that stage.
#[derive(Debug, Clone, PartialEq, Eq)]
pub enum AuthStageWithData {
    Initial,
    MsaRefresh(String),
    MsaAccess(String),
    XboxLive(String),
    XboxSecure { xsts: String, userhash: String },
    AccessToken(MinecraftAccessToken),
}

impl AuthStageWithData {
    /// The bare stage tag of this stage-with-payload.
    pub open spec fn spec_stage(&self) -> AuthStage {
        match self {
            AuthStageWithData::Initial => AuthStage::Initial,
            AuthStageWithData::MsaRefresh(..) => AuthStage::MsaRefresh,
            AuthStageWithData::MsaAccess(..) => AuthStage::MsaAccess,
            AuthStageWithData::XboxLive(..) => AuthStage::XboxLive,
            AuthStageWithData::XboxSecure { .. } => AuthStage::XboxSecure,
            AuthStageWithData::AccessToken(..) => AuthStage::AccessToken,
        }
    }

    pub fn stage(&self) -> (r: AuthStage)
        ensures
            r == self.spec_stage(),
    {
        match self {
            AuthStageWithData::Initial => AuthStage::Initial,
            AuthStageWithData::MsaRefresh(..) => AuthStage::MsaRefresh,
            AuthStageWithData::MsaAccess(..) => AuthStage::MsaAccess,
            AuthStageWithData::XboxLive(..) => AuthStage::XboxLive,
            AuthStageWithData::XboxSecure { .. } => AuthStage::XboxSecure,
            AuthStageWithData::AccessToken(..) => AuthStage::AccessToken,
        }
    }
}

impl Default for AccountCredentials {
    /// The empty chain that a first login attempt starts from: every slot
    /// absent.
    fn default() -> (r: Self)
        ensures
            r.msa_refresh is None,
            r.msa_access is None,
            r.xbl is None,
            r.xsts is None,
            r.access_token is None,
    {
        AccountCredentials {
            msa_refresh: None,
            msa_access: None,
            xbl: None,
            xsts: None,
            access_token: None,
        }
    }
}

/// A token slot holds a usable token at `now`: present and unexpired.
pub open spec fn token_live(t: Option<TokenWithExpiry>, now: int) -> bool {
    match t {
        Some(tok) => now < tok.expiry,
        None => false,
    }
}

/// The secure identity-exchange slot holds a usable token at `now`.
pub open spec fn xsts_live(t: Option<XstsToken>, now: int) -> bool {
    match t {
        Some(tok) => now < tok.expiry,
        None => false,
    }
}

/// The chain after resolution at `now`: every slot that lies beyond the
/// furthest-along live stage and is not itself live has been cleared.
pub open spec fn spec_cleared(c: AccountCredentials, now: int) -> AccountCredentials {
    if token_live(c.access_token, now) {
        c
    } else {
        let c = AccountCredentials { access_token: None, ..c };
        if xsts_live(c.xsts, now) {
            c
        } else {
            let c = AccountCredentials { xsts: None, ..c };
            if token_live(c.xbl, now) {
                c
            } else {
                let c = AccountCredentials { xbl: None, ..c };
                if token_live(c.msa_access, now) {
                    c
                } else {
                    AccountCredentials { msa_access: None, ..c }
                }
            }
        }
    }
}

/// The furthest-along stage still usable at `now`, with its payload: the
/// longest valid suffix of the chain, checked from the most advanced stage
/// backward.
pub open spec fn spec_stage_data(c: AccountCredentials, now: int) -> AuthStageWithData {
    if token_live(c.access_token, now) {
        AuthStageWithData::AccessToken(MinecraftAccessToken(c.access_token->Some_0.token))
    } else if xsts_live(c.xsts, now) {
        AuthStageWithData::XboxSecure {
            xsts: c.xsts->Some_0.token,
            userhash: c.xsts->Some_0.userhash,
        }
    } else if token_live(c.xbl, now) {
        AuthStageWithData::XboxLive(c.xbl->Some_0.token)
    } else if token_live(c.msa_access, now) {
        AuthStageWithData::MsaAccess(c.msa_access->Some_0.token)
    } else if c.msa_refresh is Some {
        AuthStageWithData::MsaRefresh(c.msa_refresh->Some_0)
    } else {
        AuthStageWithData::Initial
    }
}

impl AccountCredentials {
    /// The stage resolver: returns the furthest-along stage still valid at
    /// `now` together with its payload, clearing every expired slot found on
    /// the way so that a chain persisted after resolution never stores
    /// known-stale tokens.
    pub fn stage(&mut self, now: i64) -> (r: AuthStageWithData)
        ensures
            r == spec_stage_data(*old(self), now as int),
            *final(self) == spec_cleared(*old(self), now as int),
    {
        // Try returning the final service access token
        if let Some(access_token) = &self.access_token {
            if now < access_token.expiry {
                return AuthStageWithData::AccessToken(MinecraftAccessToken(
                    access_token.token.clone(),
                ));
            }
        }
        self.access_token = None;

        // Try returning XboxSecure
        if let Some(xsts) = &self.xsts {
            if now < xsts.expiry {
                return AuthStageWithData::XboxSecure {
                    xsts: xsts.token.clone(),
                    userhash: xsts.userhash.clone(),
                };
            }
        }
        self.xsts = None;

        // Try returning XboxLive
        if let Some(xbl) = &self.xbl {
            if now < xbl.expiry {
                return AuthStageWithData::XboxLive(xbl.token.clone());
            }
        }
        self.xbl = None;

        // Try returning MsaAccess
        if let Some(msa_access) = &self.msa_access {
            if now < msa_access.expiry {
                return AuthStageWithData::MsaAccess(msa_access.token.clone());
            }
        }
        self.msa_access = None;

        // Try returning MsaRefresh
        if let Some(msa_refresh) = &self.msa_refresh {
            return AuthStageWithData::MsaRefresh(msa_refresh.clone());
        }

        // No valid stage, return the initial stage
        AuthStageWithData::Initial
    }
}

/// Resolution is idempotent: resolving the already-resolved chain at the same
/// time yields the same stage and payload and clears nothing further.
pub proof fn lemma_stage_idempotent(c: AccountCredentials, now: int)
    ensures
        spec_stage_data(spec_cleared(c, now), now) == spec_stage_data(c, now),
        spec_cleared(spec_cleared(c, now), now) == spec_cleared(c, now),
{
}

/// Whenever the service access token is present and unexpired at `now` — in
/// particular on a chain whose every slot is — resolution returns that token
/// and leaves every slot unchanged.
pub proof fn lemma_stage_all_valid(c: AccountCredentials, now: int)
    requires
        token_live(c.access_token, now),
    ensures
        spec_stage_data(c, now) == AuthStageWithData::AccessToken(MinecraftAccessToken(
            c.access_token->Some_0.token,
        )),
        spec_cleared(c, now) == c,
{
}

/// If the service access token is expired but the secure identity-exchange
/// token is still live, resolution clears exactly the service access slot,
/// returns the XboxSecure payload, and touches no earlier slot.
pub proof fn lemma_stage_fall_back_to_xsts(c: AccountCredentials, now: int)
    requires
        !token_live(c.access_token, now),
        xsts_live(c.xsts, now),
    ensures
        spec_stage_data(c, now) == (AuthStageWithData::XboxSecure {
            xsts: c.xsts->Some_0.token,
            userhash: c.xsts->Some_0.userhash,
        }),
        spec_cleared(c, now) == (AccountCredentials { access_token: None, ..c }),
{
}

/// The outcome of validating the whole chain: either every slot is usable,
/// or the list of every token kind whose slot is absent or expired.
#[derive(Debug)]
pub enum TokenValidationResult {
    Valid,
    Invalid(Vec<TokenType>),
}

/// The five kinds of token held in the chain, used to report which slots are
/// currently invalid.
#[derive(Clone, Copy, PartialEq, Eq, Debug, Structural)]
pub enum TokenType {
    AccessToken,
    Xsts,
    Xbl,
    MsaAccess,
    MsaRefresh,
}

/// The token kinds whose slots are invalid at `now`, most advanced stage
/// first. The refresh token is invalid exactly when absent; every other slot
/// is invalid when absent or expired.
pub open spec fn spec_invalid_kinds(c: AccountCredentials, now: int) -> Seq<TokenType> {
    (if !token_live(c.access_token, now) {
        seq![TokenType::AccessToken]
    } else {
        Seq::empty()
    }) + (if !xsts_live(c.xsts, now) {
        seq![TokenType::Xsts]
    } else {
        Seq::empty()
    }) + (if !token_live(c.xbl, now) {
        seq![TokenType::Xbl]
    } else {
        Seq::empty()
    }) + (if !token_live(c.msa_access, now) {
        seq![TokenType::MsaAccess]
    } else {
        Seq::empty()
    }) + (if c.msa_refresh is None {
        seq![TokenType::MsaRefresh]
    } else {
        Seq::empty()
    })
}

impl AccountCredentials {
    /// The chain validator: checks all five slots unconditionally and reports
    /// every slot that is absent or expired at `now`, for diagnostics; the
    /// chain itself is left untouched. Returns `Valid` exactly when no slot
    /// is invalid.
    #[verifier::rlimit(30)]
    pub fn validate_token_chain(&self, now: i64) -> (r: TokenValidationResult)
        ensures
            r is Valid <==> spec_invalid_kinds(*self, now as int).len() == 0,
            r matches TokenValidationResult::Invalid(v) ==> v@ == spec_invalid_kinds(
                *self,
                now as int,
            ),
    {
        let mut invalid_tokens: Vec<TokenType> = Vec::new();

        if let Some(access_token) = &self.access_token {
            if now >= access_token.expiry {
                invalid_tokens.push(TokenType::AccessToken);
            }
        } else {
            invalid_tokens.push(TokenType::AccessToken);
        }

        if let Some(xsts) = &self.xsts {
            if now >= xsts.expiry {
                invalid_tokens.push(TokenType::Xsts);
            }
        } else {
            invalid_tokens.push(TokenType::Xsts);
        }

        if let Some(xbl) = &self.xbl {
            if now >= xbl.expiry {
                invalid_tokens.push(TokenType::Xbl);
            }
        } else {
            invalid_tokens.push(TokenType::Xbl);
        }

        if let Some(msa_access) = &self.msa_access {
            if now >= msa_access.expiry {
                invalid_tokens.push(TokenType::MsaAccess);
            }
        } else {
            invalid_tokens.push(TokenType::MsaAccess);
        }

        if self.msa_refresh.is_none() {
            invalid_tokens.push(TokenType::MsaRefresh);
        }

        proof {
            assert(invalid_tokens@ =~= spec_invalid_kinds(*self, now as int));
        }
        if invalid_tokens.is_empty() {
            TokenValidationResult::Valid
        } else {
            TokenValidationResult::Invalid(invalid_tokens)
        }
    }
}

/// On a chain with all slots absent, validation reports exactly the five
/// token kinds as invalid, one of each.
pub proof fn lemma_validate_all_absent(c: AccountCredentials, now: int)
    requires
        c.msa_refresh is None,
        c.msa_access is None,
        c.xbl is None,
        c.xsts is None,
        c.access_token is None,
    ensures
        spec_invalid_kinds(c, now) =~= seq![
            TokenType::AccessToken,
            TokenType::Xsts,
            TokenType::Xbl,
            TokenType::MsaAccess,
            TokenType::MsaRefresh,
        ],
        spec_invalid_kinds(c, now).to_set() =~= set![
            TokenType::AccessToken,
            TokenType::Xsts,
            TokenType::Xbl,
            TokenType::MsaAccess,
            TokenType::MsaRefresh,
        ],
{
    let s = spec_invalid_kinds(c, now);
    assert(s =~= seq![
        TokenType::AccessToken,
        TokenType::Xsts,
        TokenType::Xbl,
        TokenType::MsaAccess,
        TokenType::MsaRefresh,
    ]);
    assert forall|t: TokenType| s.to_set().contains(t) implies set![
        TokenType::AccessToken,
        TokenType::Xsts,
        TokenType::Xbl,
        TokenType::MsaAccess,
        TokenType::MsaRefresh,
    ].contains(t) by {}
    assert(s.to_set().contains(s[0]));
    assert(s.to_set().contains(s[1]));
    assert(s.to_set().contains(s[2]));
    assert(s.to_set().contains(s[3]));
    assert(s.to_set().contains(s[4]));
}

/// On a fully valid chain, validation reports no invalid slot at all.
pub proof fn lemma_validate_all_valid(c: AccountCredentials, now: int)
    requires
        c.msa_refresh is Some,
        token_live(c.msa_access, now),
        token_live(c.xbl, now),
        xsts_live(c.xsts, now),
        token_live(c.access_token, now),
    ensures
        spec_invalid_kinds(c, now).len() == 0,
{
    assert(spec_invalid_kinds(c, now) =~= Seq::<TokenType>::empty());
}

/// On a chain with all slots absent, resolution returns Initial and there is
/// nothing to clear.
pub proof fn lemma_stage_all_absent(c: AccountCredentials, now: int)
    requires
        c.msa_refresh is None,
        c.msa_access is None,
        c.xbl is None,
        c.xsts is None,
        c.access_token is None,
    ensures
        spec_stage_data(c, now) == AuthStageWithData::Initial,
        spec_cleared(c, now) == c,
{
}

} // verus!
