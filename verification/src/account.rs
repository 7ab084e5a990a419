//! The account-management data kept by the backend: the per-account record,
//! the account table with its selection, and the rule that removes accounts
//! whose stored credentials turned out to be missing or unreadable.
//!
//! Accounts are keyed by their 128-bit account identifier.

use vstd::prelude::*;
use crate::credentials::MinecraftAccessToken;

verus! {

/// The profile returned by the game service for a logged-in account; only
/// the profile name is consumed here.
#[derive(Debug, Clone)]
pub struct MinecraftProfileResponse {
    pub name: String,
}

/// What a finished login yields for one account: its identifier, the profile
/// name, and the service access token when the account is online.
#[derive(Debug, Clone)]
pub struct MinecraftLoginInfo {
    pub uuid: u128,
    pub username: String,
    pub access_token: Option<MinecraftAccessToken>,
}

/// One stored account: the profile name, whether it is an offline account,
/// and its avatar image bytes when one has been fetched.
#[derive(Debug, Clone)]
pub struct BackendAccount {
    pub username: String,
    pub offline: bool,
    pub head: Option<Vec<u8>>,
}

/// Mathematical model of one stored account.
pub ghost struct AccountView {
    pub username: Seq<char>,
    pub offline: bool,
    pub head: Option<Seq<u8>>,
}

impl View for BackendAccount {
    type V = AccountView;

    open spec fn view(&self) -> AccountView {
        AccountView {
            username: self.username@,
            offline: self.offline,
            head: match self.head {
                Some(h) => Some(h@),
                None => None,
            },
        }
    }
}

impl BackendAccount {
    /// A fresh online account made from a profile: named after it, with no
    /// avatar fetched yet.
    pub fn new_from_profile(profile: &MinecraftProfileResponse) -> (r: Self)
        ensures
            r.username@ == profile.name@,
            !r.offline,
            r.head is None,
    {
        Self { username: profile.name.clone(), offline: false, head: None }
    }
}

/// One row of the account table: the account identifier and its record.
#[derive(Debug, Clone)]
pub struct BackendAccountEntry {
    pub uuid: u128,
    pub account: BackendAccount,
}

/// Mathematical model of one account-table row.
pub ghost struct EntryView {
    pub uuid: u128,
    pub account: AccountView,
}

impl View for BackendAccountEntry {
    type V = EntryView;

    open spec fn view(&self) -> EntryView {
        EntryView { uuid: self.uuid, account: self.account@ }
    }
}

impl BackendAccountEntry {
    /// A copy of this row with the same identifier and the same record.
    pub fn clone_entry(&self) -> (r: Self)
        ensures
            r@ == self@,
    {
        BackendAccountEntry {
            uuid: self.uuid,
            account: BackendAccount {
                username: self.account.username.clone(),
                offline: self.account.offline,
                head: match &self.account.head {
                    Some(h) => Some(h.clone()),
                    None => None,
                },
            },
        }
    }
}

/// The rows of an account table, as their models.
pub open spec fn entries_view(s: Seq<BackendAccountEntry>) -> Seq<EntryView> {
    s.map_values(|e: BackendAccountEntry| e@)
}

/// The account table: every stored account and which one is selected.
#[derive(Debug, Clone)]
pub struct BackendAccountInfo {
    pub accounts: Vec<BackendAccountEntry>,
    pub selected_account: Option<u128>,
}

fn contains_id(ids: &Vec<u128>, x: u128) -> (r: bool)
    ensures
        r == ids@.contains(x),
{
    let mut i: usize = 0;
    while i < ids.len()
        invariant
            i <= ids@.len(),
            forall|j: int| 0 <= j < i ==> ids@[j] != x,
        decreases ids@.len() - i,
    {
        if ids[i] == x {
            return true;
        }
        i = i + 1;
    }
    false
}

impl BackendAccountInfo {
    /// Removes every account whose identifier is in `invalid` — those whose
    /// stored credentials a read found missing or unreadable — keeping the
    /// others in their order, and clears the selection exactly when the
    /// selected account was among the removed.
    pub fn remove_invalid_accounts(&mut self, invalid: &Vec<u128>)
        ensures
            entries_view(final(self).accounts@) == entries_view(old(self).accounts@).filter(
                |e: EntryView| !invalid@.contains(e.uuid),
            ),
            final(self).selected_account == match old(self).selected_account {
                Some(id) => if invalid@.contains(id) {
                    None::<u128>
                } else {
                    Some(id)
                },
                None => None::<u128>,
            },
    {
        let ghost pred = |e: EntryView| !invalid@.contains(e.uuid);
        let mut kept: Vec<BackendAccountEntry> = Vec::new();
        let mut i: usize = 0;
        proof {
            assert(entries_view(old(self).accounts@.subrange(0, 0))
                =~= Seq::<EntryView>::empty());
            reveal_with_fuel(Seq::filter, 1);
        }
        while i < self.accounts.len()
            invariant
                i <= self.accounts@.len(),
                self == old(self),
                entries_view(kept@) == entries_view(self.accounts@.subrange(0, i as int)).filter(
                    pred,
                ),
                pred == (|e: EntryView| !invalid@.contains(e.uuid)),
            decreases self.accounts@.len() - i,
        {
            let e = &self.accounts[i];
            let ghost prefix_v = entries_view(self.accounts@.subrange(0, i as int));
            let ghost prefix1_v = entries_view(self.accounts@.subrange(0, i as int + 1));
            proof {
                reveal_with_fuel(Seq::filter, 2);
                assert(prefix1_v.drop_last() =~= prefix_v);
                assert(prefix1_v.last() == self.accounts@[i as int]@);
            }
            if !contains_id(invalid, e.uuid) {
                kept.push(e.clone_entry());
                proof {
                    reveal_with_fuel(Seq::filter, 2);
                    assert(entries_view(kept@) =~= prefix1_v.filter(pred));
                }
            } else {
                proof {
                    reveal_with_fuel(Seq::filter, 2);
                    assert(entries_view(kept@) =~= prefix1_v.filter(pred));
                }
            }
            i = i + 1;
        }
        proof {
            assert(self.accounts@.subrange(0, self.accounts@.len() as int) =~= self.accounts@);
        }
        self.accounts = kept;
        match self.selected_account {
            Some(id) => {
                if contains_id(invalid, id) {
                    self.selected_account = None;
                }
            },
            None => (),
        }
    }
}

} // verus!
