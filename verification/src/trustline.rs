//! Trustline lifecycle checks for the application asset.
//!
//! Each query works on an account record fetched fresh through the ledger
//! client by the caller: no trustline state is ever cached here.

use vstd::prelude::*;

use crate::amount::{amount_representable, amount_to_stroops, stroops_of_body};
use crate::errors::StellarError;
use crate::text::str_eq;
use crate::types::{is_valid_stellar_address, valid_account_id, AssetBalance, StellarAccountInfo};

verus! {

/// Base reserve of the network, in stroops: each subentry and the account
/// itself must be backed by this much native balance.
pub const BASE_RESERVE_STROOPS: u64 = 5_000_000;

/// A balance entry for exactly this asset: code and issuer both match.
pub open spec fn is_asset_entry(b: AssetBalance, code: Seq<char>, issuer: Seq<char>) -> bool {
    &&& b.asset_code is Some && b.asset_code->0@ == code
    &&& b.asset_issuer is Some && b.asset_issuer->0@ == issuer
}

/// The first balance entry for this asset, if any.
pub open spec fn asset_entry_of(
    s: Seq<AssetBalance>,
    code: Seq<char>,
    issuer: Seq<char>,
) -> Option<AssetBalance>
    decreases s.len(),
{
    if s.len() == 0 {
        Option::None
    } else if is_asset_entry(s[0], code, issuer) {
        Option::Some(s[0])
    } else {
        asset_entry_of(s.drop_first(), code, issuer)
    }
}

/// A native-asset balance entry.
pub open spec fn is_native_entry(b: AssetBalance) -> bool {
    b.asset_type@ == "native"@
}

/// Balance string of the first native entry, if any.
pub open spec fn native_balance_of(s: Seq<AssetBalance>) -> Option<Seq<char>>
    decreases s.len(),
{
    if s.len() == 0 {
        Option::None
    } else if is_native_entry(s[0]) {
        Option::Some(s[0].balance@)
    } else {
        native_balance_of(s.drop_first())
    }
}

/// Native balance, in stroops, this account must hold: two base reserves
/// plus one per subentry, plus one more when the trustline it is about to
/// hold does not exist yet.
pub open spec fn spec_required_reserve(subentry_count: u32, needs_new_entry: bool) -> int {
    (2 + subentry_count + (if needs_new_entry {
        1int
    } else {
        0int
    })) * BASE_RESERVE_STROOPS
}

/// Result of a trustline query: whether the account holds the asset, and if
/// so its balance string and authorization flag.
#[derive(Debug, Clone)]
pub struct TrustlineStatus {
    pub exists: bool,
    pub balance: Option<String>,
    pub authorized: Option<bool>,
}

/// An unsigned change-trust draft, built but never submitted here: the
/// caller signs and submits it through the payment path.
#[derive(Debug, Clone)]
pub struct TrustlineTransaction {
    pub account_id: String,
    pub asset_code: String,
    pub asset_issuer: String,
    pub operation: String,
}

/// Trustline manager for one specific asset.
#[derive(Debug, Clone)]
pub struct TrustlineManager {
    pub asset_code: String,
    pub asset_issuer: String,
}

/// Skipping non-matching entries does not change the first asset entry.
proof fn lemma_asset_entry_skip(s: Seq<AssetBalance>, code: Seq<char>, issuer: Seq<char>, i: int)
    requires
        0 <= i <= s.len(),
        forall|j: int| 0 <= j < i ==> !is_asset_entry(#[trigger] s[j], code, issuer),
    ensures
        asset_entry_of(s, code, issuer) == asset_entry_of(s.skip(i), code, issuer),
    decreases i,
{
    if i > 0 {
        lemma_asset_entry_skip(s, code, issuer, i - 1);
        assert(s.skip(i - 1)[0] == s[i - 1]);
        assert(s.skip(i - 1).drop_first() =~= s.skip(i));
    } else {
        assert(s.skip(0) =~= s);
    }
}

/// Skipping non-native entries does not change the first native balance.
proof fn lemma_native_balance_skip(s: Seq<AssetBalance>, i: int)
    requires
        0 <= i <= s.len(),
        forall|j: int| 0 <= j < i ==> !is_native_entry(#[trigger] s[j]),
    ensures
        native_balance_of(s) == native_balance_of(s.skip(i)),
    decreases i,
{
    if i > 0 {
        lemma_native_balance_skip(s, i - 1);
        assert(s.skip(i - 1)[0] == s[i - 1]);
        assert(s.skip(i - 1).drop_first() =~= s.skip(i));
    } else {
        assert(s.skip(0) =~= s);
    }
}

/// Index of the first balance entry for this asset, if any.
fn find_asset_entry(balances: &Vec<AssetBalance>, code: &str, issuer: &str) -> (r: Option<usize>)
    ensures
        r is Some <==> asset_entry_of(balances@, code@, issuer@) is Some,
        r is Some ==> r->0 < balances@.len() && asset_entry_of(balances@, code@, issuer@)
            == Option::Some(balances@[r->0 as int]),
{
    let n = balances.len();
    let mut i: usize = 0;
    while i < n
        invariant
            0 <= i <= n,
            n == balances@.len(),
            forall|j: int| 0 <= j < i ==> !is_asset_entry(#[trigger] balances@[j], code@, issuer@),
        decreases n - i,
    {
        let b = &balances[i];
        let code_matches = match &b.asset_code {
            Option::Some(c) => str_eq(c.as_str(), code),
            Option::None => false,
        };
        let issuer_matches = match &b.asset_issuer {
            Option::Some(s) => str_eq(s.as_str(), issuer),
            Option::None => false,
        };
        if code_matches && issuer_matches {
            proof {
                lemma_asset_entry_skip(balances@, code@, issuer@, i as int);
                assert(balances@.skip(i as int)[0] == balances@[i as int]);
            }
            return Some(i);
        }
        i = i + 1;
    }
    proof {
        lemma_asset_entry_skip(balances@, code@, issuer@, n as int);
        assert(balances@.skip(n as int) =~= Seq::<AssetBalance>::empty());
    }
    None
}

/// Balance string of the first native entry, if any.
fn find_native_balance(balances: &Vec<AssetBalance>) -> (r: Option<String>)
    ensures
        r is Some <==> native_balance_of(balances@) is Some,
        r is Some ==> r->0@ == native_balance_of(balances@)->0,
{
    let n = balances.len();
    let mut i: usize = 0;
    while i < n
        invariant
            0 <= i <= n,
            n == balances@.len(),
            forall|j: int| 0 <= j < i ==> !is_native_entry(#[trigger] balances@[j]),
        decreases n - i,
    {
        let b = &balances[i];
        if str_eq(b.asset_type.as_str(), "native") {
            proof {
                lemma_native_balance_skip(balances@, i as int);
                assert(balances@.skip(i as int)[0] == balances@[i as int]);
            }
            return Some(b.balance.clone());
        }
        i = i + 1;
    }
    proof {
        lemma_native_balance_skip(balances@, n as int);
        assert(balances@.skip(n as int) =~= Seq::<AssetBalance>::empty());
    }
    None
}

impl TrustlineManager {
    /// A manager for one asset, named by code and issuing account.
    pub fn new(asset_code: String, asset_issuer: String) -> (r: TrustlineManager)
        ensures
            r.asset_code == asset_code,
            r.asset_issuer == asset_issuer,
    {
        TrustlineManager { asset_code, asset_issuer }
    }

    /// Scans a freshly fetched account for this asset's trustline. Absence
    /// of a balance entry means no trustline: `exists` is false and both
    /// balance and authorization are absent.
    pub fn check_trustline(&self, account: &StellarAccountInfo) -> (r: TrustlineStatus)
        ensures
            r.exists == (asset_entry_of(
                account.balances@,
                self.asset_code@,
                self.asset_issuer@,
            ) is Some),
            !r.exists ==> r.balance is None && r.authorized is None,
            r.exists ==> {
                let entry = asset_entry_of(
                    account.balances@,
                    self.asset_code@,
                    self.asset_issuer@,
                )->0;
                &&& r.balance matches Some(b) && b@ == entry.balance@
                &&& r.authorized == Option::Some(entry.is_authorized)
            },
    {
        match find_asset_entry(&account.balances, self.asset_code.as_str(),
            self.asset_issuer.as_str()) {
            Option::Some(i) => {
                let entry = &account.balances[i];
                TrustlineStatus {
                    exists: true,
                    balance: Some(entry.balance.clone()),
                    authorized: Some(entry.is_authorized),
                }
            },
            Option::None => TrustlineStatus { exists: false, balance: None, authorized: None },
        }
    }

    /// Builds (but does not submit) an unsigned change-trust draft for this
    /// asset. Fails with `InvalidAddress` on a malformed account identifier;
    /// no network interaction is involved.
    pub fn create_trustline_tx(&self, account_id: &str) -> (r: Result<
        TrustlineTransaction,
        StellarError,
    >)
        ensures
            r is Ok <==> valid_account_id(account_id@),
            r is Ok ==> {
                &&& r->Ok_0.account_id@ == account_id@
                &&& r->Ok_0.asset_code == self.asset_code
                &&& r->Ok_0.asset_issuer == self.asset_issuer
                &&& r->Ok_0.operation@ == "change_trust"@
            },
            r is Err ==> (r->Err_0 matches StellarError::InvalidAddress { address: a } && a@
                == account_id@),
    {
        if !is_valid_stellar_address(account_id) {
            return Err(StellarError::InvalidAddress { address: account_id.to_owned() });
        }
        Ok(TrustlineTransaction {
            account_id: account_id.to_owned(),
            asset_code: self.asset_code.clone(),
            asset_issuer: self.asset_issuer.clone(),
            operation: String::from_str("change_trust"),
        })
    }

    /// True iff the trustline exists and is authorized — an entry that is
    /// merely present but unauthorized (possible under restrictive-asset
    /// flags) does not verify.
    pub fn verify_trustline(&self, account: &StellarAccountInfo) -> (r: bool)
        ensures
            r == {
                let entry = asset_entry_of(
                    account.balances@,
                    self.asset_code@,
                    self.asset_issuer@,
                );
                entry is Some && entry->0.is_authorized
            },
    {
        match find_asset_entry(&account.balances, self.asset_code.as_str(),
            self.asset_issuer.as_str()) {
            Option::Some(i) => account.balances[i].is_authorized,
            Option::None => false,
        }
    }

    /// Checks that the account's native balance covers the minimum reserve
    /// for holding this trustline: two base reserves plus one per subentry,
    /// plus one more when the trustline would be a new subentry. Fails with
    /// a validation error when the balance falls short, when the account has
    /// no native entry, or when the native balance string cannot be read.
    pub fn validate_min_balance(&self, account: &StellarAccountInfo) -> (r: Result<
        (),
        StellarError,
    >)
        ensures
            r is Err ==> r->Err_0 is ValidationError,
            native_balance_of(account.balances@) is None ==> r is Err,
            native_balance_of(account.balances@) matches Some(bal) ==> {
                &&& !amount_representable(bal) ==> r is Err
                &&& amount_representable(bal) ==> (r is Ok <==> stroops_of_body(bal)
                    >= spec_required_reserve(
                    account.subentry_count,
                    asset_entry_of(account.balances@, self.asset_code@, self.asset_issuer@)
                        is None,
                ))
            },
    {
        let native = match find_native_balance(&account.balances) {
            Option::Some(b) => b,
            Option::None => {
                return Err(StellarError::ValidationError {
                    message: String::from_str("account holds no native balance entry"),
                });
            },
        };
        let stroops = match amount_to_stroops(native.as_str()) {
            Option::Some(v) => v,
            Option::None => {
                return Err(StellarError::ValidationError {
                    message: String::from_str("native balance is not a readable amount"),
                });
            },
        };
        let has_trustline = find_asset_entry(&account.balances, self.asset_code.as_str(),
            self.asset_issuer.as_str()).is_some();
        let extra: u64 = if has_trustline {
            0
        } else {
            1
        };
        let required = (2 + account.subentry_count as u64 + extra) * BASE_RESERVE_STROOPS;
        proof {
            crate::amount::lemma_stroops_nonneg(native@);
        }
        if (stroops as u64) < required {
            return Err(StellarError::ValidationError {
                message: String::from_str("native balance below the minimum reserve"),
            });
        }
        Ok(())
    }
}

} // verus!
