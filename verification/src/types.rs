//! Domain account types, the account-identifier validator, and the explicit
//! conversion from the gateway's wire-level account representation.
//!
//! The gateway's response schema is decoded (outside this library) into
//! [`HorizonAccount`] / [`HorizonBalance`] and converted here into the domain
//! types, isolating the rest of the system from upstream schema drift.

use vstd::prelude::*;

use crate::amount::{i64_str_value_or_zero, parse_i64_or_zero};
use crate::text::str_eq;

verus! {

/// The character every ledger account identifier starts with.
pub open spec fn account_id_prefix() -> char {
    'G'
}

/// An account identifier character: ASCII alphanumeric.
pub open spec fn is_account_id_char(c: char) -> bool {
    ('0' <= c && c <= '9') || ('A' <= c && c <= 'Z') || ('a' <= c && c <= 'z')
}

/// A syntactically well-formed ledger account identifier: exactly 56
/// characters, starting with the account prefix, all alphanumeric.
/// This is a syntactic check only; it verifies neither the checksum nor the
/// existence of the account.
pub open spec fn valid_account_id(s: Seq<char>) -> bool {
    &&& s.len() == 56
    &&& s[0] == account_id_prefix()
    &&& forall|i: int| 0 <= i < s.len() ==> is_account_id_char(#[trigger] s[i])
}

/// Syntactic validation of a ledger account identifier.
pub fn is_valid_stellar_address(address: &str) -> (r: bool)
    ensures
        r == valid_account_id(address@),
{
    let n = address.unicode_len();
    if n != 56 {
        return false;
    }
    let first = address.get_char(0);
    if first != 'G' {
        return false;
    }
    let mut i: usize = 1;
    while i < 56
        invariant
            n == 56,
            address@.len() == 56,
            address@[0] == 'G',
            1 <= i <= 56,
            forall|j: int| 0 <= j < i ==> is_account_id_char(#[trigger] address@[j]),
        decreases 56 - i,
    {
        let c = address.get_char(i);
        let v = c as u32;
        let alnum = (48 <= v && v <= 57) || (65 <= v && v <= 90) || (97 <= v && v <= 122);
        if !alnum {
            return false;
        }
        i = i + 1;
    }
    true
}

/// Every string of the wrong length, with the wrong first character, or
/// holding a character outside the alphanumeric set fails account-identifier
/// validation.
pub proof fn lemma_invalid_account_id_rejected(s: Seq<char>)
    ensures
        s.len() != 56 ==> !valid_account_id(s),
        s.len() > 0 && s[0] != account_id_prefix() ==> !valid_account_id(s),
        (exists|i: int| 0 <= i < s.len() && !is_account_id_char(#[trigger] s[i]))
            ==> !valid_account_id(s),
{
}

/// Operation thresholds of an account.
#[derive(Debug, Clone, Copy, PartialEq, Eq, Structural)]
pub struct Thresholds {
    pub low_threshold: u8,
    pub med_threshold: u8,
    pub high_threshold: u8,
}

/// Authorization flags of an account.
#[derive(Debug, Clone, Copy, PartialEq, Eq, Structural)]
pub struct AccountFlags {
    pub auth_required: bool,
    pub auth_revocable: bool,
    pub auth_immutable: bool,
    pub auth_clawback_enabled: bool,
}

/// One balance entry of an account. The balance itself stays a decimal
/// string of arbitrary precision.
#[derive(Debug, Clone)]
pub struct AssetBalance {
    pub asset_type: String,
    pub asset_code: Option<String>,
    pub asset_issuer: Option<String>,
    pub balance: String,
    pub limit: String,
    pub is_authorized: bool,
    pub is_authorized_to_maintain_liabilities: bool,
    pub last_modified_ledger: Option<u32>,
}

/// A signer entry of an account.
#[derive(Debug, Clone)]
pub struct Signer {
    pub key: String,
    pub weight: u8,
    pub signer_type: String,
}

/// The domain view of a ledger account. Never mutated locally: always
/// re-fetched from the gateway.
#[derive(Debug, Clone)]
pub struct StellarAccountInfo {
    pub account_id: String,
    pub sequence: i64,
    pub subentry_count: u32,
    pub thresholds: Thresholds,
    pub flags: AccountFlags,
    pub balances: Vec<AssetBalance>,
    pub signers: Vec<Signer>,
    pub data: Vec<(String, String)>,
    pub last_modified_ledger: u32,
    pub created_at: String,
}

/// Wire-level balance entry as the gateway reports it.
#[derive(Debug, Clone)]
pub struct HorizonBalance {
    pub asset_type: String,
    pub asset_code: Option<String>,
    pub asset_issuer: Option<String>,
    pub balance: String,
    pub limit: String,
    pub is_authorized: bool,
    pub is_authorized_to_maintain_liabilities: bool,
    pub last_modified_ledger: Option<u64>,
}

/// Wire-level account record as the gateway reports it. The sequence number
/// arrives as a string and is parsed during conversion.
#[derive(Debug, Clone)]
pub struct HorizonAccount {
    pub id: String,
    pub account_id: String,
    pub sequence: String,
    pub subentry_count: u32,
    pub thresholds: Thresholds,
    pub flags: AccountFlags,
    pub balances: Vec<HorizonBalance>,
    pub signers: Vec<Signer>,
    pub data: Vec<(String, String)>,
    pub last_modified_ledger: u64,
    pub created_at: Option<String>,
}

/// Result of a single gateway health probe.
#[derive(Debug, Clone)]
pub struct HealthStatus {
    pub is_healthy: bool,
    pub horizon_url: String,
    pub response_time_ms: u64,
    pub last_check: String,
    pub error_message: Option<String>,
}

/// The domain balance entry a wire-level entry converts to.
pub open spec fn spec_balance_from_horizon(b: HorizonBalance) -> AssetBalance {
    AssetBalance {
        asset_type: b.asset_type,
        asset_code: b.asset_code,
        asset_issuer: b.asset_issuer,
        balance: b.balance,
        limit: b.limit,
        is_authorized: b.is_authorized,
        is_authorized_to_maintain_liabilities: b.is_authorized_to_maintain_liabilities,
        last_modified_ledger: match b.last_modified_ledger {
            Option::Some(v) => Option::Some(v as u32),
            Option::None => Option::None,
        },
    }
}

/// Converts a wire-level balance entry into the domain type.
pub fn asset_balance_from_horizon(b: HorizonBalance) -> (r: AssetBalance)
    ensures
        r == spec_balance_from_horizon(b),
{
    AssetBalance {
        asset_type: b.asset_type,
        asset_code: b.asset_code,
        asset_issuer: b.asset_issuer,
        balance: b.balance,
        limit: b.limit,
        is_authorized: b.is_authorized,
        is_authorized_to_maintain_liabilities: b.is_authorized_to_maintain_liabilities,
        last_modified_ledger: match b.last_modified_ledger {
            Option::Some(v) => Option::Some(#[verifier::truncate] (v as u32)),
            Option::None => Option::None,
        },
    }
}

/// How a converted account relates to the wire-level record it came from.
/// The fallback timestamp is used when the gateway omits `created_at`.
pub open spec fn account_info_matches(
    r: StellarAccountInfo,
    h: HorizonAccount,
    fallback_created_at: Seq<char>,
) -> bool {
    &&& r.account_id == h.account_id
    &&& r.sequence as int == i64_str_value_or_zero(h.sequence@)
    &&& r.subentry_count == h.subentry_count
    &&& r.thresholds == h.thresholds
    &&& r.flags == h.flags
    &&& r.balances@.len() == h.balances@.len()
    &&& forall|i: int|
        0 <= i < h.balances@.len() ==> r.balances@[i] == spec_balance_from_horizon(
            #[trigger] h.balances@[i],
        )
    &&& r.signers@ == h.signers@
    &&& r.data@ == h.data@
    &&& r.last_modified_ledger == h.last_modified_ledger as u32
    &&& r.created_at@ == (match h.created_at {
        Option::Some(c) => c@,
        Option::None => fallback_created_at,
    })
}

/// Converts a wire-level account record into the domain type. The caller
/// supplies the timestamp to fall back on when the gateway omits
/// `created_at`.
pub fn account_info_from_horizon(h: HorizonAccount, fallback_created_at: String) -> (r:
    StellarAccountInfo)
    ensures
        account_info_matches(r, h, fallback_created_at@),
{
    let ghost orig = h;
    let HorizonAccount {
        id: _,
        account_id,
        sequence,
        subentry_count,
        thresholds,
        flags,
        mut balances,
        signers,
        data,
        last_modified_ledger,
        created_at,
    } = h;
    let seq_num = parse_i64_or_zero(sequence.as_str());
    let mut converted: Vec<AssetBalance> = Vec::new();
    let ghost wire = balances@;
    let n0 = balances.len();
    proof {
        assert(wire.len() == n0);
    }
    let mut i: usize = 0;
    while balances.len() > 0
        invariant
            converted@.len() == i,
            wire.len() <= usize::MAX,
            i + balances@.len() == wire.len(),
            balances@ =~= wire.skip(i as int),
            forall|j: int|
                0 <= j < i ==> converted@[j] == spec_balance_from_horizon(#[trigger] wire[j]),
        decreases balances@.len(),
    {
        let b = balances.remove(0);
        proof {
            assert(b == wire[i as int]);
            assert(balances@ =~= wire.skip(i as int + 1));
        }
        converted.push(asset_balance_from_horizon(b));
        i = i + 1;
    }
    let created = match created_at {
        Option::Some(c) => c,
        Option::None => fallback_created_at,
    };
    StellarAccountInfo {
        account_id,
        sequence: seq_num,
        subentry_count,
        thresholds,
        flags,
        balances: converted,
        signers,
        data,
        last_modified_ledger: #[verifier::truncate] (last_modified_ledger as u32),
        created_at: created,
    }
}

/// The balance-list invariant: at most one entry is the native asset, and
/// every other entry carries both an asset code and an issuer.
pub open spec fn balances_well_formed(s: Seq<AssetBalance>) -> bool {
    &&& forall|i: int, j: int|
        0 <= i < j < s.len() && #[trigger] s[i].asset_type@ == "native"@
            ==> #[trigger] s[j].asset_type@ != "native"@
    &&& forall|i: int|
        0 <= i < s.len() && (#[trigger] s[i].asset_type@) != "native"@ ==> s[i].asset_code
            is Some && s[i].asset_issuer is Some
}

/// Checks the balance-list invariant on a gateway-provided list.
pub fn check_balances_well_formed(balances: &Vec<AssetBalance>) -> (r: bool)
    ensures
        r == balances_well_formed(balances@),
{
    let n = balances.len();
    let mut seen_native = false;
    let mut i: usize = 0;
    while i < n
        invariant
            0 <= i <= n,
            n == balances@.len(),
            seen_native == exists|j: int|
                0 <= j < i && (#[trigger] balances@[j].asset_type@) == "native"@,
            forall|a: int, b: int|
                0 <= a < b < i && #[trigger] balances@[a].asset_type@ == "native"@
                    ==> #[trigger] balances@[b].asset_type@ != "native"@,
            forall|a: int|
                0 <= a < i && (#[trigger] balances@[a].asset_type@) != "native"@
                    ==> balances@[a].asset_code is Some && balances@[a].asset_issuer is Some,
        decreases n - i,
    {
        let b = &balances[i];
        if str_eq(b.asset_type.as_str(), "native") {
            if seen_native {
                return false;
            }
            seen_native = true;
        } else {
            if b.asset_code.is_none() || b.asset_issuer.is_none() {
                return false;
            }
        }
        i = i + 1;
    }
    true
}

/// Asset code of the application token.
pub open spec fn afri_asset_code() -> Seq<char> {
    "AFRI"@
}

/// A balance entry that holds the application token: a four-character
/// alphanumeric credit line whose code is the application asset code.
pub open spec fn is_afri_entry(b: AssetBalance) -> bool {
    &&& b.asset_type@ == "credit_alphanum4"@
    &&& b.asset_code is Some
    &&& b.asset_code->0@ == afri_asset_code()
}

/// Balance string of the first entry holding the application token, if any.
pub open spec fn afri_balance_of(s: Seq<AssetBalance>) -> Option<Seq<char>>
    decreases s.len(),
{
    if s.len() == 0 {
        Option::None
    } else if is_afri_entry(s[0]) {
        Option::Some(s[0].balance@)
    } else {
        afri_balance_of(s.drop_first())
    }
}

/// Skipping entries that do not hold the token does not change the answer.
proof fn lemma_afri_balance_skip(s: Seq<AssetBalance>, i: int)
    requires
        0 <= i <= s.len(),
        forall|j: int| 0 <= j < i ==> !is_afri_entry(#[trigger] s[j]),
    ensures
        afri_balance_of(s) == afri_balance_of(s.skip(i)),
    decreases i,
{
    if i > 0 {
        lemma_afri_balance_skip(s, i - 1);
        assert(s.skip(i - 1).len() > 0);
        assert(s.skip(i - 1)[0] == s[i - 1]);
        assert(s.skip(i - 1).drop_first() =~= s.skip(i));
    } else {
        assert(s.skip(0) =~= s);
    }
}

/// Scans the balance list for the application token and returns its balance
/// string, or nothing when no trustline for the token exists.
pub fn extract_afri_balance(balances: &Vec<AssetBalance>) -> (r: Option<String>)
    ensures
        r is Some <==> afri_balance_of(balances@) is Some,
        r is Some ==> r->0@ == afri_balance_of(balances@)->0,
{
    let n = balances.len();
    let mut i: usize = 0;
    while i < n
        invariant
            0 <= i <= n,
            n == balances@.len(),
            forall|j: int| 0 <= j < i ==> !is_afri_entry(#[trigger] balances@[j]),
        decreases n - i,
    {
        let b = &balances[i];
        let type_matches = str_eq(b.asset_type.as_str(), "credit_alphanum4");
        let code_matches = match &b.asset_code {
            Option::Some(code) => str_eq(code.as_str(), "AFRI"),
            Option::None => false,
        };
        if type_matches && code_matches {
            proof {
                lemma_afri_balance_skip(balances@, i as int);
                assert(balances@.skip(i as int)[0] == balances@[i as int]);
                assert(is_afri_entry(balances@[i as int]));
            }
            return Some(b.balance.clone());
        }
        proof {
            assert(!is_afri_entry(balances@[i as int]));
        }
        i = i + 1;
    }
    proof {
        lemma_afri_balance_skip(balances@, n as int);
        assert(balances@.skip(n as int) =~= Seq::<AssetBalance>::empty());
    }
    None
}

} // verus!
