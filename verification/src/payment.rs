//! Payment transaction builder: validates a payment, builds an immutable
//! draft around a freshly fetched sequence number, and signs the draft into
//! a submittable binary envelope bound to the network passphrase.
//!
//! Signing is pure computation: it performs no network interaction, and the
//! caller-supplied secret seed is used transiently and never stored.

use vstd::prelude::*;

use vstd::utf8::encode_utf8;

use crate::amount::{
    amount_representable, amount_to_stroops, is_positive_amount, is_positive_decimal,
    lemma_stroops_nonneg, stroops_of_body,
};
use crate::client::StellarClient;
use crate::config::{spec_network_passphrase, StellarNetwork};
use crate::crypto::{ed25519_pub_of, ed25519_public, ed25519_sig_of, ed25519_sign, sha256,
    sha256_of};
use crate::encode::{base64_chars, base64_encode, hex_chars, hex_encode};
use crate::errors::StellarError;
use crate::strkey::{
    decode_strkey, strkey_payload, well_formed_strkey, VERSION_ACCOUNT, VERSION_SEED,
};
use crate::types::{is_valid_stellar_address, valid_account_id};
use crate::xdr::{
    be_i64, be_u32, be_u64, push_be_i64, push_be_u32, push_be_u64, push_bytes, push_opaque,
    push_zeros, xdr_opaque, zero_bytes,
};

verus! {

/// The network minimum fee for a single-operation transaction, in stroops.
pub const BASE_FEE_STROOPS: u32 = 100;

/// The memo attached to a payment.
#[derive(Debug, Clone)]
pub enum PaymentMemo {
    /// No memo.
    Empty,
    /// A text memo of at most 28 bytes.
    Text(String),
    /// A 64-bit identifier memo.
    Id(u64),
    /// A 32-byte hash memo.
    Hash(Vec<u8>),
}

/// The payment a caller asks for.
#[derive(Debug, Clone)]
pub struct PaymentOperation {
    pub source: String,
    pub destination: String,
    pub amount: String,
    pub asset_code: String,
    pub asset_issuer: String,
}

/// An unsigned payment draft. Immutable once built; the sequence number was
/// captured at build time and the fee is already resolved.
#[derive(Debug, Clone)]
pub struct PaymentTransactionDraft {
    pub source: String,
    pub destination: String,
    pub amount: String,
    pub asset_code: String,
    pub asset_issuer: String,
    pub memo: PaymentMemo,
    pub fee: u32,
    pub sequence: i64,
}

/// A signed transaction: the base64 envelope and the hex transaction hash.
#[derive(Debug, Clone)]
pub struct SignedPaymentTransaction {
    pub envelope_xdr: String,
    pub transaction_hash: String,
}

/// Builder of application-asset payments.
#[derive(Debug, Clone)]
pub struct AfriPaymentBuilder {
    pub client: StellarClient,
}

/// A memo that the envelope can carry.
pub open spec fn spec_memo_valid(m: PaymentMemo) -> bool {
    match m {
        PaymentMemo::Empty => true,
        PaymentMemo::Text(t) => encode_utf8(t@).len() <= 28,
        PaymentMemo::Id(_) => true,
        PaymentMemo::Hash(h) => h@.len() == 32,
    }
}

/// XDR bytes of a memo.
pub open spec fn spec_memo_bytes(m: PaymentMemo) -> Seq<u8> {
    match m {
        PaymentMemo::Empty => be_u32(0),
        PaymentMemo::Text(t) => be_u32(1) + xdr_opaque(encode_utf8(t@)),
        PaymentMemo::Id(v) => be_u32(2) + be_u64(v),
        PaymentMemo::Hash(h) => be_u32(3) + h@,
    }
}

/// An asset code of one to twelve bytes.
pub open spec fn spec_asset_code_valid(code: Seq<char>) -> bool {
    1 <= encode_utf8(code).len() <= 12
}

/// XDR bytes of a credit asset: the four-byte form for short codes, the
/// twelve-byte form otherwise, each followed by the issuing account.
pub open spec fn spec_asset_bytes(code: Seq<char>, issuer_pk: Seq<u8>) -> Seq<u8> {
    let cb = encode_utf8(code);
    if cb.len() <= 4 {
        be_u32(1) + cb + zero_bytes(4 - cb.len()) + be_u32(0) + issuer_pk
    } else {
        be_u32(2) + cb + zero_bytes(12 - cb.len()) + be_u32(0) + issuer_pk
    }
}

/// XDR bytes of an account reference: the Ed25519 key type tag, then the key.
pub open spec fn spec_muxed(pk: Seq<u8>) -> Seq<u8> {
    be_u32(0) + pk
}

/// XDR bytes of a payment operation without a per-operation source account.
pub open spec fn spec_payment_op_bytes(
    dest_pk: Seq<u8>,
    asset: Seq<u8>,
    amount_stroops: i64,
) -> Seq<u8> {
    be_u32(0) + be_u32(1) + spec_muxed(dest_pk) + asset + be_i64(amount_stroops)
}

/// XDR bytes of a single-operation transaction without time bounds.
pub open spec fn spec_tx_bytes(
    source_pk: Seq<u8>,
    fee: u32,
    seq_num: i64,
    memo: Seq<u8>,
    op: Seq<u8>,
) -> Seq<u8> {
    spec_muxed(source_pk) + be_u32(fee) + be_i64(seq_num) + be_u32(0) + memo + be_u32(1) + op
        + be_u32(0)
}

/// Network identifier that signatures commit to: the digest of the
/// network passphrase.
pub open spec fn spec_network_id(n: StellarNetwork) -> Seq<u8> {
    sha256_of(encode_utf8(spec_network_passphrase(n)))
}

/// A draft whose every field can be carried in the binary envelope.
pub open spec fn spec_draft_encodable(d: PaymentTransactionDraft) -> bool {
    &&& well_formed_strkey(d.source@, VERSION_ACCOUNT)
    &&& well_formed_strkey(d.destination@, VERSION_ACCOUNT)
    &&& well_formed_strkey(d.asset_issuer@, VERSION_ACCOUNT)
    &&& amount_representable(d.amount@)
    &&& spec_asset_code_valid(d.asset_code@)
    &&& spec_memo_valid(d.memo)
}

/// XDR bytes of the draft's transaction.
pub open spec fn spec_draft_tx_bytes(d: PaymentTransactionDraft) -> Seq<u8> {
    spec_tx_bytes(
        strkey_payload(d.source@),
        d.fee,
        d.sequence,
        spec_memo_bytes(d.memo),
        spec_payment_op_bytes(
            strkey_payload(d.destination@),
            spec_asset_bytes(d.asset_code@, strkey_payload(d.asset_issuer@)),
            stroops_of_body(d.amount@) as i64,
        ),
    )
}

/// The bytes a signature signs over: network identifier, the envelope type
/// tag, and the transaction. The hash commits to every draft field.
pub open spec fn spec_sig_payload(d: PaymentTransactionDraft, n: StellarNetwork) -> Seq<u8> {
    spec_network_id(n) + be_u32(2) + spec_draft_tx_bytes(d)
}

/// The transaction hash: the digest of the signature payload.
pub open spec fn spec_tx_hash(d: PaymentTransactionDraft, n: StellarNetwork) -> Seq<u8> {
    sha256_of(spec_sig_payload(d, n))
}

/// The decorated signature: the last four public-key bytes as a hint, then
/// the signature over the transaction hash as opaque data.
pub open spec fn spec_decorated_sig(
    d: PaymentTransactionDraft,
    n: StellarNetwork,
    seed: Seq<char>,
) -> Seq<u8> {
    ed25519_pub_of(strkey_payload(seed)).subrange(28, 32) + xdr_opaque(
        ed25519_sig_of(strkey_payload(seed), spec_tx_hash(d, n)),
    )
}

/// The complete signed envelope: the transaction and one decorated signature.
pub open spec fn spec_envelope_bytes(
    d: PaymentTransactionDraft,
    n: StellarNetwork,
    seed: Seq<char>,
) -> Seq<u8> {
    spec_draft_tx_bytes(d) + be_u32(1) + spec_decorated_sig(d, n, seed)
}

/// A payment operation this builder accepts.
pub open spec fn spec_payment_op_valid(op: PaymentOperation) -> bool {
    &&& valid_account_id(op.source@)
    &&& valid_account_id(op.destination@)
    &&& valid_account_id(op.asset_issuer@)
    &&& is_positive_amount(op.amount@)
    &&& amount_representable(op.amount@)
    &&& spec_asset_code_valid(op.asset_code@)
}

/// An acceptable fee override: one that fits the envelope's fee field.
pub open spec fn spec_fee_ok(fee_stroops: Option<u64>) -> bool {
    match fee_stroops {
        Option::Some(v) => v <= u32::MAX,
        Option::None => true,
    }
}

/// The fee a draft carries: the override when given, else the network
/// minimum.
pub open spec fn spec_resolved_fee(fee_stroops: Option<u64>) -> int {
    match fee_stroops {
        Option::Some(v) => v as int,
        Option::None => BASE_FEE_STROOPS as int,
    }
}

/// Appends the XDR bytes of a memo.
fn push_memo(out: &mut Vec<u8>, m: &PaymentMemo)
    requires
        spec_memo_valid(*m),
    ensures
        final(out)@ =~= old(out)@ + spec_memo_bytes(*m),
{
    match m {
        PaymentMemo::Empty => {
            push_be_u32(out, 0);
        },
        PaymentMemo::Text(t) => {
            push_be_u32(out, 1);
            let tb = t.as_str().as_bytes_vec();
            push_opaque(out, &tb);
        },
        PaymentMemo::Id(v) => {
            push_be_u32(out, 2);
            push_be_u64(out, *v);
        },
        PaymentMemo::Hash(h) => {
            push_be_u32(out, 3);
            push_bytes(out, h);
        },
    }
}

/// Appends the XDR bytes of a credit asset.
fn push_asset(out: &mut Vec<u8>, code: &str, issuer_pk: &Vec<u8>)
    requires
        spec_asset_code_valid(code@),
    ensures
        final(out)@ =~= old(out)@ + spec_asset_bytes(code@, issuer_pk@),
{
    let cb = code.as_bytes_vec();
    if cb.len() <= 4 {
        push_be_u32(out, 1);
        push_bytes(out, &cb);
        push_zeros(out, 4 - cb.len());
    } else {
        push_be_u32(out, 2);
        push_bytes(out, &cb);
        push_zeros(out, 12 - cb.len());
    }
    push_be_u32(out, 0);
    push_bytes(out, issuer_pk);
}

/// Builds the XDR bytes of the payment operation.
fn build_payment_op_bytes(dest_pk: &Vec<u8>, code: &str, issuer_pk: &Vec<u8>, stroops: i64) -> (r:
    Vec<u8>)
    requires
        spec_asset_code_valid(code@),
    ensures
        r@ =~= spec_payment_op_bytes(dest_pk@, spec_asset_bytes(code@, issuer_pk@), stroops),
{
    let mut op: Vec<u8> = Vec::new();
    push_be_u32(&mut op, 0);  // no per-operation source account
    push_be_u32(&mut op, 1);  // payment operation
    push_be_u32(&mut op, 0);
    push_bytes(&mut op, dest_pk);
    push_asset(&mut op, code, issuer_pk);
    push_be_i64(&mut op, stroops);
    op
}

/// Builds the XDR bytes of the single-operation transaction.
fn build_tx_bytes(source_pk: &Vec<u8>, fee: u32, seq_num: i64, memo: &PaymentMemo, op: &Vec<u8>)
    -> (r: Vec<u8>)
    requires
        spec_memo_valid(*memo),
    ensures
        r@ =~= spec_tx_bytes(source_pk@, fee, seq_num, spec_memo_bytes(*memo), op@),
{
    let mut tx: Vec<u8> = Vec::new();
    push_be_u32(&mut tx, 0);
    push_bytes(&mut tx, source_pk);
    push_be_u32(&mut tx, fee);
    push_be_i64(&mut tx, seq_num);
    push_be_u32(&mut tx, 0);  // no time bounds
    push_memo(&mut tx, memo);
    push_be_u32(&mut tx, 1);  // one operation
    push_bytes(&mut tx, op);
    push_be_u32(&mut tx, 0);  // extension point
    tx
}

impl AfriPaymentBuilder {
    /// A builder that signs for the client's configured network.
    pub fn new(client: StellarClient) -> (r: AfriPaymentBuilder)
        ensures
            r.client == client,
    {
        AfriPaymentBuilder { client }
    }

    /// Validates a payment operation without touching the network: both
    /// account identifiers and the issuer must be well-formed, the amount a
    /// positive decimal that fits a stroop count, and the asset code one to
    /// twelve bytes.
    pub fn validate_payment_operation(&self, op: &PaymentOperation) -> (r: Result<
        (),
        StellarError,
    >)
        ensures
            r is Ok <==> spec_payment_op_valid(*op),
            !valid_account_id(op.source@) ==> (r matches Err(
                StellarError::InvalidAddress { address: a },
            ) && a@ == op.source@),
            valid_account_id(op.source@) && !valid_account_id(op.destination@) ==> (
            r matches Err(StellarError::InvalidAddress { address: a }) && a@
                == op.destination@),
            valid_account_id(op.source@) && valid_account_id(op.destination@)
                && !valid_account_id(op.asset_issuer@) ==> (r matches Err(
                StellarError::InvalidAddress { address: a },
            ) && a@ == op.asset_issuer@),
            valid_account_id(op.source@) && valid_account_id(op.destination@)
                && valid_account_id(op.asset_issuer@) && r is Err ==> r->Err_0
                is ValidationError,
    {
        if !is_valid_stellar_address(op.source.as_str()) {
            return Err(StellarError::InvalidAddress { address: op.source.clone() });
        }
        if !is_valid_stellar_address(op.destination.as_str()) {
            return Err(StellarError::InvalidAddress { address: op.destination.clone() });
        }
        if !is_valid_stellar_address(op.asset_issuer.as_str()) {
            return Err(StellarError::InvalidAddress { address: op.asset_issuer.clone() });
        }
        if !is_positive_decimal(op.amount.as_str()) {
            return Err(StellarError::ValidationError {
                message: String::from_str("amount must be a positive decimal"),
            });
        }
        if amount_to_stroops(op.amount.as_str()).is_none() {
            return Err(StellarError::ValidationError {
                message: String::from_str("amount does not fit in seven decimal places"),
            });
        }
        let cb = op.asset_code.as_str().as_bytes_vec();
        if cb.len() < 1 || cb.len() > 12 {
            return Err(StellarError::ValidationError {
                message: String::from_str("asset code must be one to twelve bytes"),
            });
        }
        Ok(())
    }

    /// Builds an immutable payment draft: validates every field before any
    /// use of the network-fetched sequence number, carries the amount string
    /// through unmodified, advances the sequence by exactly one, and embeds
    /// the resolved fee — the explicit override, or the network minimum.
    pub fn build_payment(
        &self,
        operation: PaymentOperation,
        memo: PaymentMemo,
        fee_stroops: Option<u64>,
        source_sequence: i64,
    ) -> (r: Result<PaymentTransactionDraft, StellarError>)
        ensures
            r is Ok <==> spec_payment_op_valid(operation) && spec_memo_valid(memo)
                && spec_fee_ok(fee_stroops) && source_sequence < i64::MAX,
            r is Ok ==> {
                &&& r->Ok_0.source == operation.source
                &&& r->Ok_0.destination == operation.destination
                &&& r->Ok_0.amount == operation.amount
                &&& r->Ok_0.asset_code == operation.asset_code
                &&& r->Ok_0.asset_issuer == operation.asset_issuer
                &&& r->Ok_0.memo == memo
                &&& r->Ok_0.fee as int == spec_resolved_fee(fee_stroops)
                &&& r->Ok_0.sequence == source_sequence + 1
            },
            r is Err ==> (r->Err_0 is InvalidAddress || r->Err_0 is ValidationError),
    {
        match self.validate_payment_operation(&operation) {
            Ok(()) => (),
            Err(e) => {
                return Err(e);
            },
        }
        let memo_ok = match &memo {
            PaymentMemo::Empty => true,
            PaymentMemo::Text(t) => {
                let tb = t.as_str().as_bytes_vec();
                tb.len() <= 28
            },
            PaymentMemo::Id(_) => true,
            PaymentMemo::Hash(h) => h.len() == 32,
        };
        if !memo_ok {
            return Err(StellarError::ValidationError {
                message: String::from_str("memo does not fit its envelope form"),
            });
        }
        let fee: u32 = match fee_stroops {
            Option::Some(v) => {
                if v > u32::MAX as u64 {
                    return Err(StellarError::ValidationError {
                        message: String::from_str("fee override exceeds the fee field"),
                    });
                }
                v as u32
            },
            Option::None => BASE_FEE_STROOPS,
        };
        if source_sequence == i64::MAX {
            return Err(StellarError::ValidationError {
                message: String::from_str("source sequence number cannot advance"),
            });
        }
        Ok(PaymentTransactionDraft {
            source: operation.source,
            destination: operation.destination,
            amount: operation.amount,
            asset_code: operation.asset_code,
            asset_issuer: operation.asset_issuer,
            memo,
            fee,
            sequence: source_sequence + 1,
        })
    }

    /// Signs a draft into a submittable envelope bound to this builder's
    /// network passphrase. Pure computation: no network interaction, and the
    /// seed is never stored. A malformed seed fails with a signing error; a
    /// draft whose fields cannot be carried in the envelope fails with a
    /// validation error. On success the envelope bytes and the transaction
    /// hash are exact functions of the draft, the network and the seed.
    #[verifier::rlimit(100)]
    pub fn sign_transaction(&self, draft: PaymentTransactionDraft, secret_seed: &str) -> (r:
        Result<SignedPaymentTransaction, StellarError>)
        ensures
            r is Ok <==> well_formed_strkey(secret_seed@, VERSION_SEED) && spec_draft_encodable(
                draft,
            ),
            !well_formed_strkey(secret_seed@, VERSION_SEED) ==> (r matches Err(e) && e
                is SigningError),
            well_formed_strkey(secret_seed@, VERSION_SEED) && !spec_draft_encodable(draft)
                ==> (r matches Err(e) && e is ValidationError),
            r is Ok ==> r->Ok_0.envelope_xdr@ == base64_chars(
                spec_envelope_bytes(draft, self.client.config.network, secret_seed@),
            ),
            r is Ok ==> r->Ok_0.transaction_hash@ == hex_chars(
                spec_tx_hash(draft, self.client.config.network),
            ),
    {
        let seed_bytes = match decode_strkey(secret_seed, VERSION_SEED) {
            Option::Some(b) => b,
            Option::None => {
                return Err(StellarError::SigningError {
                    message: String::from_str("secret seed is not a well-formed seed key"),
                });
            },
        };
        let source_pk = match decode_strkey(draft.source.as_str(), VERSION_ACCOUNT) {
            Option::Some(b) => b,
            Option::None => {
                return Err(StellarError::ValidationError {
                    message: String::from_str("source account does not decode to a key"),
                });
            },
        };
        let dest_pk = match decode_strkey(draft.destination.as_str(), VERSION_ACCOUNT) {
            Option::Some(b) => b,
            Option::None => {
                return Err(StellarError::ValidationError {
                    message: String::from_str("destination account does not decode to a key"),
                });
            },
        };
        let issuer_pk = match decode_strkey(draft.asset_issuer.as_str(), VERSION_ACCOUNT) {
            Option::Some(b) => b,
            Option::None => {
                return Err(StellarError::ValidationError {
                    message: String::from_str("asset issuer does not decode to a key"),
                });
            },
        };
        let stroops = match amount_to_stroops(draft.amount.as_str()) {
            Option::Some(v) => v,
            Option::None => {
                return Err(StellarError::ValidationError {
                    message: String::from_str("amount does not fit in seven decimal places"),
                });
            },
        };
        let code_bytes = draft.asset_code.as_str().as_bytes_vec();
        if code_bytes.len() < 1 || code_bytes.len() > 12 {
            return Err(StellarError::ValidationError {
                message: String::from_str("asset code must be one to twelve bytes"),
            });
        }
        let memo_ok = match &draft.memo {
            PaymentMemo::Empty => true,
            PaymentMemo::Text(t) => {
                let tb = t.as_str().as_bytes_vec();
                tb.len() <= 28
            },
            PaymentMemo::Id(_) => true,
            PaymentMemo::Hash(h) => h.len() == 32,
        };
        if !memo_ok {
            return Err(StellarError::ValidationError {
                message: String::from_str("memo does not fit its envelope form"),
            });
        }
        proof {
            lemma_stroops_nonneg(draft.amount@);
        }
        // transaction bytes
        let op = build_payment_op_bytes(&dest_pk, draft.asset_code.as_str(), &issuer_pk,
            stroops);
        let tx = build_tx_bytes(&source_pk, draft.fee, draft.sequence, &draft.memo, &op);
        proof {
            assert(tx@ =~= spec_draft_tx_bytes(draft));
        }
        // signature payload and transaction hash
        let passphrase = self.client.config.network.network_passphrase();
        let pp_bytes = passphrase.as_bytes_vec();
        let mut payload = sha256(&pp_bytes);
        push_be_u32(&mut payload, 2);  // envelope type: transaction
        push_bytes(&mut payload, &tx);
        proof {
            assert(payload@ =~= spec_sig_payload(draft, self.client.config.network));
        }
        let hash = sha256(&payload);
        // decorated signature
        let signature = ed25519_sign(&seed_bytes, &hash);
        let public_key = ed25519_public(&seed_bytes);
        let mut envelope = tx;
        push_be_u32(&mut envelope, 1);  // one signature
        let mut hint: Vec<u8> = Vec::new();
        hint.push(public_key[28]);
        hint.push(public_key[29]);
        hint.push(public_key[30]);
        hint.push(public_key[31]);
        proof {
            assert(hint@ =~= public_key@.subrange(28, 32));
        }
        push_bytes(&mut envelope, &hint);
        push_opaque(&mut envelope, &signature);
        proof {
            assert(envelope@ =~= spec_envelope_bytes(
                draft,
                self.client.config.network,
                secret_seed@,
            ));
        }
        let envelope_xdr = base64_encode(&envelope);
        let transaction_hash = hex_encode(&hash);
        Ok(SignedPaymentTransaction { envelope_xdr, transaction_hash })
    }
}

/// The signature payload commits to the sequence number: two drafts whose
/// sequence fields differ have different payload bytes, whatever their other
/// fields hold, so equal transaction hashes would require a digest collision.
pub proof fn lemma_payload_commits_to_sequence(
    d1: PaymentTransactionDraft,
    d2: PaymentTransactionDraft,
    n: StellarNetwork,
)
    requires
        d1.sequence != d2.sequence,
    ensures
        spec_sig_payload(d1, n) != spec_sig_payload(d2, n),
{
    let p1 = spec_sig_payload(d1, n);
    let p2 = spec_sig_payload(d2, n);
    let t1 = spec_draft_tx_bytes(d1);
    let t2 = spec_draft_tx_bytes(d2);
    let base = spec_network_id(n).len() + 4;
    let s1 = be_i64(d1.sequence);
    let s2 = be_i64(d2.sequence);
    // the sequence bytes sit at offset 40..48 of the transaction: after the
    // 36-byte source account reference and the 4-byte fee
    assert(strkey_payload(d1.source@).len() == 32);
    assert(strkey_payload(d2.source@).len() == 32);
    assert(spec_muxed(strkey_payload(d1.source@)).len() == 36);
    assert(spec_muxed(strkey_payload(d2.source@)).len() == 36);
    if p1 == p2 {
        assert forall|k: int| 0 <= k < 8 implies s1[k] == s2[k] by {
            assert(t1[40 + k] == s1[k]);
            assert(t2[40 + k] == s2[k]);
            assert(p1[base + 40 + k] == t1[40 + k]);
            assert(p2[base + 40 + k] == t2[40 + k]);
        }
        assert(s1 =~= s2);
        crate::xdr::lemma_be_u64_injective(d1.sequence as u64, d2.sequence as u64);
        let q1 = d1.sequence;
        let q2 = d2.sequence;
        assert(q1 as u64 != q2 as u64) by (bit_vector)
            requires
                q1 != q2,
        ;
        assert(false);
    }
}

/// Two byte strings that disagree somewhere inside a shared window differ.
proof fn lemma_bytes_differ_in_window(
    p1: Seq<u8>,
    p2: Seq<u8>,
    off: int,
    w1: Seq<u8>,
    w2: Seq<u8>,
)
    requires
        w1.len() == w2.len(),
        w1 != w2,
        0 <= off,
        off + w1.len() <= p1.len(),
        off + w2.len() <= p2.len(),
        forall|k: int| 0 <= k < w1.len() ==> p1[off + k] == #[trigger] w1[k],
        forall|k: int| 0 <= k < w2.len() ==> p2[off + k] == #[trigger] w2[k],
    ensures
        p1 != p2,
{
    if p1 == p2 {
        assert forall|k: int| 0 <= k < w1.len() implies w1[k] == w2[k] by {
            assert(p1[off + k] == p2[off + k]);
        }
        assert(w1 =~= w2);
    }
}

/// The signature payload commits to the source account key: two drafts whose
/// source keys decode differently have different payload bytes, whatever
/// their other fields hold.
pub proof fn lemma_payload_commits_to_source(
    d1: PaymentTransactionDraft,
    d2: PaymentTransactionDraft,
    n: StellarNetwork,
)
    requires
        strkey_payload(d1.source@) != strkey_payload(d2.source@),
    ensures
        spec_sig_payload(d1, n) != spec_sig_payload(d2, n),
{
    let p1 = spec_sig_payload(d1, n);
    let p2 = spec_sig_payload(d2, n);
    let t1 = spec_draft_tx_bytes(d1);
    let t2 = spec_draft_tx_bytes(d2);
    let pk1 = strkey_payload(d1.source@);
    let pk2 = strkey_payload(d2.source@);
    let off = spec_network_id(n).len() + 4 + 4;
    assert(pk1.len() == 32 && pk2.len() == 32);
    assert forall|k: int| 0 <= k < 32 implies p1[off + k] == #[trigger] pk1[k] && p2[off + k]
        == #[trigger] pk2[k] by {
        assert(t1[4 + k] == pk1[k]);
        assert(t2[4 + k] == pk2[k]);
        assert(p1[off + k] == t1[4 + k]);
        assert(p2[off + k] == t2[4 + k]);
    }
    lemma_bytes_differ_in_window(p1, p2, off as int, pk1, pk2);
}

/// The signature payload commits to the fee: two drafts with different fees
/// have different payload bytes, whatever their other fields hold.
pub proof fn lemma_payload_commits_to_fee(
    d1: PaymentTransactionDraft,
    d2: PaymentTransactionDraft,
    n: StellarNetwork,
)
    requires
        d1.fee != d2.fee,
    ensures
        spec_sig_payload(d1, n) != spec_sig_payload(d2, n),
{
    let p1 = spec_sig_payload(d1, n);
    let p2 = spec_sig_payload(d2, n);
    let t1 = spec_draft_tx_bytes(d1);
    let t2 = spec_draft_tx_bytes(d2);
    let w1 = be_u32(d1.fee);
    let w2 = be_u32(d2.fee);
    let off = spec_network_id(n).len() + 4 + 36;
    assert(spec_muxed(strkey_payload(d1.source@)).len() == 36);
    assert(spec_muxed(strkey_payload(d2.source@)).len() == 36);
    assert forall|k: int| 0 <= k < 4 implies p1[off + k] == #[trigger] w1[k] && p2[off + k]
        == #[trigger] w2[k] by {
        assert(t1[36 + k] == w1[k]);
        assert(t2[36 + k] == w2[k]);
        assert(p1[off + k] == t1[36 + k]);
        assert(p2[off + k] == t2[36 + k]);
    }
    assert(w1 != w2) by {
        if w1 == w2 {
            crate::xdr::lemma_be_u32_injective(d1.fee, d2.fee);
        }
    }
    lemma_bytes_differ_in_window(p1, p2, off as int, w1, w2);
}

/// The signature payload commits to the amount: two drafts that agree on
/// every other field but carry different stroop counts have different
/// payload bytes, so equal transaction hashes would require a digest
/// collision.
pub proof fn lemma_payload_commits_to_amount(
    d1: PaymentTransactionDraft,
    d2: PaymentTransactionDraft,
    n: StellarNetwork,
)
    requires
        d1.source == d2.source,
        d1.destination == d2.destination,
        d1.asset_code == d2.asset_code,
        d1.asset_issuer == d2.asset_issuer,
        d1.memo == d2.memo,
        d1.fee == d2.fee,
        d1.sequence == d2.sequence,
        amount_representable(d1.amount@),
        amount_representable(d2.amount@),
        stroops_of_body(d1.amount@) != stroops_of_body(d2.amount@),
    ensures
        spec_sig_payload(d1, n) != spec_sig_payload(d2, n),
{
    let p1 = spec_sig_payload(d1, n);
    let p2 = spec_sig_payload(d2, n);
    let t1 = spec_draft_tx_bytes(d1);
    let t2 = spec_draft_tx_bytes(d2);
    let nid = spec_network_id(n);
    lemma_stroops_nonneg(d1.amount@);
    lemma_stroops_nonneg(d2.amount@);
    let s1 = stroops_of_body(d1.amount@) as i64;
    let s2 = stroops_of_body(d2.amount@) as i64;
    // everything before and after the amount bytes is shared
    let op_head = be_u32(0) + be_u32(1) + spec_muxed(strkey_payload(d1.destination@))
        + spec_asset_bytes(d1.asset_code@, strkey_payload(d1.asset_issuer@));
    let head = spec_muxed(strkey_payload(d1.source@)) + be_u32(d1.fee) + be_i64(d1.sequence)
        + be_u32(0) + spec_memo_bytes(d1.memo) + be_u32(1) + op_head;
    assert(t1 =~= head + be_i64(s1) + be_u32(0));
    assert(t2 =~= head + be_i64(s2) + be_u32(0));
    if p1 == p2 {
        let off = nid.len() + 4 + head.len();
        assert forall|k: int| 0 <= k < 8 implies be_i64(s1)[k] == be_i64(s2)[k] by {
            assert(p1[off + k] == t1[head.len() + k]);
            assert(p2[off + k] == t2[head.len() + k]);
            assert(t1[head.len() + k] == be_i64(s1)[k]);
            assert(t2[head.len() + k] == be_i64(s2)[k]);
        }
        assert(be_i64(s1) =~= be_i64(s2));
        crate::xdr::lemma_be_u64_injective(s1 as u64, s2 as u64);
        assert(s1 as u64 != s2 as u64) by (bit_vector)
            requires
                s1 != s2,
        ;
        assert(false);
    }
}

/// Signing is deterministic: the envelope and the transaction hash are
/// functions of the draft, the network and the seed alone, so signing the
/// same draft twice with the same seed yields identical envelope bytes and
/// an identical hash.
pub proof fn lemma_signing_deterministic(
    d: PaymentTransactionDraft,
    n: StellarNetwork,
    seed: Seq<char>,
    r1: SignedPaymentTransaction,
    r2: SignedPaymentTransaction,
)
    requires
        r1.envelope_xdr@ == base64_chars(spec_envelope_bytes(d, n, seed)),
        r1.transaction_hash@ == hex_chars(spec_tx_hash(d, n)),
        r2.envelope_xdr@ == base64_chars(spec_envelope_bytes(d, n, seed)),
        r2.transaction_hash@ == hex_chars(spec_tx_hash(d, n)),
    ensures
        r1.envelope_xdr@ == r2.envelope_xdr@,
        r1.transaction_hash@ == r2.transaction_hash@,
{
}

} // verus!
