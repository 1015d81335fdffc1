//! Deterministic binary encoding of the bounded records: fixed-width
//! little-endian integers and length-prefixed byte fields, so that the same
//! logical value always encodes to the same bytes and every bounded field's
//! worst-case encoded size is known to the storage layer.

use vstd::prelude::*;
use crate::convert::spec_policy_of;
use crate::types::{Dao, DaoConfig, DaoPayload, DaoPolicy};

verus! {

/// Number of bytes of the length prefix of an encoded byte field.
pub const LEN_PREFIX_BYTES: usize = 4;

/// Number of bytes of an encoded 32-bit integer.
pub const U32_BYTES: usize = 4;

/// Number of bytes of an encoded 128-bit integer.
pub const U128_BYTES: usize = 16;

/// The `n` little-endian base-256 digits of `v`.
pub open spec fn enc_uint_le(v: nat, n: nat) -> Seq<u8>
    decreases n,
{
    if n == 0 {
        Seq::empty()
    } else {
        seq![(v % 256) as u8] + enc_uint_le(v / 256, (n - 1) as nat)
    }
}

/// An encoded integer takes exactly its declared width.
pub proof fn lemma_enc_uint_le_len(v: nat, n: nat)
    ensures
        enc_uint_le(v, n).len() == n,
    decreases n,
{
    if n > 0 {
        lemma_enc_uint_le_len(v / 256, (n - 1) as nat);
    }
}

/// A byte field encodes as a 4-byte little-endian length prefix followed by
/// the bytes themselves.
pub open spec fn enc_bytes(b: Seq<u8>) -> Seq<u8> {
    enc_uint_le(b.len(), LEN_PREFIX_BYTES as nat) + b
}

/// An optional 128-bit amount encodes as a presence byte, followed by the
/// amount when present.
pub open spec fn enc_option_u128(o: Option<u128>) -> Seq<u8> {
    match o {
        None => seq![0u8],
        Some(v) => seq![1u8] + enc_uint_le(v as nat, U128_BYTES as nat),
    }
}

/// The encoding of a bounded configuration: its three byte fields in
/// declaration order, each length-prefixed.
pub open spec fn enc_config(c: DaoConfig) -> Seq<u8> {
    enc_bytes(c.name@) + enc_bytes(c.purpose@) + enc_bytes(c.metadata@)
}

/// The encoding of a policy whose prime account is already in on-ledger
/// byte form: every field in declaration order.
pub open spec fn enc_policy(p: DaoPolicy<Vec<u8>>) -> Seq<u8> {
    enc_uint_le(p.proposal_bond as nat, U32_BYTES as nat) + enc_uint_le(
        p.proposal_bond_min as nat,
        U128_BYTES as nat,
    ) + enc_option_u128(p.proposal_bond_max) + enc_uint_le(p.proposal_period as nat, U32_BYTES as nat)
        + enc_bytes(p.prime_account@) + enc_uint_le(p.approve_origin.numerator as nat, U32_BYTES as nat)
        + enc_uint_le(p.approve_origin.denominator as nat, U32_BYTES as nat) + enc_uint_le(
        p.reject_origin.numerator as nat,
        U32_BYTES as nat,
    ) + enc_uint_le(p.reject_origin.denominator as nat, U32_BYTES as nat)
}

/// The encoding of a DAO aggregate whose accounts are already in on-ledger
/// byte form: founder, derived account, token identifier, configuration.
pub open spec fn enc_dao(d: Dao<Vec<u8>, u32>) -> Seq<u8> {
    enc_bytes(d.founder@) + enc_bytes(d.account_id@) + enc_uint_le(
        d.token_id as nat,
        U32_BYTES as nat,
    ) + enc_config(d.config)
}

/// Writes the `n` little-endian base-256 digits of `v` after `out`.
fn push_uint_le(out: &mut Vec<u8>, v: u128, n: usize)
    ensures
        final(out)@ == old(out)@ + enc_uint_le(v as nat, n as nat),
{
    let mut cur = v;
    let mut i: usize = 0;
    while i < n
        invariant
            0 <= i <= n,
            out@ + enc_uint_le(cur as nat, (n - i) as nat) == old(out)@ + enc_uint_le(
                v as nat,
                n as nat,
            ),
        decreases n - i,
    {
        proof {
            assert(enc_uint_le(cur as nat, (n - i) as nat) == seq![(cur as nat % 256) as u8]
                + enc_uint_le(cur as nat / 256, (n - i - 1) as nat));
            assert(out@.push((cur % 256) as u8) + enc_uint_le(cur as nat / 256, (n - i - 1) as nat)
                =~= out@ + enc_uint_le(cur as nat, (n - i) as nat));
        }
        out.push((cur % 256) as u8);
        cur = cur / 256;
        i = i + 1;
    }
    proof {
        assert(out@ + enc_uint_le(cur as nat, 0) =~= out@);
    }
}

/// Writes a length-prefixed byte field after `out`.
fn push_bytes_field(out: &mut Vec<u8>, b: &Vec<u8>)
    requires
        b@.len() < 0x1_0000_0000,
    ensures
        final(out)@ == old(out)@ + enc_bytes(b@),
{
    push_uint_le(out, b.len() as u128, LEN_PREFIX_BYTES);
    let ghost mid = out@;
    let mut i: usize = 0;
    while i < b.len()
        invariant
            0 <= i <= b@.len(),
            out@ == mid + b@.take(i as int),
        decreases b@.len() - i,
    {
        proof {
            assert(mid + b@.take(i + 1) =~= (mid + b@.take(i as int)).push(b@[i as int]));
        }
        out.push(b[i]);
        i = i + 1;
    }
    proof {
        assert(b@.take(b@.len() as int) =~= b@);
        assert(old(out)@ + (enc_uint_le(b@.len(), LEN_PREFIX_BYTES as nat) + b@) =~= (old(out)@
            + enc_uint_le(b@.len(), LEN_PREFIX_BYTES as nat)) + b@);
    }
}

/// Encodes a bounded configuration deterministically: the encoding depends
/// on the field values alone.
pub fn encode_config(c: &DaoConfig) -> (r: Vec<u8>)
    requires
        c.name@.len() < 0x1_0000_0000,
        c.purpose@.len() < 0x1_0000_0000,
        c.metadata@.len() < 0x1_0000_0000,
    ensures
        r@ == enc_config(*c),
{
    let mut out: Vec<u8> = Vec::new();
    push_bytes_field(&mut out, &c.name);
    push_bytes_field(&mut out, &c.purpose);
    push_bytes_field(&mut out, &c.metadata);
    proof {
        assert(out@ =~= enc_config(*c));
    }
    out
}

/// Encodes a policy deterministically: the encoding depends on the field
/// values alone.
pub fn encode_policy(p: &DaoPolicy<Vec<u8>>) -> (r: Vec<u8>)
    requires
        p.prime_account@.len() < 0x1_0000_0000,
    ensures
        r@ == enc_policy(*p),
{
    let mut out: Vec<u8> = Vec::new();
    push_uint_le(&mut out, p.proposal_bond as u128, U32_BYTES);
    push_uint_le(&mut out, p.proposal_bond_min, U128_BYTES);
    match p.proposal_bond_max {
        None => out.push(0u8),
        Some(m) => {
            out.push(1u8);
            let ghost before = out@;
            push_uint_le(&mut out, m, U128_BYTES);
            proof {
                assert(before.drop_last().push(1u8) + enc_uint_le(m as nat, U128_BYTES as nat)
                    =~= before.drop_last() + (seq![1u8] + enc_uint_le(m as nat, U128_BYTES as nat)));
                assert(before.drop_last().push(1u8) =~= before);
            }
        },
    }
    push_uint_le(&mut out, p.proposal_period as u128, U32_BYTES);
    push_bytes_field(&mut out, &p.prime_account);
    push_uint_le(&mut out, p.approve_origin.numerator as u128, U32_BYTES);
    push_uint_le(&mut out, p.approve_origin.denominator as u128, U32_BYTES);
    push_uint_le(&mut out, p.reject_origin.numerator as u128, U32_BYTES);
    push_uint_le(&mut out, p.reject_origin.denominator as u128, U32_BYTES);
    proof {
        assert(out@ =~= enc_policy(*p));
    }
    out
}

/// Encodes a DAO aggregate deterministically: the encoding depends on the
/// field values alone.
pub fn encode_dao(d: &Dao<Vec<u8>, u32>) -> (r: Vec<u8>)
    requires
        d.founder@.len() < 0x1_0000_0000,
        d.account_id@.len() < 0x1_0000_0000,
        d.config.name@.len() < 0x1_0000_0000,
        d.config.purpose@.len() < 0x1_0000_0000,
        d.config.metadata@.len() < 0x1_0000_0000,
    ensures
        r@ == enc_dao(*d),
{
    let mut out: Vec<u8> = Vec::new();
    push_bytes_field(&mut out, &d.founder);
    push_bytes_field(&mut out, &d.account_id);
    push_uint_le(&mut out, d.token_id as u128, U32_BYTES);
    push_bytes_field(&mut out, &d.config.name);
    push_bytes_field(&mut out, &d.config.purpose);
    push_bytes_field(&mut out, &d.config.metadata);
    proof {
        assert(out@ =~= enc_dao(*d));
    }
    out
}

/// The encoded size of a well-formed configuration is bounded by its
/// declared maxima: one length prefix per field plus the maximum field
/// lengths. This is what lets the storage layer account for the worst-case
/// weight of a configuration statically.
pub proof fn lemma_config_encoding_bounded(c: DaoConfig, max_text: nat, max_meta: nat)
    requires
        c.wf(max_text, max_meta),
    ensures
        enc_config(c).len() <= 3 * LEN_PREFIX_BYTES + 2 * max_text + max_meta,
{
    lemma_enc_uint_le_len(c.name@.len(), LEN_PREFIX_BYTES as nat);
    lemma_enc_uint_le_len(c.purpose@.len(), LEN_PREFIX_BYTES as nat);
    lemma_enc_uint_le_len(c.metadata@.len(), LEN_PREFIX_BYTES as nat);
}

/// Converting the same valid payload twice yields bit-identical encodings:
/// any two conversion results carrying the payload's fields exactly, with
/// the same prime account, have equal configuration and policy encodings.
pub proof fn lemma_conversion_encoding_deterministic(
    p: DaoPayload,
    prime: Vec<u8>,
    c1: DaoConfig,
    c2: DaoConfig,
    pol1: DaoPolicy<Vec<u8>>,
    pol2: DaoPolicy<Vec<u8>>,
)
    requires
        c1.name@ == p.name@ && c1.purpose@ == p.purpose@ && c1.metadata@ == p.metadata@,
        c2.name@ == p.name@ && c2.purpose@ == p.purpose@ && c2.metadata@ == p.metadata@,
        pol1 == spec_policy_of(p.policy, prime),
        pol2 == spec_policy_of(p.policy, prime),
    ensures
        enc_config(c1) == enc_config(c2),
        enc_policy(pol1) == enc_policy(pol2),
{
}

} // verus!
