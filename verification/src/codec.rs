//! Compact canonical encodings of vendor condition codes and trade
//! identifiers.
//!
//! A trade record carries up to four small condition codes, each below a
//! discipline-specific maximum (256 or 512). Their canonical form is the
//! ascending sort of the codes padded with zeros to exactly four, packed
//! into one integer with one fixed-width lane per code, least-significant
//! lane first. Two inputs holding the same multiset of codes always pack to
//! the same integer.
//!
//! A trade identifier is either an opaque token of at most eight bytes
//! (packed big-endian, zero-padded, into a 64-bit integer) or a decimal
//! numeric string of at most twenty bytes (parsed as an unsigned 64-bit
//! number). Anything longer is invalid.

use vstd::prelude::*;
use vstd::relations::{sorted_by, total_ordering};
use vstd::seq_lib::{lemma_multiset_commutative, lemma_sorted_unique};
use vstd::string::{StrSliceExecFns, StringSliceAdditionalSpecFns};
use crate::error::{FetchError, PermanentCause};

verus! {

/// The ascending order on 16-bit codes.
pub open spec fn leq16() -> spec_fn(u16, u16) -> bool {
    |a: u16, b: u16| a <= b
}

/// `leq16` is a total ordering, as sorting requires.
pub proof fn lemma_leq16_total_ordering()
    ensures
        total_ordering(leq16()),
{
}

/// Sorts the values ascending. The result holds the same multiset of values
/// as the input.
pub fn sort_u16(v: Vec<u16>) -> (out: Vec<u16>)
    ensures
        sorted_by(out@, leq16()),
        out@.to_multiset() == v@.to_multiset(),
{
    broadcast use vstd::seq_lib::group_to_multiset_ensures;

    let ghost orig: Seq<u16> = v@;
    let mut rem = v;
    let mut out: Vec<u16> = Vec::new();
    proof {
        assert(out@.to_multiset().add(rem@.to_multiset()) =~= orig.to_multiset());
    }
    while rem.len() > 0
        invariant
            sorted_by(out@, leq16()),
            out@.to_multiset().add(rem@.to_multiset()) == orig.to_multiset(),
            forall|i: int, j: int|
                0 <= i < out@.len() && 0 <= j < rem@.len() ==> out@[i] <= rem@[j],
        decreases rem.len(),
    {
        let mut k: usize = 1;
        let mut mi: usize = 0;
        while k < rem.len()
            invariant
                mi < k <= rem.len(),
                forall|j: int| 0 <= j < k ==> rem@[mi as int] <= rem@[j],
            decreases rem.len() - k,
        {
            if rem[k] < rem[mi] {
                mi = k;
            }
            k = k + 1;
        }
        let ghost rem_before: Seq<u16> = rem@;
        let ghost out_before: Seq<u16> = out@;
        let m = rem.remove(mi);
        out.push(m);
        proof {
            rem_before.to_multiset_ensures();
            out_before.to_multiset_ensures();
            assert(rem@ == rem_before.remove(mi as int));
            assert(out@ == out_before.push(m));
            assert(rem@.to_multiset() =~= rem_before.to_multiset().remove(m));
            assert(out@.to_multiset() =~= out_before.to_multiset().insert(m));
            assert(out@.to_multiset().add(rem@.to_multiset()) =~= out_before.to_multiset().add(
                rem_before.to_multiset(),
            )) by {
                assert(rem_before.to_multiset().contains(m));
            }
            assert(forall|j: int|
                0 <= j < rem@.len() ==> rem_before.contains(#[trigger] rem@[j]));
            assert(forall|i: int, j: int|
                0 <= i < out@.len() && 0 <= j < rem@.len() ==> out@[i] <= rem@[j]);
            assert(sorted_by(out@, leq16()));
        }
    }
    proof {
        assert(out@.to_multiset().add(rem@.to_multiset()) =~= out@.to_multiset());
    }
    out
}

/// The input padded with zeros to exactly four entries.
pub open spec fn spec_padded(codes: Seq<u16>) -> Seq<u16>
    recommends
        codes.len() <= 4,
{
    codes + Seq::new((4 - codes.len()) as nat, |i: int| 0u16)
}

/// The canonical lane order: the padded codes sorted ascending.
pub open spec fn spec_canonical(codes: Seq<u16>) -> Seq<u16> {
    spec_padded(codes).sort_by(leq16())
}

/// Four lanes packed least-significant first, each lane as wide as the
/// discipline's maximum (a power of two).
pub open spec fn spec_pack(s: Seq<u16>, max: u16) -> int
    recommends
        s.len() == 4,
{
    s[0] + (max as int) * (s[1] + (max as int) * (s[2] + (max as int) * s[3]))
}

/// The packed integer that a list of condition codes encodes to.
pub open spec fn spec_encode_conditions(codes: Seq<u16>, max: u16) -> int {
    spec_pack(spec_canonical(codes), max)
}

/// True when the list is acceptable: at most four codes, each below the
/// discipline's maximum.
pub open spec fn spec_conditions_ok(codes: Seq<u16>, max: u16) -> bool {
    codes.len() <= 4 && forall|i: int| 0 <= i < codes.len() ==> codes[i] < max
}

/// Packs up to four condition codes into one integer: pad with zeros to
/// four, sort ascending, give each code its own lane (lane width is the
/// bits needed to hold the maximum), least-significant lane first.
///
/// Rejects more than four codes, and any code at or above the maximum.
pub fn encode_conditions(codes: &Vec<u16>, max: u16) -> (r: Result<u64, FetchError>)
    requires
        max == 256 || max == 512,
    ensures
        r is Ok <==> spec_conditions_ok(codes@, max),
        r matches Ok(v) ==> v == spec_encode_conditions(codes@, max),
        codes@.len() > 4 ==> r == Err::<u64, FetchError>(
            FetchError::Permanent(PermanentCause::TooManyConditions),
        ),
        r is Err && codes@.len() <= 4 ==> r == Err::<u64, FetchError>(
            FetchError::Permanent(PermanentCause::ConditionTooLarge),
        ),
{
    broadcast use vstd::seq_lib::group_to_multiset_ensures;

    if codes.len() > 4 {
        return Err(FetchError::Permanent(PermanentCause::TooManyConditions));
    }
    let mut padded: Vec<u16> = Vec::new();
    let mut i: usize = 0;
    while i < codes.len()
        invariant
            i <= codes.len() <= 4,
            padded@ =~= codes@.subrange(0, i as int),
            forall|j: int| 0 <= j < i ==> codes@[j] < max,
            max == 256 || max == 512,
        decreases codes.len() - i,
    {
        if codes[i] >= max {
            return Err(FetchError::Permanent(PermanentCause::ConditionTooLarge));
        }
        padded.push(codes[i]);
        i = i + 1;
    }
    while padded.len() < 4
        invariant
            codes@.len() <= padded@.len() <= 4,
            padded@.subrange(0, codes@.len() as int) =~= codes@,
            forall|j: int| codes@.len() <= j < padded@.len() ==> padded@[j] == 0u16,
        decreases 4 - padded.len(),
    {
        padded.push(0u16);
    }
    proof {
        assert(padded@ =~= spec_padded(codes@));
    }
    let sorted = sort_u16(padded);
    proof {
        lemma_leq16_total_ordering();
        spec_padded(codes@).lemma_sort_by_ensures(leq16());
        lemma_sorted_unique(sorted@, spec_canonical(codes@), leq16());
        assert(sorted@.len() == 4) by {
            assert(sorted@.to_multiset().len() == sorted@.len());
            assert(spec_padded(codes@).to_multiset().len() == spec_padded(codes@).len());
        }
        assert forall|j: int| 0 <= j < sorted@.len() implies #[trigger] sorted@[j] < max by {
            assert(sorted@.contains(sorted@[j]));
            assert(sorted@.to_multiset().count(sorted@[j]) > 0);
            assert(spec_padded(codes@).to_multiset().count(sorted@[j]) > 0);
            assert(spec_padded(codes@).contains(sorted@[j]));
        }
    }
    let m: u64 = max as u64;
    let s0: u64 = sorted[0] as u64;
    let s1: u64 = sorted[1] as u64;
    let s2: u64 = sorted[2] as u64;
    let s3: u64 = sorted[3] as u64;
    let packed: u64 = s0 + m * (s1 + m * (s2 + m * s3));
    Ok(packed)
}

/// Encoding condition codes depends only on the multiset of codes: any two
/// orderings of the same codes pack to the same integer.
pub proof fn lemma_encode_conditions_permutation(c1: Seq<u16>, c2: Seq<u16>, max: u16)
    requires
        c1.to_multiset() == c2.to_multiset(),
        c1.len() <= 4,
    ensures
        spec_encode_conditions(c1, max) == spec_encode_conditions(c2, max),
{
    broadcast use vstd::seq_lib::group_to_multiset_ensures;

    assert(c1.len() == c2.len()) by {
        assert(c1.to_multiset().len() == c1.len());
        assert(c2.to_multiset().len() == c2.len());
    }
    let z = Seq::new((4 - c1.len()) as nat, |i: int| 0u16);
    lemma_multiset_commutative(c1, z);
    lemma_multiset_commutative(c2, z);
    assert(spec_padded(c1).to_multiset() =~= spec_padded(c2).to_multiset());
    lemma_leq16_total_ordering();
    spec_padded(c1).lemma_sort_by_ensures(leq16());
    spec_padded(c2).lemma_sort_by_ensures(leq16());
    lemma_sorted_unique(spec_canonical(c1), spec_canonical(c2), leq16());
}

/// The dense internal code for an allow-listed vendor correction code, or
/// nothing for any other value.
pub open spec fn spec_correction(v: u8) -> Option<u8> {
    if v == 0 {
        Some(0u8)
    } else if v == 1 {
        Some(1u8)
    } else if v == 7 {
        Some(2u8)
    } else if v == 8 {
        Some(3u8)
    } else if v == 10 {
        Some(4u8)
    } else if v == 11 {
        Some(5u8)
    } else if v == 12 {
        Some(6u8)
    } else {
        None
    }
}

/// Maps the allow-listed vendor correction codes 0, 1, 7, 8, 10, 11 and 12
/// to dense internal codes; any other input is a decode error.
pub fn decode_correction(v: u8) -> (r: Result<u8, FetchError>)
    ensures
        r is Ok <==> spec_correction(v) is Some,
        r matches Ok(c) ==> spec_correction(v) == Some(c),
        r is Err ==> r == Err::<u8, FetchError>(
            FetchError::Permanent(PermanentCause::UnknownCorrection),
        ),
{
    match v {
        0 => Ok(0),
        1 => Ok(1),
        7 => Ok(2),
        8 => Ok(3),
        10 => Ok(4),
        11 => Ok(5),
        12 => Ok(6),
        _ => Err(FetchError::Permanent(PermanentCause::UnknownCorrection)),
    }
}

/// The value of a byte sequence read as a big-endian base-256 number.
pub open spec fn spec_be_value(b: Seq<u8>) -> int
    decreases b.len(),
{
    if b.len() == 0 {
        0
    } else {
        spec_be_value(b.drop_last()) * 256 + b.last()
    }
}

/// 256 raised to `k`.
pub open spec fn spec_pow256(k: nat) -> int
    decreases k,
{
    if k == 0 {
        1
    } else {
        256 * spec_pow256((k - 1) as nat)
    }
}

/// A big-endian value is bounded by 256 to the number of its bytes.
pub proof fn lemma_be_value_bound(b: Seq<u8>)
    ensures
        0 <= spec_be_value(b) < spec_pow256(b.len()),
    decreases b.len(),
{
    if b.len() > 0 {
        lemma_be_value_bound(b.drop_last());
    }
}

/// A short identifier zero-padded on the right to eight bytes.
pub open spec fn spec_padded8(b: Seq<u8>) -> Seq<u8>
    recommends
        b.len() <= 8,
{
    b + Seq::new((8 - b.len()) as nat, |i: int| 0u8)
}

/// What an identifier of at most eight bytes packs to: the bytes zero-padded
/// to eight, read as one big-endian 64-bit value.
pub open spec fn spec_trade_id_short(b: Seq<u8>) -> int
    recommends
        b.len() <= 8,
{
    spec_be_value(spec_padded8(b))
}

/// True when every byte is an ASCII decimal digit.
pub open spec fn spec_all_digits(b: Seq<u8>) -> bool {
    forall|i: int| 0 <= i < b.len() ==> 48 <= #[trigger] b[i] <= 57
}

/// The number that a sequence of ASCII digits spells in decimal.
pub open spec fn spec_dec_value(b: Seq<u8>) -> int
    decreases b.len(),
{
    if b.len() == 0 {
        0
    } else {
        spec_dec_value(b.drop_last()) * 10 + (b.last() - 48)
    }
}

/// A decimal digit string spells a non-negative number.
pub proof fn lemma_dec_value_nonneg(b: Seq<u8>)
    requires
        spec_all_digits(b),
    ensures
        spec_dec_value(b) >= 0,
    decreases b.len(),
{
    if b.len() > 0 {
        lemma_dec_value_nonneg(b.drop_last());
    }
}

/// A prefix of a decimal digit string spells no more than the whole string.
pub proof fn lemma_dec_value_prefix(b: Seq<u8>, i: int)
    requires
        spec_all_digits(b),
        0 <= i <= b.len(),
    ensures
        spec_dec_value(b.take(i)) <= spec_dec_value(b),
    decreases b.len() - i,
{
    if i == b.len() {
        assert(b.take(i) =~= b);
    } else {
        lemma_dec_value_prefix(b, i + 1);
        assert(b.take(i + 1).drop_last() =~= b.take(i));
        assert(spec_all_digits(b.take(i)));
        lemma_dec_value_nonneg(b.take(i));
    }
}

/// What a trade identifier decodes to, if anything: up to eight bytes pack
/// big-endian (zero-padded) into a 64-bit value; nine to twenty bytes parse
/// as an unsigned 64-bit decimal number; anything longer is invalid.
pub open spec fn spec_decode_trade_id(b: Seq<u8>) -> Result<u64, FetchError> {
    if b.len() <= 8 {
        Ok(spec_trade_id_short(b) as u64)
    } else if b.len() <= 20 {
        if spec_all_digits(b) && spec_dec_value(b) <= u64::MAX {
            Ok(spec_dec_value(b) as u64)
        } else {
            Err(FetchError::Permanent(PermanentCause::TradeIdNotDecimal))
        }
    } else {
        Err(FetchError::Permanent(PermanentCause::TradeIdTooLong))
    }
}

/// Decodes a trade identifier from its bytes. The result depends on the
/// bytes alone, so repeated calls on one input agree.
pub fn decode_trade_id_bytes(b: &Vec<u8>) -> (r: Result<u64, FetchError>)
    ensures
        r == spec_decode_trade_id(b@),
{
    if b.len() <= 8 {
        let mut padded: Vec<u8> = Vec::new();
        let mut i: usize = 0;
        while i < b.len()
            invariant
                i <= b.len() <= 8,
                padded@ =~= b@.subrange(0, i as int),
            decreases b.len() - i,
        {
            padded.push(b[i]);
            i = i + 1;
        }
        while padded.len() < 8
            invariant
                b@.len() <= padded@.len() <= 8,
                padded@.subrange(0, b@.len() as int) =~= b@,
                forall|j: int| b@.len() <= j < padded@.len() ==> padded@[j] == 0u8,
            decreases 8 - padded.len(),
        {
            padded.push(0u8);
        }
        proof {
            assert(padded@ =~= spec_padded8(b@));
        }
        let mut acc: u64 = 0;
        let mut i: usize = 0;
        while i < 8
            invariant
                i <= 8,
                padded@.len() == 8,
                padded@ == spec_padded8(b@),
                acc == spec_be_value(padded@.take(i as int)),
            decreases 8 - i,
        {
            proof {
                lemma_be_value_bound(padded@.take(i as int));
                reveal_with_fuel(spec_pow256, 9);
                assert(padded@.take(i as int + 1).drop_last() =~= padded@.take(i as int));
            }
            acc = acc * 256 + (padded[i] as u64);
            i = i + 1;
        }
        proof {
            assert(padded@.take(8) =~= padded@);
        }
        Ok(acc)
    } else if b.len() <= 20 {
        let mut acc: u64 = 0;
        let mut i: usize = 0;
        while i < b.len()
            invariant
                i <= b@.len(),
                8 < b@.len() <= 20,
                forall|j: int| 0 <= j < i ==> 48 <= #[trigger] b@[j] <= 57,
                acc == spec_dec_value(b@.take(i as int)),
            decreases b.len() - i,
        {
            let c = b[i];
            if c < 48 || c > 57 {
                proof {
                    assert(!(48 <= b@[i as int] <= 57));
                    assert(!spec_all_digits(b@));
                }
                return Err(FetchError::Permanent(PermanentCause::TradeIdNotDecimal));
            }
            let d: u64 = (c - 48) as u64;
            proof {
                assert(b@.take(i as int + 1).drop_last() =~= b@.take(i as int));
                assert(spec_all_digits(b@.take(i as int)));
                lemma_dec_value_nonneg(b@.take(i as int));
            }
            if acc > (u64::MAX - d) / 10 {
                proof {
                    assert(spec_dec_value(b@.take(i as int + 1)) == acc * 10 + d);
                    assert(acc * 10 + d > u64::MAX) by {
                        assert(acc >= (u64::MAX - d) / 10 + 1);
                    }
                    if spec_all_digits(b@) {
                        lemma_dec_value_prefix(b@, i as int + 1);
                        assert(spec_dec_value(b@) > u64::MAX);
                    }
                }
                return Err(FetchError::Permanent(PermanentCause::TradeIdNotDecimal));
            }
            acc = acc * 10 + d;
            i = i + 1;
        }
        proof {
            assert(b@.take(b@.len() as int) =~= b@);
        }
        Ok(acc)
    } else {
        Err(FetchError::Permanent(PermanentCause::TradeIdTooLong))
    }
}

/// Decodes a trade identifier given as a string: at most eight bytes pack
/// big-endian into a 64-bit value, at most twenty parse as decimal, more is
/// an error.
pub fn decode_trade_id(s: &str) -> (r: Result<u64, FetchError>)
    ensures
        r == spec_decode_trade_id(s.spec_bytes()),
{
    let b = s.as_bytes_vec();
    decode_trade_id_bytes(&b)
}

} // verus!
