//! Fee information and the percentage fee computation with its minimum-fee
//! floor.

use vstd::prelude::*;
use vstd::arithmetic::div_mod::lemma_basic_div;
use vstd::bytes::{
    lemma_auto_spec_u64_to_from_le_bytes, spec_u64_from_le_bytes, spec_u64_to_le_bytes,
    u64_from_le_bytes, u64_to_le_bytes,
};
use vstd::slice::slice_subrange;
use crate::error::AmmError;

verus! {

/// The persisted fee-configuration record: two rate fractions, one for
/// trades and one for deposits, each a numerator/denominator pair.
#[derive(Clone, Debug, Default, PartialEq, Eq, Structural)]
pub struct Fees {
    pub trade_fee_numerator: u64,
    pub trade_fee_denominator: u64,
    pub deposit_fee_numerator: u64,
    pub deposit_fee_denominator: u64,
}

/// What `calculate_fee` returns: `0` on a zero rate or zero base; no value
/// when the product overflows or the denominator is zero; otherwise the
/// floored percentage, raised to `1` when the floor would be `0` on a
/// nonzero base with a nonzero rate.
pub open spec fn spec_calculate_fee(
    token_amount: u128,
    fee_numerator: u128,
    fee_denominator: u128,
) -> Option<u128> {
    if fee_numerator == 0 || token_amount == 0 {
        Some(0u128)
    } else if token_amount * fee_numerator > u128::MAX {
        None
    } else if fee_denominator == 0 {
        None
    } else if token_amount * fee_numerator / (fee_denominator as int) == 0 {
        Some(1u128)
    } else {
        Some((token_amount * fee_numerator / (fee_denominator as int)) as u128)
    }
}

/// A fraction is a valid fee rate iff it is zero over zero or a proper
/// fraction.
pub open spec fn spec_fraction_valid(numerator: u64, denominator: u64) -> bool {
    (numerator == 0 && denominator == 0) || numerator < denominator
}

/// Computes the fee charged on `token_amount` at the rate
/// `fee_numerator / fee_denominator`, with a minimum fee of one token on a
/// nonzero base when a nonzero rate applies.
pub fn calculate_fee(
    token_amount: u128,
    fee_numerator: u128,
    fee_denominator: u128,
) -> (r: Option<u128>)
    ensures
        r == spec_calculate_fee(token_amount, fee_numerator, fee_denominator),
{
    if fee_numerator == 0 || token_amount == 0 {
        Some(0)
    } else {
        match token_amount.checked_mul(fee_numerator) {
            None => None,
            Some(product) => match product.checked_div(fee_denominator) {
                None => None,
                Some(fee) => if fee == 0 {
                    Some(1)
                } else {
                    Some(fee)
                },
            },
        }
    }
}

/// Accepts a fee fraction iff it is a valid rate; otherwise reports
/// `InvalidFee`.
pub fn validate_fraction(numerator: u64, denominator: u64) -> (r: Result<(), AmmError>)
    ensures
        r == (if spec_fraction_valid(numerator, denominator) {
            Ok::<(), AmmError>(())
        } else {
            Err::<(), AmmError>(AmmError::InvalidFee)
        }),
{
    if denominator == 0 && numerator == 0 {
        Ok(())
    } else if numerator >= denominator {
        Err(AmmError::InvalidFee)
    } else {
        Ok(())
    }
}

/// The 64-byte wire form of a fees record: four little-endian 8-byte fields
/// in declared order, then zero padding.
pub open spec fn spec_fees_bytes(f: Fees) -> Seq<u8> {
    spec_u64_to_le_bytes(f.trade_fee_numerator) + spec_u64_to_le_bytes(f.trade_fee_denominator)
        + spec_u64_to_le_bytes(f.deposit_fee_numerator) + spec_u64_to_le_bytes(
        f.deposit_fee_denominator,
    ) + Seq::new(32, |i: int| 0u8)
}

impl Fees {
    /// Fee on a trade of `trading_tokens`, at this record's trade rate.
    pub fn trading_fee(&self, trading_tokens: u128) -> (r: Option<u128>)
        ensures
            r == spec_calculate_fee(
                trading_tokens,
                self.trade_fee_numerator as u128,
                self.trade_fee_denominator as u128,
            ),
    {
        calculate_fee(
            trading_tokens,
            self.trade_fee_numerator as u128,
            self.trade_fee_denominator as u128,
        )
    }

    /// Fee on a deposit of `trading_tokens`, at this record's deposit rate.
    pub fn deposit_fee(&self, trading_tokens: u128) -> (r: Option<u128>)
        ensures
            r == spec_calculate_fee(
                trading_tokens,
                self.deposit_fee_numerator as u128,
                self.deposit_fee_denominator as u128,
            ),
    {
        calculate_fee(
            trading_tokens,
            self.deposit_fee_numerator as u128,
            self.deposit_fee_denominator as u128,
        )
    }

    /// Accepts the record iff both of its fractions are valid rates.
    pub fn validate(&self) -> (r: Result<(), AmmError>)
        ensures
            r == (if spec_fraction_valid(self.trade_fee_numerator, self.trade_fee_denominator)
                && spec_fraction_valid(
                self.deposit_fee_numerator,
                self.deposit_fee_denominator,
            ) {
                Ok::<(), AmmError>(())
            } else {
                Err::<(), AmmError>(AmmError::InvalidFee)
            }),
    {
        match validate_fraction(self.trade_fee_numerator, self.trade_fee_denominator) {
            Ok(()) => {},
            Err(e) => {
                return Err(e);
            },
        }
        match validate_fraction(self.deposit_fee_numerator, self.deposit_fee_denominator) {
            Ok(()) => {},
            Err(e) => {
                return Err(e);
            },
        }
        Ok(())
    }

    /// Serializes the record into its fixed 64-byte wire form.
    pub fn pack_into_slice(&self) -> (r: Vec<u8>)
        ensures
            r@ == spec_fees_bytes(*self),
            r@.len() == 64,
    {
        proof {
            lemma_auto_spec_u64_to_from_le_bytes();
        }
        let mut out: Vec<u8> = Vec::new();
        let mut field = u64_to_le_bytes(self.trade_fee_numerator);
        out.append(&mut field);
        let mut field = u64_to_le_bytes(self.trade_fee_denominator);
        out.append(&mut field);
        let mut field = u64_to_le_bytes(self.deposit_fee_numerator);
        out.append(&mut field);
        let mut field = u64_to_le_bytes(self.deposit_fee_denominator);
        out.append(&mut field);
        proof {
            assert(out@ =~= spec_fees_bytes(*self).subrange(0, 32));
        }
        let mut i: usize = 0;
        while i < 32
            invariant
                out@.len() == 32 + i,
                i <= 32,
                out@ == spec_fees_bytes(*self).subrange(0, 32 + i as int),
            decreases 32 - i,
        {
            out.push(0u8);
            i = i + 1;
            proof {
                lemma_auto_spec_u64_to_from_le_bytes();
                assert(out@ =~= spec_fees_bytes(*self).subrange(0, 32 + i as int));
            }
        }
        proof {
            assert(out@ =~= spec_fees_bytes(*self));
        }
        out
    }

    /// Reads a record from its wire form: the four little-endian fields in
    /// declared order. A buffer shorter than the 64-byte record is rejected
    /// with `InvalidInput`; trailing bytes beyond the record are ignored.
    pub fn unpack_from_slice(input: &[u8]) -> (r: Result<Fees, AmmError>)
        ensures
            input@.len() >= 64 ==> r == Ok::<Fees, AmmError>(
                Fees {
                    trade_fee_numerator: spec_u64_from_le_bytes(input@.subrange(0, 8)),
                    trade_fee_denominator: spec_u64_from_le_bytes(input@.subrange(8, 16)),
                    deposit_fee_numerator: spec_u64_from_le_bytes(input@.subrange(16, 24)),
                    deposit_fee_denominator: spec_u64_from_le_bytes(input@.subrange(24, 32)),
                },
            ),
            input@.len() < 64 ==> r == Err::<Fees, AmmError>(AmmError::InvalidInput),
    {
        if input.len() < 64 {
            return Err(AmmError::InvalidInput);
        }
        let trade_fee_numerator = u64_from_le_bytes(slice_subrange(input, 0, 8));
        let trade_fee_denominator = u64_from_le_bytes(slice_subrange(input, 8, 16));
        let deposit_fee_numerator = u64_from_le_bytes(slice_subrange(input, 16, 24));
        let deposit_fee_denominator = u64_from_le_bytes(slice_subrange(input, 24, 32));
        Ok(
            Fees {
                trade_fee_numerator,
                trade_fee_denominator,
                deposit_fee_numerator,
                deposit_fee_denominator,
            },
        )
    }
}

/// The record's wire form decodes back to the record it was packed from:
/// each field is recovered from its own eight bytes of the 64-byte record.
pub proof fn lemma_fees_record_roundtrip(f: Fees)
    ensures
        spec_u64_from_le_bytes(spec_fees_bytes(f).subrange(0, 8)) == f.trade_fee_numerator,
        spec_u64_from_le_bytes(spec_fees_bytes(f).subrange(8, 16)) == f.trade_fee_denominator,
        spec_u64_from_le_bytes(spec_fees_bytes(f).subrange(16, 24)) == f.deposit_fee_numerator,
        spec_u64_from_le_bytes(spec_fees_bytes(f).subrange(24, 32)) == f.deposit_fee_denominator,
{
    lemma_auto_spec_u64_to_from_le_bytes();
    assert(spec_fees_bytes(f).subrange(0, 8) =~= spec_u64_to_le_bytes(f.trade_fee_numerator));
    assert(spec_fees_bytes(f).subrange(8, 16) =~= spec_u64_to_le_bytes(f.trade_fee_denominator));
    assert(spec_fees_bytes(f).subrange(16, 24) =~= spec_u64_to_le_bytes(f.deposit_fee_numerator));
    assert(spec_fees_bytes(f).subrange(24, 32) =~= spec_u64_to_le_bytes(
        f.deposit_fee_denominator,
    ));
}

/// A zero base amount is never charged a fee, whatever the rate.
pub proof fn lemma_fee_zero_amount(fee_numerator: u128, fee_denominator: u128)
    ensures
        spec_calculate_fee(0, fee_numerator, fee_denominator) == Some(0u128),
{
}

/// A zero rate numerator charges no fee, whatever the base and denominator.
pub proof fn lemma_fee_zero_numerator(token_amount: u128, fee_denominator: u128)
    ensures
        spec_calculate_fee(token_amount, 0, fee_denominator) == Some(0u128),
{
}

/// With a proper nonzero rate and a nonzero base whose scaled product still
/// falls below the denominator, the minimum-fee floor charges exactly one
/// token.
pub proof fn lemma_fee_minimum_floor(token_amount: u128, fee_numerator: u128, fee_denominator: u128)
    requires
        0 < fee_numerator < fee_denominator,
        token_amount > 0,
        token_amount * fee_numerator < fee_denominator,
    ensures
        spec_calculate_fee(token_amount, fee_numerator, fee_denominator) == Some(1u128),
{
    lemma_basic_div(token_amount * fee_numerator, fee_denominator as int);
}

} // verus!
