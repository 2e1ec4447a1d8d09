//! The operation orchestrators.
//!
//! Each orchestrator routes the account list, computes the skim fees at the
//! fixed rate of one tenth, and lays out the full plan of calls the
//! operation will issue: the forward-call to the external program first,
//! then the skim transfers. The unit-of-work machine then sequences those
//! calls under all-or-nothing semantics.

use vstd::prelude::*;
use crate::account::Pubkey;
use crate::call::{Plan, SkimCall};
use crate::error::AmmError;
use crate::fees::{calculate_fee, spec_calculate_fee};
use crate::instruction::{
    spec_deposit_accounts, spec_pack, spec_swap_accounts, spec_unpack, AmmInstruction,
    DepositInstruction, SwapInstruction,
};
use crate::router::{route_deposit, route_swap, spec_route_deposit, spec_route_swap};

verus! {

/// Numerator of the fixed skim rate baked into the orchestrators.
pub const SKIM_FEE_NUMERATOR: u64 = 1;

/// Denominator of the fixed skim rate baked into the orchestrators.
pub const SKIM_FEE_DENOMINATOR: u64 = 10;

/// Widens a `u64`; never fails.
pub fn to_u128(val: u64) -> (r: Result<u128, AmmError>)
    ensures
        r == Ok::<u128, AmmError>(val as u128),
{
    Ok(val as u128)
}

/// Narrows a `u128`, reporting `ConversionFailure` when the value does not
/// fit.
pub fn to_u64(val: u128) -> (r: Result<u64, AmmError>)
    ensures
        val <= u64::MAX ==> r == Ok::<u64, AmmError>(val as u64),
        val > u64::MAX ==> r == Err::<u64, AmmError>(AmmError::ConversionFailure),
{
    if val <= u64::MAX as u128 {
        Ok(val as u64)
    } else {
        Err(AmmError::ConversionFailure)
    }
}

/// The skim charged on `amount` at the fixed one-tenth rate: a tenth of the
/// amount, floored, raised to `1` on any nonzero amount, and `0` on zero.
pub open spec fn spec_skim_fee(amount: u64) -> u64 {
    if amount == 0 {
        0u64
    } else if amount / 10 == 0 {
        1u64
    } else {
        amount / 10
    }
}

/// The fixed-rate skim agrees with the general fee calculator at one tenth,
/// and never exceeds the amount it is charged on.
pub proof fn lemma_skim_fee_matches(amount: u64)
    ensures
        spec_calculate_fee(amount as u128, SKIM_FEE_NUMERATOR as u128, SKIM_FEE_DENOMINATOR as u128)
            == Some(spec_skim_fee(amount) as u128),
        spec_skim_fee(amount) <= amount,
{
    if amount != 0 {
        assert(amount / 10 <= amount) by (nonlinear_arith);
    }
}

/// What a well-formed deposit plan holds, for the routed roles of `keys` and
/// the requested amounts: the forward-call carries the amounts less their
/// skims, and the two skim transfers move the fees from the user's coin and
/// pc accounts to the two fee receivers, authorized by the user owner.
pub open spec fn spec_deposit_plan_ok(
    plan: Plan,
    keys: Seq<Pubkey>,
    max_coin_amount: u64,
    max_pc_amount: u64,
    base_side: u64,
) -> bool {
    let roles = spec_route_deposit(keys);
    let fee_coin = spec_skim_fee(max_coin_amount);
    let fee_pc = spec_skim_fee(max_pc_amount);
    &&& plan.forward.program_id == roles.forward_program
    &&& plan.forward.accounts@ == spec_deposit_accounts(
        roles.amm,
        roles.authority,
        roles.amm_open_orders,
        roles.amm_target_orders,
        roles.pool_lp_mint,
        roles.pool_token_coin,
        roles.pool_token_pc,
        roles.serum_market,
        roles.user_coin,
        roles.user_pc,
        roles.user_lp,
        roles.user_owner,
    )
    &&& plan.forward.data@ == spec_pack(
        AmmInstruction::Deposit(
            DepositInstruction {
                max_coin_amount: (max_coin_amount - fee_coin) as u64,
                max_pc_amount: (max_pc_amount - fee_pc) as u64,
                base_side,
            },
        ),
    )
    &&& plan.skims@.len() == 2
    &&& plan.skims@[0] == (SkimCall {
        token_program: roles.token_program,
        source: roles.user_coin,
        destination: roles.fee_receiver_coin,
        authority: roles.user_owner,
        amount: fee_coin,
    })
    &&& plan.skims@[1] == (SkimCall {
        token_program: roles.token_program,
        source: roles.user_pc,
        destination: roles.fee_receiver_pc,
        authority: roles.user_owner,
        amount: fee_pc,
    })
}

/// What a deposit orchestration returns: a well-formed plan whenever enough
/// accounts were supplied, and `MissingAccount` otherwise.
pub open spec fn spec_deposit_outcome(
    r: Result<Plan, AmmError>,
    keys: Seq<Pubkey>,
    max_coin_amount: u64,
    max_pc_amount: u64,
    base_side: u64,
) -> bool {
    if keys.len() >= 16 {
        r matches Ok(plan) && spec_deposit_plan_ok(
            plan,
            keys,
            max_coin_amount,
            max_pc_amount,
            base_side,
        )
    } else {
        r == Err::<Plan, AmmError>(AmmError::MissingAccount)
    }
}

/// What a well-formed swap plan holds, for the routed roles of `keys` and
/// the requested amounts: the forward-call carries the amounts untouched,
/// and the single skim transfer moves a tenth of the caller's minimum
/// acceptable output — not of the realized output — from the user's
/// destination account to the fee receiver.
pub open spec fn spec_swap_plan_ok(
    plan: Plan,
    keys: Seq<Pubkey>,
    amount_in: u64,
    minimum_amount_out: u64,
) -> bool {
    let roles = spec_route_swap(keys);
    let fee = spec_skim_fee(minimum_amount_out);
    &&& plan.forward.program_id == roles.forward_program
    &&& plan.forward.accounts@ == spec_swap_accounts(
        roles.amm,
        roles.authority,
        roles.amm_open_orders,
        roles.amm_target_orders,
        roles.pool_token_coin,
        roles.pool_token_pc,
        roles.serum_program,
        roles.serum_market,
        roles.serum_bids,
        roles.serum_asks,
        roles.serum_event_queue,
        roles.serum_coin_vault,
        roles.serum_pc_vault,
        roles.serum_vault_signer,
        roles.user_source,
        roles.user_destination,
        roles.user_owner,
    )
    &&& plan.forward.data@ == spec_pack(
        AmmInstruction::Swap(SwapInstruction { amount_in, minimum_amount_out }),
    )
    &&& plan.skims@.len() == 1
    &&& plan.skims@[0] == (SkimCall {
        token_program: roles.token_program,
        source: roles.user_destination,
        destination: roles.fee_receiver,
        authority: roles.user_owner,
        amount: fee,
    })
}

/// What a swap orchestration returns: a well-formed plan whenever enough
/// accounts were supplied, and `MissingAccount` otherwise.
pub open spec fn spec_swap_outcome(
    r: Result<Plan, AmmError>,
    keys: Seq<Pubkey>,
    amount_in: u64,
    minimum_amount_out: u64,
) -> bool {
    if keys.len() >= 20 {
        r matches Ok(plan) && spec_swap_plan_ok(plan, keys, amount_in, minimum_amount_out)
    } else {
        r == Err::<Plan, AmmError>(AmmError::MissingAccount)
    }
}

pub struct Processor;

impl Processor {
    /// Decodes the instruction and lays out the plan of the selected
    /// operation over the supplied account list.
    pub fn process(program_id: &Pubkey, accounts: &Vec<Pubkey>, instruction_data: &[u8]) -> (r:
        Result<Plan, AmmError>)
        ensures
            spec_unpack(instruction_data@) matches Err(e) ==> r == Err::<Plan, AmmError>(e),
            spec_unpack(instruction_data@) matches Ok(AmmInstruction::Swap(s))
                ==> spec_swap_outcome(r, accounts@, s.amount_in, s.minimum_amount_out),
            spec_unpack(instruction_data@) matches Ok(AmmInstruction::Deposit(d))
                ==> spec_deposit_outcome(
                r,
                accounts@,
                d.max_coin_amount,
                d.max_pc_amount,
                d.base_side,
            ),
    {
        let instruction = match AmmInstruction::unpack(instruction_data) {
            Ok(i) => i,
            Err(e) => {
                return Err(e);
            },
        };
        match instruction {
            AmmInstruction::Swap(SwapInstruction { amount_in, minimum_amount_out }) => {
                Self::swap(accounts, amount_in, minimum_amount_out, program_id)
            },
            AmmInstruction::Deposit(
                DepositInstruction { max_coin_amount, max_pc_amount, base_side },
            ) => {
                Self::deposit(accounts, max_coin_amount, max_pc_amount, base_side, program_id)
            },
        }
    }

    /// Lays out a deposit: routes the 16 account references, charges the
    /// fixed skim on each leg, forwards the reduced amounts, and plans the
    /// two skim transfers.
    pub fn deposit(
        accounts: &Vec<Pubkey>,
        max_coin_amount: u64,
        max_pc_amount: u64,
        base_side: u64,
        program_id: &Pubkey,
    ) -> (r: Result<Plan, AmmError>)
        ensures
            spec_deposit_outcome(r, accounts@, max_coin_amount, max_pc_amount, base_side),
    {
        let roles = match route_deposit(accounts) {
            Ok(roles) => roles,
            Err(e) => {
                return Err(e);
            },
        };
        let wide_coin = match to_u128(max_coin_amount) {
            Ok(v) => v,
            Err(e) => {
                return Err(e);
            },
        };
        proof {
            lemma_skim_fee_matches(max_coin_amount);
        }
        let fee_coin_wide = match calculate_fee(
            wide_coin,
            SKIM_FEE_NUMERATOR as u128,
            SKIM_FEE_DENOMINATOR as u128,
        ) {
            Some(f) => f,
            None => {
                return Err(AmmError::ConversionFailure);
            },
        };
        let fee_coin = match to_u64(fee_coin_wide) {
            Ok(v) => v,
            Err(e) => {
                return Err(e);
            },
        };
        let wide_pc = match to_u128(max_pc_amount) {
            Ok(v) => v,
            Err(e) => {
                return Err(e);
            },
        };
        proof {
            lemma_skim_fee_matches(max_pc_amount);
        }
        let fee_pc_wide = match calculate_fee(
            wide_pc,
            SKIM_FEE_NUMERATOR as u128,
            SKIM_FEE_DENOMINATOR as u128,
        ) {
            Some(f) => f,
            None => {
                return Err(AmmError::ConversionFailure);
            },
        };
        let fee_pc = match to_u64(fee_pc_wide) {
            Ok(v) => v,
            Err(e) => {
                return Err(e);
            },
        };
        // The skim never exceeds the amount it is charged on, so these
        // checked subtractions cannot fail; a failure here would abort the
        // whole unit of work.
        let final_amount_coin = max_coin_amount - fee_coin;
        let final_amount_pc = max_pc_amount - fee_pc;
        let forward = match crate::instruction::deposit(
            &roles.forward_program,
            &roles.amm,
            &roles.authority,
            &roles.amm_open_orders,
            &roles.amm_target_orders,
            &roles.pool_lp_mint,
            &roles.pool_token_coin,
            &roles.pool_token_pc,
            &roles.serum_market,
            &roles.user_coin,
            &roles.user_pc,
            &roles.user_lp,
            &roles.user_owner,
            final_amount_coin,
            final_amount_pc,
            base_side,
        ) {
            Ok(i) => i,
            Err(e) => {
                return Err(e);
            },
        };
        let mut skims: Vec<SkimCall> = Vec::new();
        skims.push(
            SkimCall {
                token_program: roles.token_program,
                source: roles.user_coin,
                destination: roles.fee_receiver_coin,
                authority: roles.user_owner,
                amount: fee_coin,
            },
        );
        skims.push(
            SkimCall {
                token_program: roles.token_program,
                source: roles.user_pc,
                destination: roles.fee_receiver_pc,
                authority: roles.user_owner,
                amount: fee_pc,
            },
        );
        Ok(Plan { forward, skims })
    }

    /// Lays out a swap: routes the 20 account references, forwards the
    /// caller's amounts untouched, and plans one skim transfer charged on
    /// the minimum acceptable output.
    pub fn swap(
        accounts: &Vec<Pubkey>,
        amount_in: u64,
        minimum_amount_out: u64,
        program_id: &Pubkey,
    ) -> (r: Result<Plan, AmmError>)
        ensures
            spec_swap_outcome(r, accounts@, amount_in, minimum_amount_out),
    {
        let roles = match route_swap(accounts) {
            Ok(roles) => roles,
            Err(e) => {
                return Err(e);
            },
        };
        let forward = match crate::instruction::swap(
            &roles.forward_program,
            &roles.amm,
            &roles.authority,
            &roles.amm_open_orders,
            &roles.amm_target_orders,
            &roles.pool_token_coin,
            &roles.pool_token_pc,
            &roles.serum_program,
            &roles.serum_market,
            &roles.serum_bids,
            &roles.serum_asks,
            &roles.serum_event_queue,
            &roles.serum_coin_vault,
            &roles.serum_pc_vault,
            &roles.serum_vault_signer,
            &roles.user_source,
            &roles.user_destination,
            &roles.user_owner,
            amount_in,
            minimum_amount_out,
        ) {
            Ok(i) => i,
            Err(e) => {
                return Err(e);
            },
        };
        let wide_out = match to_u128(minimum_amount_out) {
            Ok(v) => v,
            Err(e) => {
                return Err(e);
            },
        };
        proof {
            lemma_skim_fee_matches(minimum_amount_out);
        }
        let fee_wide = match calculate_fee(
            wide_out,
            SKIM_FEE_NUMERATOR as u128,
            SKIM_FEE_DENOMINATOR as u128,
        ) {
            Some(f) => f,
            None => {
                return Err(AmmError::ConversionFailure);
            },
        };
        let fee = match to_u64(fee_wide) {
            Ok(v) => v,
            Err(e) => {
                return Err(e);
            },
        };
        let mut skims: Vec<SkimCall> = Vec::new();
        skims.push(
            SkimCall {
                token_program: roles.token_program,
                source: roles.user_destination,
                destination: roles.fee_receiver,
                authority: roles.user_owner,
                amount: fee,
            },
        );
        Ok(Plan { forward, skims })
    }
}

} // verus!
