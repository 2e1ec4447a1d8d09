//! Positional account routing.
//!
//! An operation receives an ordered list of account references; each
//! position has a fixed role, with no embedded type tag. The router only
//! assigns roles — it does not validate signer/writable/ownership semantics,
//! which are checked by the called collaborators.

use vstd::prelude::*;
use crate::account::Pubkey;
use crate::error::AmmError;

verus! {

/// The number of account references a deposit expects, trailing fee
/// receivers included.
pub const DEPOSIT_ACCOUNTS_LEN: usize = 16;

/// The number of account references a swap expects, the trailing fee
/// receiver included.
pub const SWAP_ACCOUNTS_LEN: usize = 20;

/// The named roles of a deposit's 16 positional account references.
#[derive(Clone, Copy, Debug)]
pub struct DepositAccounts {
    pub forward_program: Pubkey,
    pub token_program: Pubkey,
    pub amm: Pubkey,
    pub authority: Pubkey,
    pub amm_open_orders: Pubkey,
    pub amm_target_orders: Pubkey,
    pub pool_lp_mint: Pubkey,
    pub pool_token_coin: Pubkey,
    pub pool_token_pc: Pubkey,
    pub serum_market: Pubkey,
    pub user_coin: Pubkey,
    pub user_pc: Pubkey,
    pub user_lp: Pubkey,
    pub user_owner: Pubkey,
    pub fee_receiver_coin: Pubkey,
    pub fee_receiver_pc: Pubkey,
}

/// The roles of a deposit list, each read from its fixed position.
pub open spec fn spec_route_deposit(keys: Seq<Pubkey>) -> DepositAccounts {
    DepositAccounts {
        forward_program: keys[0],
        token_program: keys[1],
        amm: keys[2],
        authority: keys[3],
        amm_open_orders: keys[4],
        amm_target_orders: keys[5],
        pool_lp_mint: keys[6],
        pool_token_coin: keys[7],
        pool_token_pc: keys[8],
        serum_market: keys[9],
        user_coin: keys[10],
        user_pc: keys[11],
        user_lp: keys[12],
        user_owner: keys[13],
        fee_receiver_coin: keys[14],
        fee_receiver_pc: keys[15],
    }
}

/// Slices a deposit's account list into named roles by position; fewer
/// references than required is a missing-account condition.
pub fn route_deposit(keys: &Vec<Pubkey>) -> (r: Result<DepositAccounts, AmmError>)
    ensures
        keys@.len() >= 16 ==> r == Ok::<DepositAccounts, AmmError>(spec_route_deposit(keys@)),
        keys@.len() < 16 ==> r == Err::<DepositAccounts, AmmError>(AmmError::MissingAccount),
{
    if keys.len() < DEPOSIT_ACCOUNTS_LEN {
        return Err(AmmError::MissingAccount);
    }
    Ok(
        DepositAccounts {
            forward_program: keys[0],
            token_program: keys[1],
            amm: keys[2],
            authority: keys[3],
            amm_open_orders: keys[4],
            amm_target_orders: keys[5],
            pool_lp_mint: keys[6],
            pool_token_coin: keys[7],
            pool_token_pc: keys[8],
            serum_market: keys[9],
            user_coin: keys[10],
            user_pc: keys[11],
            user_lp: keys[12],
            user_owner: keys[13],
            fee_receiver_coin: keys[14],
            fee_receiver_pc: keys[15],
        },
    )
}

/// The named roles of a swap's 20 positional account references.
#[derive(Clone, Copy, Debug)]
pub struct SwapAccounts {
    pub forward_program: Pubkey,
    pub token_program: Pubkey,
    pub amm: Pubkey,
    pub authority: Pubkey,
    pub amm_open_orders: Pubkey,
    pub amm_target_orders: Pubkey,
    pub pool_token_coin: Pubkey,
    pub pool_token_pc: Pubkey,
    pub serum_program: Pubkey,
    pub serum_market: Pubkey,
    pub serum_bids: Pubkey,
    pub serum_asks: Pubkey,
    pub serum_event_queue: Pubkey,
    pub serum_coin_vault: Pubkey,
    pub serum_pc_vault: Pubkey,
    pub serum_vault_signer: Pubkey,
    pub user_source: Pubkey,
    pub user_destination: Pubkey,
    pub user_owner: Pubkey,
    pub fee_receiver: Pubkey,
}

/// The roles of a swap list, each read from its fixed position.
pub open spec fn spec_route_swap(keys: Seq<Pubkey>) -> SwapAccounts {
    SwapAccounts {
        forward_program: keys[0],
        token_program: keys[1],
        amm: keys[2],
        authority: keys[3],
        amm_open_orders: keys[4],
        amm_target_orders: keys[5],
        pool_token_coin: keys[6],
        pool_token_pc: keys[7],
        serum_program: keys[8],
        serum_market: keys[9],
        serum_bids: keys[10],
        serum_asks: keys[11],
        serum_event_queue: keys[12],
        serum_coin_vault: keys[13],
        serum_pc_vault: keys[14],
        serum_vault_signer: keys[15],
        user_source: keys[16],
        user_destination: keys[17],
        user_owner: keys[18],
        fee_receiver: keys[19],
    }
}

/// Slices a swap's account list into named roles by position; fewer
/// references than required is a missing-account condition.
pub fn route_swap(keys: &Vec<Pubkey>) -> (r: Result<SwapAccounts, AmmError>)
    ensures
        keys@.len() >= 20 ==> r == Ok::<SwapAccounts, AmmError>(spec_route_swap(keys@)),
        keys@.len() < 20 ==> r == Err::<SwapAccounts, AmmError>(AmmError::MissingAccount),
{
    if keys.len() < SWAP_ACCOUNTS_LEN {
        return Err(AmmError::MissingAccount);
    }
    Ok(
        SwapAccounts {
            forward_program: keys[0],
            token_program: keys[1],
            amm: keys[2],
            authority: keys[3],
            amm_open_orders: keys[4],
            amm_target_orders: keys[5],
            pool_token_coin: keys[6],
            pool_token_pc: keys[7],
            serum_program: keys[8],
            serum_market: keys[9],
            serum_bids: keys[10],
            serum_asks: keys[11],
            serum_event_queue: keys[12],
            serum_coin_vault: keys[13],
            serum_pc_vault: keys[14],
            serum_vault_signer: keys[15],
            user_source: keys[16],
            user_destination: keys[17],
            user_owner: keys[18],
            fee_receiver: keys[19],
        },
    )
}

} // verus!
