//! Instruction types and the wire codec.
//!
//! `unpack` reads the compact binary form accepted on input (tags `0` and
//! `1`); `pack` produces the form forwarded to the external program (tags `9`
//! and `3`). The two tag tables are intentionally distinct: this asymmetry is
//! faithful to the deployed wire behavior and is surfaced as such rather than
//! silently unified.

use vstd::prelude::*;
use vstd::bytes::{
    lemma_auto_spec_u64_to_from_le_bytes, spec_u64_from_le_bytes, spec_u64_to_le_bytes,
    u64_from_le_bytes, u64_to_le_bytes,
};
use vstd::slice::{slice_index_get, slice_subrange};
use crate::account::{spec_token_program_id, token_program_id, AccountMeta, Pubkey};
use crate::call::Instruction;
use crate::error::AmmError;

verus! {

#[derive(Clone, Copy, Debug, Default, PartialEq, Eq, Structural)]
pub struct InitializeInstruction {
    /// nonce used to create a valid program address
    pub nonce: u8,
}

#[derive(Clone, Copy, Debug, Default, PartialEq, Eq, Structural)]
pub struct MonitorStepInstruction {
    /// max counts of planned/new/cancelled orders handled in one step
    pub plan_order_limit: u16,
    pub place_order_limit: u16,
    pub cancel_order_limit: u16,
}

#[derive(Clone, Copy, Debug, Default, PartialEq, Eq, Structural)]
pub struct DepositInstruction {
    /// Upper bounds on the two tokens paid in; the pool sets the real amounts
    /// by its current exchange rate.
    pub max_coin_amount: u64,
    pub max_pc_amount: u64,
    pub base_side: u64,
}

#[derive(Clone, Copy, Debug, Default, PartialEq, Eq, Structural)]
pub struct WithdrawInstruction {
    /// Pool token amount to transfer out.
    pub amount: u64,
}

#[derive(Clone, Copy, Debug, Default, PartialEq, Eq, Structural)]
pub struct WithdrawTransferInstruction {
    pub limit: u16,
}

#[derive(Clone, Debug, Default, PartialEq, Eq)]
pub struct SetParamsInstruction {
    pub param: u8,
    pub value: Option<u64>,
    pub new_pubkey: Option<Pubkey>,
    pub fees: Option<crate::fees::Fees>,
}

#[derive(Clone, Copy, Debug, Default, PartialEq, Eq, Structural)]
pub struct WithdrawSrmInstruction {
    pub amount: u64,
}

#[derive(Clone, Copy, Debug, Default, PartialEq, Eq, Structural)]
pub struct SwapInstruction {
    /// SOURCE amount to transfer; the DESTINATION output follows the
    /// exchange rate.
    pub amount_in: u64,
    /// Minimum amount of DESTINATION token to output; prevents excessive
    /// slippage.
    pub minimum_amount_out: u64,
}

/// The two operations this middleware routes. The account lists they expect
/// are positional; see the router.
#[derive(Clone, Copy, Debug, PartialEq, Eq, Structural)]
pub enum AmmInstruction {
    /// Deposit tokens into the pool against pool-token ownership.
    Deposit(DepositInstruction),
    /// Swap coin or pc through the pool.
    Swap(SwapInstruction),
}

/// The decode wire table: tag `0` is a swap (two little-endian `u64` fields),
/// tag `1` a deposit (three fields); any other tag, an empty buffer, or a
/// buffer shorter than its fields require is `InvalidInstruction`. Trailing
/// bytes beyond the declared fields are ignored.
pub open spec fn spec_unpack(input: Seq<u8>) -> Result<AmmInstruction, AmmError> {
    if input.len() == 0 {
        Err(AmmError::InvalidInstruction)
    } else if input[0] == 0 {
        if input.len() >= 17 {
            Ok(
                AmmInstruction::Swap(
                    SwapInstruction {
                        amount_in: spec_u64_from_le_bytes(input.subrange(1, 9)),
                        minimum_amount_out: spec_u64_from_le_bytes(input.subrange(9, 17)),
                    },
                ),
            )
        } else {
            Err(AmmError::InvalidInstruction)
        }
    } else if input[0] == 1 {
        if input.len() >= 25 {
            Ok(
                AmmInstruction::Deposit(
                    DepositInstruction {
                        max_coin_amount: spec_u64_from_le_bytes(input.subrange(1, 9)),
                        max_pc_amount: spec_u64_from_le_bytes(input.subrange(9, 17)),
                        base_side: spec_u64_from_le_bytes(input.subrange(17, 25)),
                    },
                ),
            )
        } else {
            Err(AmmError::InvalidInstruction)
        }
    } else {
        Err(AmmError::InvalidInstruction)
    }
}

/// The encode wire table: tag `9` for a swap, tag `3` for a deposit, each
/// followed by the little-endian fields in declared order.
pub open spec fn spec_pack(instr: AmmInstruction) -> Seq<u8> {
    match instr {
        AmmInstruction::Swap(s) => seq![9u8] + spec_u64_to_le_bytes(s.amount_in)
            + spec_u64_to_le_bytes(s.minimum_amount_out),
        AmmInstruction::Deposit(d) => seq![3u8] + spec_u64_to_le_bytes(d.max_coin_amount)
            + spec_u64_to_le_bytes(d.max_pc_amount) + spec_u64_to_le_bytes(d.base_side),
    }
}

impl AmmInstruction {
    /// Decodes a byte buffer per the decode wire table.
    pub fn unpack(input: &[u8]) -> (r: Result<AmmInstruction, AmmError>)
        ensures
            r == spec_unpack(input@),
    {
        if input.len() == 0 {
            return Err(AmmError::InvalidInstruction);
        }
        let tag = *slice_index_get(input, 0);
        let rest = slice_subrange(input, 1, input.len());
        match tag {
            0 => {
                let (amount_in, rest) = match Self::unpack_u64(rest) {
                    Ok(p) => p,
                    Err(e) => {
                        return Err(e);
                    },
                };
                let (minimum_amount_out, _rest) = match Self::unpack_u64(rest) {
                    Ok(p) => p,
                    Err(e) => {
                        return Err(e);
                    },
                };
                proof {
                    assert(input@.subrange(1, input@.len() as int).subrange(0, 8)
                        =~= input@.subrange(1, 9));
                    assert(input@.subrange(1, input@.len() as int).subrange(
                        8,
                        input@.len() - 1,
                    ).subrange(0, 8) =~= input@.subrange(9, 17));
                }
                Ok(AmmInstruction::Swap(SwapInstruction { amount_in, minimum_amount_out }))
            },
            1 => {
                let (max_coin_amount, rest) = match Self::unpack_u64(rest) {
                    Ok(p) => p,
                    Err(e) => {
                        return Err(e);
                    },
                };
                let (max_pc_amount, rest) = match Self::unpack_u64(rest) {
                    Ok(p) => p,
                    Err(e) => {
                        return Err(e);
                    },
                };
                let (base_side, _rest) = match Self::unpack_u64(rest) {
                    Ok(p) => p,
                    Err(e) => {
                        return Err(e);
                    },
                };
                proof {
                    assert(input@.subrange(1, input@.len() as int).subrange(0, 8)
                        =~= input@.subrange(1, 9));
                    assert(input@.subrange(1, input@.len() as int).subrange(
                        8,
                        input@.len() - 1,
                    ).subrange(0, 8) =~= input@.subrange(9, 17));
                    assert(input@.subrange(1, input@.len() as int).subrange(
                        8,
                        input@.len() - 1,
                    ).subrange(8, input@.len() - 9).subrange(0, 8) =~= input@.subrange(17, 25));
                }
                Ok(
                    AmmInstruction::Deposit(
                        DepositInstruction { max_coin_amount, max_pc_amount, base_side },
                    ),
                )
            },
            _ => Err(AmmError::InvalidInstruction),
        }
    }

    /// Reads one byte and returns it with the remaining buffer; a shorter
    /// buffer is `InvalidInstruction`.
    pub fn unpack_u8(input: &[u8]) -> (r: Result<(u8, &[u8]), AmmError>)
        ensures
            input@.len() >= 1 ==> (r matches Ok(p) && p.0 == input@[0] && p.1@ == input@.subrange(
                1,
                input@.len() as int,
            )),
            input@.len() < 1 ==> r == Err::<(u8, &[u8]), AmmError>(AmmError::InvalidInstruction),
    {
        if input.len() >= 1 {
            let (amount_bytes, rest) = input.split_at(1);
            let amount = *slice_index_get(amount_bytes, 0);
            Ok((amount, rest))
        } else {
            Err(AmmError::InvalidInstruction)
        }
    }

    /// Reads one little-endian `u16` and returns it with the remaining
    /// buffer; a shorter buffer is `InvalidInstruction`.
    pub fn unpack_u16(input: &[u8]) -> (r: Result<(u16, &[u8]), AmmError>)
        ensures
            input@.len() >= 2 ==> (r matches Ok(p) && p.0 == vstd::bytes::spec_u16_from_le_bytes(
                input@.subrange(0, 2),
            ) && p.1@ == input@.subrange(2, input@.len() as int)),
            input@.len() < 2 ==> r == Err::<(u16, &[u8]), AmmError>(AmmError::InvalidInstruction),
    {
        if input.len() >= 2 {
            let (amount_bytes, rest) = input.split_at(2);
            let amount = vstd::bytes::u16_from_le_bytes(amount_bytes);
            Ok((amount, rest))
        } else {
            Err(AmmError::InvalidInstruction)
        }
    }

    /// Reads one little-endian `u64` and returns it with the remaining
    /// buffer; a shorter buffer is `InvalidInstruction`.
    pub fn unpack_u64(input: &[u8]) -> (r: Result<(u64, &[u8]), AmmError>)
        ensures
            input@.len() >= 8 ==> (r matches Ok(p) && p.0 == spec_u64_from_le_bytes(
                input@.subrange(0, 8),
            ) && p.1@ == input@.subrange(8, input@.len() as int)),
            input@.len() < 8 ==> r == Err::<(u64, &[u8]), AmmError>(AmmError::InvalidInstruction),
    {
        if input.len() >= 8 {
            let (amount_bytes, rest) = input.split_at(8);
            let amount = u64_from_le_bytes(amount_bytes);
            Ok((amount, rest))
        } else {
            Err(AmmError::InvalidInstruction)
        }
    }

    /// Encodes this instruction per the encode wire table.
    pub fn pack(&self) -> (r: Result<Vec<u8>, AmmError>)
        ensures
            r matches Ok(buf) && buf@ == spec_pack(*self),
    {
        proof {
            lemma_auto_spec_u64_to_from_le_bytes();
        }
        let mut buf: Vec<u8> = Vec::new();
        match self {
            AmmInstruction::Swap(s) => {
                buf.push(9);
                let mut field = u64_to_le_bytes(s.amount_in);
                buf.append(&mut field);
                let mut field = u64_to_le_bytes(s.minimum_amount_out);
                buf.append(&mut field);
                proof {
                    assert(buf@ =~= spec_pack(*self));
                }
            },
            AmmInstruction::Deposit(d) => {
                buf.push(3);
                let mut field = u64_to_le_bytes(d.max_coin_amount);
                buf.append(&mut field);
                let mut field = u64_to_le_bytes(d.max_pc_amount);
                buf.append(&mut field);
                let mut field = u64_to_le_bytes(d.base_side);
                buf.append(&mut field);
                proof {
                    assert(buf@ =~= spec_pack(*self));
                }
            },
        }
        Ok(buf)
    }
}

/// The ordered account references a forwarded deposit call grants its
/// callee: the token program pinned first, then the pool accounts, the
/// external market, and the user accounts, with the user owner as the only
/// signer.
pub open spec fn spec_deposit_accounts(
    amm_id: Pubkey,
    amm_authority: Pubkey,
    amm_open_orders: Pubkey,
    amm_target_orders: Pubkey,
    lp_mint_address: Pubkey,
    pool_coin_token_account: Pubkey,
    pool_pc_token_account: Pubkey,
    serum_market: Pubkey,
    user_coin_token_account: Pubkey,
    user_pc_token_account: Pubkey,
    user_lp_token_account: Pubkey,
    user_owner: Pubkey,
) -> Seq<AccountMeta> {
    seq![
        AccountMeta { pubkey: spec_token_program_id(), is_signer: false, is_writable: false },
        AccountMeta { pubkey: amm_id, is_signer: false, is_writable: true },
        AccountMeta { pubkey: amm_authority, is_signer: false, is_writable: false },
        AccountMeta { pubkey: amm_open_orders, is_signer: false, is_writable: false },
        AccountMeta { pubkey: amm_target_orders, is_signer: false, is_writable: true },
        AccountMeta { pubkey: lp_mint_address, is_signer: false, is_writable: true },
        AccountMeta { pubkey: pool_coin_token_account, is_signer: false, is_writable: true },
        AccountMeta { pubkey: pool_pc_token_account, is_signer: false, is_writable: true },
        AccountMeta { pubkey: serum_market, is_signer: false, is_writable: false },
        AccountMeta { pubkey: user_coin_token_account, is_signer: false, is_writable: true },
        AccountMeta { pubkey: user_pc_token_account, is_signer: false, is_writable: true },
        AccountMeta { pubkey: user_lp_token_account, is_signer: false, is_writable: true },
        AccountMeta { pubkey: user_owner, is_signer: true, is_writable: false },
    ]
}

/// Builds the forward-call for a deposit: the external program's address,
/// the 13 positional account references, and the encoded deposit fields.
pub fn deposit(
    program_id: &Pubkey,
    amm_id: &Pubkey,
    amm_authority: &Pubkey,
    amm_open_orders: &Pubkey,
    amm_target_orders: &Pubkey,
    lp_mint_address: &Pubkey,
    pool_coin_token_account: &Pubkey,
    pool_pc_token_account: &Pubkey,
    serum_market: &Pubkey,
    user_coin_token_account: &Pubkey,
    user_pc_token_account: &Pubkey,
    user_lp_token_account: &Pubkey,
    user_owner: &Pubkey,
    max_coin_amount: u64,
    max_pc_amount: u64,
    base_side: u64,
) -> (r: Result<Instruction, AmmError>)
    ensures
        r matches Ok(instr) && instr.program_id == *program_id && instr.accounts@
            == spec_deposit_accounts(
            *amm_id,
            *amm_authority,
            *amm_open_orders,
            *amm_target_orders,
            *lp_mint_address,
            *pool_coin_token_account,
            *pool_pc_token_account,
            *serum_market,
            *user_coin_token_account,
            *user_pc_token_account,
            *user_lp_token_account,
            *user_owner,
        ) && instr.data@ == spec_pack(
            AmmInstruction::Deposit(
                DepositInstruction { max_coin_amount, max_pc_amount, base_side },
            ),
        ),
{
    let data = match AmmInstruction::Deposit(
        DepositInstruction { max_coin_amount, max_pc_amount, base_side },
    ).pack() {
        Ok(d) => d,
        Err(e) => {
            return Err(e);
        },
    };
    let mut accounts: Vec<AccountMeta> = Vec::new();
    accounts.push(AccountMeta::new_readonly(token_program_id(), false));
    accounts.push(AccountMeta::new(*amm_id, false));
    accounts.push(AccountMeta::new_readonly(*amm_authority, false));
    accounts.push(AccountMeta::new_readonly(*amm_open_orders, false));
    accounts.push(AccountMeta::new(*amm_target_orders, false));
    accounts.push(AccountMeta::new(*lp_mint_address, false));
    accounts.push(AccountMeta::new(*pool_coin_token_account, false));
    accounts.push(AccountMeta::new(*pool_pc_token_account, false));
    accounts.push(AccountMeta::new_readonly(*serum_market, false));
    accounts.push(AccountMeta::new(*user_coin_token_account, false));
    accounts.push(AccountMeta::new(*user_pc_token_account, false));
    accounts.push(AccountMeta::new(*user_lp_token_account, false));
    accounts.push(AccountMeta::new_readonly(*user_owner, true));
    proof {
        assert(accounts@ =~= spec_deposit_accounts(
            *amm_id,
            *amm_authority,
            *amm_open_orders,
            *amm_target_orders,
            *lp_mint_address,
            *pool_coin_token_account,
            *pool_pc_token_account,
            *serum_market,
            *user_coin_token_account,
            *user_pc_token_account,
            *user_lp_token_account,
            *user_owner,
        ));
    }
    Ok(Instruction { program_id: *program_id, accounts, data })
}

/// The ordered account references a forwarded swap call grants its callee:
/// the token program pinned first, then the pool accounts, the external
/// order-book accounts, and the user accounts, with the user owner as the
/// only signer.
pub open spec fn spec_swap_accounts(
    amm_id: Pubkey,
    amm_authority: Pubkey,
    amm_open_orders: Pubkey,
    amm_target_orders: Pubkey,
    pool_coin_token_account: Pubkey,
    pool_pc_token_account: Pubkey,
    serum_program_id: Pubkey,
    serum_market: Pubkey,
    serum_bids: Pubkey,
    serum_asks: Pubkey,
    serum_event_queue: Pubkey,
    serum_coin_vault_account: Pubkey,
    serum_pc_vault_account: Pubkey,
    serum_vault_signer: Pubkey,
    user_source_token_account: Pubkey,
    user_destination_token_account: Pubkey,
    user_source_owner: Pubkey,
) -> Seq<AccountMeta> {
    seq![
        AccountMeta { pubkey: spec_token_program_id(), is_signer: false, is_writable: false },
        AccountMeta { pubkey: amm_id, is_signer: false, is_writable: true },
        AccountMeta { pubkey: amm_authority, is_signer: false, is_writable: false },
        AccountMeta { pubkey: amm_open_orders, is_signer: false, is_writable: true },
        AccountMeta { pubkey: amm_target_orders, is_signer: false, is_writable: true },
        AccountMeta { pubkey: pool_coin_token_account, is_signer: false, is_writable: true },
        AccountMeta { pubkey: pool_pc_token_account, is_signer: false, is_writable: true },
        AccountMeta { pubkey: serum_program_id, is_signer: false, is_writable: false },
        AccountMeta { pubkey: serum_market, is_signer: false, is_writable: true },
        AccountMeta { pubkey: serum_bids, is_signer: false, is_writable: true },
        AccountMeta { pubkey: serum_asks, is_signer: false, is_writable: true },
        AccountMeta { pubkey: serum_event_queue, is_signer: false, is_writable: true },
        AccountMeta { pubkey: serum_coin_vault_account, is_signer: false, is_writable: true },
        AccountMeta { pubkey: serum_pc_vault_account, is_signer: false, is_writable: true },
        AccountMeta { pubkey: serum_vault_signer, is_signer: false, is_writable: false },
        AccountMeta { pubkey: user_source_token_account, is_signer: false, is_writable: true },
        AccountMeta { pubkey: user_destination_token_account, is_signer: false, is_writable: true },
        AccountMeta { pubkey: user_source_owner, is_signer: true, is_writable: false },
    ]
}

/// Builds the forward-call for a swap: the external program's address, the
/// 18 positional account references, and the encoded swap fields.
pub fn swap(
    program_id: &Pubkey,
    amm_id: &Pubkey,
    amm_authority: &Pubkey,
    amm_open_orders: &Pubkey,
    amm_target_orders: &Pubkey,
    pool_coin_token_account: &Pubkey,
    pool_pc_token_account: &Pubkey,
    serum_program_id: &Pubkey,
    serum_market: &Pubkey,
    serum_bids: &Pubkey,
    serum_asks: &Pubkey,
    serum_event_queue: &Pubkey,
    serum_coin_vault_account: &Pubkey,
    serum_pc_vault_account: &Pubkey,
    serum_vault_signer: &Pubkey,
    user_source_token_account: &Pubkey,
    user_destination_token_account: &Pubkey,
    user_source_owner: &Pubkey,
    amount_in: u64,
    minimum_amount_out: u64,
) -> (r: Result<Instruction, AmmError>)
    ensures
        r matches Ok(instr) && instr.program_id == *program_id && instr.accounts@
            == spec_swap_accounts(
            *amm_id,
            *amm_authority,
            *amm_open_orders,
            *amm_target_orders,
            *pool_coin_token_account,
            *pool_pc_token_account,
            *serum_program_id,
            *serum_market,
            *serum_bids,
            *serum_asks,
            *serum_event_queue,
            *serum_coin_vault_account,
            *serum_pc_vault_account,
            *serum_vault_signer,
            *user_source_token_account,
            *user_destination_token_account,
            *user_source_owner,
        ) && instr.data@ == spec_pack(
            AmmInstruction::Swap(SwapInstruction { amount_in, minimum_amount_out }),
        ),
{
    let data = match AmmInstruction::Swap(
        SwapInstruction { amount_in, minimum_amount_out },
    ).pack() {
        Ok(d) => d,
        Err(e) => {
            return Err(e);
        },
    };
    let mut accounts: Vec<AccountMeta> = Vec::new();
    accounts.push(AccountMeta::new_readonly(token_program_id(), false));
    accounts.push(AccountMeta::new(*amm_id, false));
    accounts.push(AccountMeta::new_readonly(*amm_authority, false));
    accounts.push(AccountMeta::new(*amm_open_orders, false));
    accounts.push(AccountMeta::new(*amm_target_orders, false));
    accounts.push(AccountMeta::new(*pool_coin_token_account, false));
    accounts.push(AccountMeta::new(*pool_pc_token_account, false));
    accounts.push(AccountMeta::new_readonly(*serum_program_id, false));
    accounts.push(AccountMeta::new(*serum_market, false));
    accounts.push(AccountMeta::new(*serum_bids, false));
    accounts.push(AccountMeta::new(*serum_asks, false));
    accounts.push(AccountMeta::new(*serum_event_queue, false));
    accounts.push(AccountMeta::new(*serum_coin_vault_account, false));
    accounts.push(AccountMeta::new(*serum_pc_vault_account, false));
    accounts.push(AccountMeta::new_readonly(*serum_vault_signer, false));
    accounts.push(AccountMeta::new(*user_source_token_account, false));
    accounts.push(AccountMeta::new(*user_destination_token_account, false));
    accounts.push(AccountMeta::new_readonly(*user_source_owner, true));
    proof {
        assert(accounts@ =~= spec_swap_accounts(
            *amm_id,
            *amm_authority,
            *amm_open_orders,
            *amm_target_orders,
            *pool_coin_token_account,
            *pool_pc_token_account,
            *serum_program_id,
            *serum_market,
            *serum_bids,
            *serum_asks,
            *serum_event_queue,
            *serum_coin_vault_account,
            *serum_pc_vault_account,
            *serum_vault_signer,
            *user_source_token_account,
            *user_destination_token_account,
            *user_source_owner,
        ));
    }
    Ok(Instruction { program_id: *program_id, accounts, data })
}

/// Decode accepts tags `0` and `1` but encode emits `9` and `3`: re-encoding
/// a successfully decoded buffer never reproduces its tag byte, so a
/// decode/encode round trip is never the identity on the wire.
pub proof fn lemma_pack_changes_tag(input: Seq<u8>)
    requires
        spec_unpack(input) is Ok,
    ensures
        spec_pack(spec_unpack(input)->Ok_0)[0] != input[0],
{
    let repacked = spec_pack(spec_unpack(input)->Ok_0);
    if input[0] == 0 {
        assert(repacked[0] == 9);
    } else {
        assert(input[0] == 1);
        assert(repacked[0] == 3);
    }
}

} // verus!
