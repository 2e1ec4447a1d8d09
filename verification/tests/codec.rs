use amm_router::instruction::{AmmInstruction, DepositInstruction, SwapInstruction};
use amm_router::AmmError;

fn le(v: u64) -> [u8; 8] {
    v.to_le_bytes()
}

fn swap_buffer(amount_in: u64, minimum_amount_out: u64) -> Vec<u8> {
    let mut buf = vec![0u8];
    buf.extend_from_slice(&le(amount_in));
    buf.extend_from_slice(&le(minimum_amount_out));
    buf
}

fn deposit_buffer(max_coin: u64, max_pc: u64, base_side: u64) -> Vec<u8> {
    let mut buf = vec![1u8];
    buf.extend_from_slice(&le(max_coin));
    buf.extend_from_slice(&le(max_pc));
    buf.extend_from_slice(&le(base_side));
    buf
}

#[test]
fn unpack_swap_recovers_le_fields() {
    let buf = swap_buffer(7, 9);
    assert_eq!(buf.len(), 17);
    let r = AmmInstruction::unpack(&buf).unwrap();
    assert_eq!(
        r,
        AmmInstruction::Swap(SwapInstruction { amount_in: 7, minimum_amount_out: 9 })
    );
}

#[test]
fn unpack_swap_large_values() {
    let buf = swap_buffer(u64::MAX, 0x0102_0304_0506_0708);
    let r = AmmInstruction::unpack(&buf).unwrap();
    assert_eq!(
        r,
        AmmInstruction::Swap(SwapInstruction {
            amount_in: u64::MAX,
            minimum_amount_out: 0x0102_0304_0506_0708,
        })
    );
}

#[test]
fn unpack_swap_ignores_trailing_bytes() {
    let mut buf = swap_buffer(1000, 500);
    buf.extend_from_slice(&[0xAA, 0xBB, 0xCC]);
    let r = AmmInstruction::unpack(&buf).unwrap();
    assert_eq!(
        r,
        AmmInstruction::Swap(SwapInstruction { amount_in: 1000, minimum_amount_out: 500 })
    );
}

#[test]
fn unpack_deposit_recovers_le_fields() {
    let buf = deposit_buffer(100, 200, 3);
    assert_eq!(buf.len(), 25);
    let r = AmmInstruction::unpack(&buf).unwrap();
    assert_eq!(
        r,
        AmmInstruction::Deposit(DepositInstruction {
            max_coin_amount: 100,
            max_pc_amount: 200,
            base_side: 3,
        })
    );
}

#[test]
fn unpack_deposit_field_order_is_declared_order() {
    let buf = deposit_buffer(1, 2, 3);
    match AmmInstruction::unpack(&buf).unwrap() {
        AmmInstruction::Deposit(d) => {
            assert_eq!(d.max_coin_amount, 1);
            assert_eq!(d.max_pc_amount, 2);
            assert_eq!(d.base_side, 3);
        }
        other => panic!("expected a deposit, got {:?}", other),
    }
}

#[test]
fn unpack_rejects_unknown_tag() {
    let mut buf = vec![2u8];
    buf.extend_from_slice(&[0u8; 24]);
    assert_eq!(AmmInstruction::unpack(&buf), Err(AmmError::InvalidInstruction));
    let mut buf9 = vec![9u8];
    buf9.extend_from_slice(&[0u8; 16]);
    assert_eq!(AmmInstruction::unpack(&buf9), Err(AmmError::InvalidInstruction));
}

#[test]
fn unpack_rejects_truncated_buffers() {
    assert_eq!(AmmInstruction::unpack(&[]), Err(AmmError::InvalidInstruction));
    assert_eq!(
        AmmInstruction::unpack(&[0u8, 1, 2, 3, 4]),
        Err(AmmError::InvalidInstruction)
    );
    // one byte short of a full swap
    assert_eq!(
        AmmInstruction::unpack(&swap_buffer(7, 9)[..16]),
        Err(AmmError::InvalidInstruction)
    );
    // one byte short of a full deposit
    assert_eq!(
        AmmInstruction::unpack(&deposit_buffer(1, 2, 3)[..24]),
        Err(AmmError::InvalidInstruction)
    );
}

#[test]
fn pack_swap_emits_tag_nine() {
    let instr = AmmInstruction::Swap(SwapInstruction { amount_in: 1000, minimum_amount_out: 500 });
    let buf = instr.pack().unwrap();
    let mut expected = vec![9u8];
    expected.extend_from_slice(&le(1000));
    expected.extend_from_slice(&le(500));
    assert_eq!(buf, expected);
}

#[test]
fn pack_deposit_emits_tag_three() {
    let instr = AmmInstruction::Deposit(DepositInstruction {
        max_coin_amount: 90,
        max_pc_amount: 180,
        base_side: 0,
    });
    let buf = instr.pack().unwrap();
    let mut expected = vec![3u8];
    expected.extend_from_slice(&le(90));
    expected.extend_from_slice(&le(180));
    expected.extend_from_slice(&le(0));
    assert_eq!(buf, expected);
}

#[test]
fn pack_after_unpack_never_reproduces_the_tag() {
    // decode accepts tags 0 and 1; encode emits 9 and 3, so a round trip is
    // never the identity on the wire
    let swap = swap_buffer(7, 9);
    let repacked = AmmInstruction::unpack(&swap).unwrap().pack().unwrap();
    assert_ne!(repacked, swap);
    assert_eq!(swap[0], 0);
    assert_eq!(repacked[0], 9);
    assert_eq!(&repacked[1..17], &swap[1..17]);

    let deposit = deposit_buffer(100, 200, 0);
    let repacked = AmmInstruction::unpack(&deposit).unwrap().pack().unwrap();
    assert_ne!(repacked, deposit);
    assert_eq!(deposit[0], 1);
    assert_eq!(repacked[0], 3);
    assert_eq!(&repacked[1..25], &deposit[1..25]);
}

#[test]
fn unpack_helpers_read_and_advance() {
    let data = [5u8, 6, 7];
    let (v, rest) = AmmInstruction::unpack_u8(&data).unwrap();
    assert_eq!(v, 5);
    assert_eq!(rest, &[6, 7]);

    let data16 = [0x34u8, 0x12, 0xFF];
    let (v, rest) = AmmInstruction::unpack_u16(&data16).unwrap();
    assert_eq!(v, 0x1234);
    assert_eq!(rest, &[0xFF]);

    let mut data64 = le(0xDEAD_BEEF).to_vec();
    data64.push(0x55);
    let (v, rest) = AmmInstruction::unpack_u64(&data64).unwrap();
    assert_eq!(v, 0xDEAD_BEEF);
    assert_eq!(rest, &[0x55]);

    assert_eq!(AmmInstruction::unpack_u8(&[]), Err(AmmError::InvalidInstruction));
    assert_eq!(AmmInstruction::unpack_u16(&[1]), Err(AmmError::InvalidInstruction));
    assert_eq!(
        AmmInstruction::unpack_u64(&[1, 2, 3, 4, 5, 6, 7]),
        Err(AmmError::InvalidInstruction)
    );
}
