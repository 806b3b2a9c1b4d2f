use private_perps::program::{
    close_position, close_position_callback, liquidation_check, liquidation_check_callback,
    open_position, open_position_callback, Circuit, ErrorCode, LiquidationCheckEvent,
    PositionAccount, PositionClosedEvent, PositionOpenedEvent, SharedEncryptedStruct,
};

const TRADER: [u8; 32] = [7u8; 32];
const STRANGER: [u8; 32] = [9u8; 32];

fn account(is_open: bool) -> PositionAccount {
    PositionAccount {
        trader: TRADER,
        enc_position: [[0xA1; 32], [0xA2; 32], [0xA3; 32], [0xA4; 32]],
        position_nonce: 0x0A0B_u128.to_le_bytes(),
        is_open,
        opened_at: 1_000,
        closed_at: 0,
    }
}

fn args_debug(builder: arcium_anchor::ArgBuilder) -> (String, Vec<[u8; 32]>, Vec<u128>) {
    let list = builder.build();
    (format!("{:?}", list.args), list.byte_arrays, list.values_128_bit)
}

#[test]
fn account_length_counts_discriminator_and_fields() {
    assert_eq!(PositionAccount::LEN, 8 + 32 + 4 * 32 + 16 + 1 + 8 + 8);
}

#[test]
fn open_position_queues_order_arguments_and_announces() {
    let (builder, event) = open_position(TRADER, 77, [1; 32], [2; 32], [3; 32], [4; 32], [5; 32], 99);
    assert_eq!(event, PositionOpenedEvent { trader: TRADER, computation_offset: 77 });
    let (refs, bytes, values) = args_debug(builder);
    assert_eq!(
        refs,
        "[X25519Pubkey(0), PlaintextU128(0), EncryptedU64(1), EncryptedU64(2), EncryptedU8(3), EncryptedU8(4)]"
    );
    assert_eq!(bytes, vec![[5; 32], [1; 32], [2; 32], [3; 32], [4; 32]]);
    assert_eq!(values, vec![99u128]);
}

const POSITION_AND_FEED_REFS: &str = "[X25519Pubkey(0), PlaintextU128(0), EncryptedU64(1), EncryptedU64(2), EncryptedU8(3), EncryptedU8(4), X25519Pubkey(5), PlaintextU128(1), EncryptedU64(6), EncryptedU64(7), EncryptedU64(8)]";

#[test]
fn liquidation_check_queues_stored_position_and_feed() {
    let a = account(true);
    let builder = liquidation_check(&a, [1; 32], [2; 32], [3; 32], [5; 32], 42).unwrap();
    let (refs, bytes, values) = args_debug(builder);
    assert_eq!(refs, POSITION_AND_FEED_REFS);
    assert_eq!(
        bytes,
        vec![[5; 32], [0xA1; 32], [0xA2; 32], [0xA3; 32], [0xA4; 32], [5; 32], [1; 32], [2; 32], [3; 32]]
    );
    assert_eq!(values, vec![0x0A0B_u128, 42]);
}

#[test]
fn liquidation_check_refuses_closed_position() {
    let a = account(false);
    let r = liquidation_check(&a, [1; 32], [2; 32], [3; 32], [5; 32], 42);
    assert_eq!(r.err(), Some(ErrorCode::PositionNotOpen));
}

#[test]
fn close_position_by_owner_queues_position_and_feed() {
    let a = account(true);
    let builder = close_position(&a, TRADER, [1; 32], [2; 32], [3; 32], [5; 32], 8).unwrap();
    let (refs, bytes, values) = args_debug(builder);
    assert_eq!(refs, POSITION_AND_FEED_REFS);
    assert_eq!(
        bytes,
        vec![[5; 32], [0xA1; 32], [0xA2; 32], [0xA3; 32], [0xA4; 32], [5; 32], [1; 32], [2; 32], [3; 32]]
    );
    assert_eq!(values, vec![0x0A0B_u128, 8]);
}

#[test]
fn close_position_refuses_stranger() {
    let a = account(true);
    let r = close_position(&a, STRANGER, [1; 32], [2; 32], [3; 32], [5; 32], 8);
    assert_eq!(r.err(), Some(ErrorCode::Unauthorized));
}

#[test]
fn close_position_refuses_closed_position_before_checking_owner() {
    let a = account(false);
    let r = close_position(&a, STRANGER, [1; 32], [2; 32], [3; 32], [5; 32], 8);
    assert_eq!(r.err(), Some(ErrorCode::PositionNotOpen));
}

#[test]
fn open_callback_records_position() {
    let mut a = account(false);
    a.closed_at = 500;
    let output = SharedEncryptedStruct {
        encryption_key: [1; 32],
        nonce: 0x0102_0304_0506_0708_090A_0B0C_0D0E_0F10,
        ciphertexts: [[11; 32], [12; 32], [13; 32], [14; 32]],
    };
    assert_eq!(open_position_callback(&mut a, STRANGER, Some(output), 2_000), Ok(()));
    assert_eq!(
        a,
        PositionAccount {
            trader: STRANGER,
            enc_position: [[11; 32], [12; 32], [13; 32], [14; 32]],
            position_nonce: output.nonce.to_le_bytes(),
            is_open: true,
            opened_at: 2_000,
            closed_at: 500,
        }
    );
}

#[test]
fn open_callback_refuses_unverified_output() {
    let mut a = account(false);
    let before = a;
    assert_eq!(open_position_callback(&mut a, TRADER, None, 2_000), Err(ErrorCode::AbortedComputation));
    assert_eq!(a, before);
}

#[test]
fn liquidation_callback_announces_verdict() {
    let a = account(true);
    let output = SharedEncryptedStruct { encryption_key: [1; 32], nonce: 513, ciphertexts: [[21; 32]] };
    let event = liquidation_check_callback(&a, Some(output)).unwrap();
    assert_eq!(
        event,
        LiquidationCheckEvent {
            trader: TRADER,
            enc_should_liquidate: [21; 32],
            nonce: [1, 2, 0, 0, 0, 0, 0, 0, 0, 0, 0, 0, 0, 0, 0, 0],
        }
    );
}

#[test]
fn liquidation_callback_refuses_unverified_output() {
    let a = account(true);
    assert_eq!(liquidation_check_callback(&a, None), Err(ErrorCode::AbortedComputation));
}

#[test]
fn close_callback_closes_and_announces_pnl() {
    let mut a = account(true);
    let output = SharedEncryptedStruct {
        encryption_key: [1; 32],
        nonce: u128::MAX,
        ciphertexts: [[31; 32], [32; 32]],
    };
    let event = close_position_callback(&mut a, Some(output), 9_000).unwrap();
    assert_eq!(
        event,
        PositionClosedEvent {
            trader: TRADER,
            enc_pnl: [31; 32],
            enc_profit: [32; 32],
            pnl_nonce: [0xFF; 16],
            closed_at: 9_000,
        }
    );
    let mut expected = account(true);
    expected.is_open = false;
    expected.closed_at = 9_000;
    assert_eq!(a, expected);
}

#[test]
fn close_callback_refuses_unverified_output() {
    let mut a = account(true);
    let before = a;
    assert_eq!(close_position_callback(&mut a, None, 9_000).err(), Some(ErrorCode::AbortedComputation));
    assert_eq!(a, before);
}

#[test]
fn lifecycle_open_check_close() {
    let mut a = account(false);
    let output = SharedEncryptedStruct {
        encryption_key: [0; 32],
        nonce: 5,
        ciphertexts: [[1; 32], [2; 32], [3; 32], [4; 32]],
    };
    open_position_callback(&mut a, TRADER, Some(output), 10).unwrap();
    let queued = liquidation_check(&a, [0; 32], [0; 32], [0; 32], [0; 32], 1).unwrap();
    let (_, bytes, values) = args_debug(queued);
    assert_eq!(&bytes[1..5], &[[1; 32], [2; 32], [3; 32], [4; 32]]);
    assert_eq!(values[0], 5);
    assert_eq!(
        close_position(&a, STRANGER, [0; 32], [0; 32], [0; 32], [0; 32], 1).err(),
        Some(ErrorCode::Unauthorized)
    );
    assert!(close_position(&a, TRADER, [0; 32], [0; 32], [0; 32], [0; 32], 1).is_ok());
    let closing = SharedEncryptedStruct { encryption_key: [0; 32], nonce: 6, ciphertexts: [[2; 32]; 2] };
    close_position_callback(&mut a, Some(closing), 20).unwrap();
    assert_eq!(
        liquidation_check(&a, [0; 32], [0; 32], [0; 32], [0; 32], 1).err(),
        Some(ErrorCode::PositionNotOpen)
    );
    assert_eq!(
        close_position(&a, TRADER, [0; 32], [0; 32], [0; 32], [0; 32], 1).err(),
        Some(ErrorCode::PositionNotOpen)
    );
}

#[test]
fn error_messages() {
    assert_eq!(ErrorCode::PositionNotOpen.message(), "Position is not open");
    assert_eq!(ErrorCode::Unauthorized.message(), "Only the position owner can close it");
    assert_eq!(ErrorCode::AbortedComputation.message(), "MPC computation was aborted");
}

#[test]
fn circuit_names() {
    assert_eq!(Circuit::OpenPosition.name(), "open_position");
    assert_eq!(Circuit::LiquidationCheck.name(), "liquidation_check");
    assert_eq!(Circuit::ClosePosition.name(), "close_position");
}

#[test]
fn comp_def_offsets_come_from_circuit_names() {
    for c in [Circuit::OpenPosition, Circuit::LiquidationCheck, Circuit::ClosePosition] {
        assert_eq!(c.comp_def_offset(), arcium_anchor::comp_def_offset(c.name()));
    }
    assert_ne!(Circuit::OpenPosition.comp_def_offset(), Circuit::ClosePosition.comp_def_offset());
    assert_ne!(Circuit::OpenPosition.comp_def_offset(), Circuit::LiquidationCheck.comp_def_offset());
}
