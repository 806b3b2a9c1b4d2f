//! The bookkeeping of the on-chain program: which requests it accepts, the argument
//! lists it queues for the confidential computations, and how the computations'
//! callbacks update a position account and what they announce.

use vstd::prelude::*;

use arcium_anchor::ArgBuilder;

use crate::arcium::{
    arg_builder_new, arg_byte_arrays, arg_encrypted_u64, arg_encrypted_u8, arg_plaintext_u128,
    arg_refs, arg_values_128, arg_x25519_pubkey, comp_def_offset, comp_def_offset_of,
};
use crate::bytes::{bytes32_eq, le_byte, le_value, nonce_from_le_bytes, nonce_to_le_bytes};

verus! {

/// The on-chain record of a trader's position. Its contents stay encrypted: the
/// program keeps the position's four ciphertexts (size, entry price, direction,
/// leverage) and the little-endian bytes of the nonce they were encrypted under.
#[derive(Clone, Copy, Debug, PartialEq, Eq)]
pub struct PositionAccount {
    pub trader: [u8; 32],
    pub enc_position: [[u8; 32]; 4],
    pub position_nonce: [u8; 16],
    pub is_open: bool,
    pub opened_at: i64,
    pub closed_at: i64,
}

impl PositionAccount {
    /// Bytes the account occupies: an 8-byte discriminator followed by its fields.
    pub const LEN: usize = 8 + 32 + 4 * 32 + 16 + 1 + 8 + 8;
}

/// Announced when an open-position computation has been queued.
#[derive(Clone, Copy, Debug, PartialEq, Eq)]
pub struct PositionOpenedEvent {
    pub trader: [u8; 32],
    pub computation_offset: u64,
}

/// Announced when a liquidation check has finished: the encrypted verdict.
#[derive(Clone, Copy, Debug, PartialEq, Eq)]
pub struct LiquidationCheckEvent {
    pub trader: [u8; 32],
    pub enc_should_liquidate: [u8; 32],
    pub nonce: [u8; 16],
}

/// Announced when a position has been closed: the encrypted profit and loss.
#[derive(Clone, Copy, Debug, PartialEq, Eq)]
pub struct PositionClosedEvent {
    pub trader: [u8; 32],
    pub enc_pnl: [u8; 32],
    pub enc_profit: [u8; 32],
    pub pnl_nonce: [u8; 16],
    pub closed_at: i64,
}

/// Why the program refuses a request or a callback.
#[derive(Clone, Copy, Debug, PartialEq, Eq, Structural)]
pub enum ErrorCode {
    PositionNotOpen,
    Unauthorized,
    AbortedComputation,
}

/// The message that goes with each error.
pub open spec fn error_message(error: ErrorCode) -> Seq<char> {
    match error {
        ErrorCode::PositionNotOpen => "Position is not open"@,
        ErrorCode::Unauthorized => "Only the position owner can close it"@,
        ErrorCode::AbortedComputation => "MPC computation was aborted"@,
    }
}

impl ErrorCode {
    /// The message that goes with this error.
    pub fn message(&self) -> (text: &'static str)
        ensures
            text@ == error_message(*self),
    {
        match self {
            ErrorCode::PositionNotOpen => "Position is not open",
            ErrorCode::Unauthorized => "Only the position owner can close it",
            ErrorCode::AbortedComputation => "MPC computation was aborted",
        }
    }
}

/// A computation's output encrypted for the trader: the key it is shared under, the
/// nonce, and one ciphertext per field of the output.
#[derive(Clone, Copy, Debug, PartialEq, Eq)]
pub struct SharedEncryptedStruct<const LEN: usize> {
    pub encryption_key: [u8; 32],
    pub nonce: u128,
    pub ciphertexts: [[u8; 32]; LEN],
}

/// The confidential computations the program queues.
#[derive(Clone, Copy, Debug, PartialEq, Eq, Structural)]
pub enum Circuit {
    OpenPosition,
    LiquidationCheck,
    ClosePosition,
}

/// The name under which each computation is defined.
pub open spec fn circuit_name(circuit: Circuit) -> Seq<char> {
    match circuit {
        Circuit::OpenPosition => "open_position"@,
        Circuit::LiquidationCheck => "liquidation_check"@,
        Circuit::ClosePosition => "close_position"@,
    }
}

impl Circuit {
    /// The name under which this computation is defined.
    pub fn name(&self) -> (name: &'static str)
        ensures
            name@ == circuit_name(*self),
    {
        match self {
            Circuit::OpenPosition => "open_position",
            Circuit::LiquidationCheck => "liquidation_check",
            Circuit::ClosePosition => "close_position",
        }
    }

    /// The offset of this computation's definition, derived from its name.
    pub fn comp_def_offset(&self) -> (offset: u32)
        ensures
            offset == comp_def_offset_of(circuit_name(*self)),
    {
        comp_def_offset(self.name())
    }
}

/// The little-endian bytes of a nonce.
pub open spec fn le_nonce(nonce: u128) -> Seq<u8> {
    Seq::new(16, |i: int| le_byte(nonce, i as nat))
}

/// The argument references queued for opening a position.
pub open spec fn open_position_arg_refs() -> Seq<(Seq<char>, nat)> {
    seq![
        ("X25519Pubkey"@, 0nat),
        ("PlaintextU128"@, 0nat),
        ("EncryptedU64"@, 1nat),
        ("EncryptedU64"@, 2nat),
        ("EncryptedU8"@, 3nat),
        ("EncryptedU8"@, 4nat),
    ]
}

/// The argument references queued for a liquidation check or a close: the encrypted
/// position (the trader's key, the position's nonce, then its size, entry price,
/// direction and leverage), followed by the encrypted price feed (the trader's key,
/// the feed's nonce, then its mark price, funding rate and timestamp).
pub open spec fn position_and_feed_arg_refs() -> Seq<(Seq<char>, nat)> {
    seq![
        ("X25519Pubkey"@, 0nat),
        ("PlaintextU128"@, 0nat),
        ("EncryptedU64"@, 1nat),
        ("EncryptedU64"@, 2nat),
        ("EncryptedU8"@, 3nat),
        ("EncryptedU8"@, 4nat),
        ("X25519Pubkey"@, 5nat),
        ("PlaintextU128"@, 1nat),
        ("EncryptedU64"@, 6nat),
        ("EncryptedU64"@, 7nat),
        ("EncryptedU64"@, 8nat),
    ]
}

/// The arguments queued for a liquidation check or a close of `account`.
pub open spec fn holds_position_and_feed_args(
    builder: ArgBuilder,
    account: PositionAccount,
    enc_mark_price: [u8; 32],
    enc_funding_rate: [u8; 32],
    enc_timestamp: [u8; 32],
    pub_key: [u8; 32],
    nonce: u128,
) -> bool {
    &&& arg_refs(builder) == position_and_feed_arg_refs()
    &&& arg_byte_arrays(builder) == seq![
        pub_key@,
        account.enc_position[0]@,
        account.enc_position[1]@,
        account.enc_position[2]@,
        account.enc_position[3]@,
        pub_key@,
        enc_mark_price@,
        enc_funding_rate@,
        enc_timestamp@,
    ]
    &&& arg_values_128(builder).len() == 2
    &&& arg_values_128(builder)[0] as int == le_value(account.position_nonce@, 16)
    &&& arg_values_128(builder)[1] == nonce
}

/// Which error, if any, refuses a liquidation check of this account.
pub open spec fn liquidation_request_error(account: PositionAccount) -> Option<ErrorCode> {
    if !account.is_open {
        Some(ErrorCode::PositionNotOpen)
    } else {
        None
    }
}

/// Which error, if any, refuses a close of this account requested by `signer`.
pub open spec fn close_request_error(account: PositionAccount, signer: [u8; 32]) -> Option<
    ErrorCode,
> {
    if !account.is_open {
        Some(ErrorCode::PositionNotOpen)
    } else if account.trader@ != signer@ {
        Some(ErrorCode::Unauthorized)
    } else {
        None
    }
}

/// `after` is `before` with the opened position recorded for `trader` at time `now`.
pub open spec fn records_opened(
    before: PositionAccount,
    after: PositionAccount,
    trader: [u8; 32],
    output: SharedEncryptedStruct<4>,
    now: i64,
) -> bool {
    &&& after.trader == trader
    &&& after.enc_position == output.ciphertexts
    &&& after.position_nonce@ == le_nonce(output.nonce)
    &&& after.is_open
    &&& after.opened_at == now
    &&& after.closed_at == before.closed_at
}

/// `after` is `before` marked closed at time `now`.
pub open spec fn records_closed(before: PositionAccount, after: PositionAccount, now: i64) -> bool {
    after == PositionAccount { is_open: false, closed_at: now, ..before }
}

/// Builds the argument list of a liquidation check or a close of `account`.
fn position_and_feed_args(
    account: &PositionAccount,
    enc_mark_price: [u8; 32],
    enc_funding_rate: [u8; 32],
    enc_timestamp: [u8; 32],
    pub_key: [u8; 32],
    nonce: u128,
) -> (builder: ArgBuilder)
    ensures
        holds_position_and_feed_args(
            builder,
            *account,
            enc_mark_price,
            enc_funding_rate,
            enc_timestamp,
            pub_key,
            nonce,
        ),
{
    let position_nonce = nonce_from_le_bytes(account.position_nonce);
    let b = arg_builder_new();
    let b = arg_x25519_pubkey(b, pub_key);
    let b = arg_plaintext_u128(b, position_nonce);
    let b = arg_encrypted_u64(b, account.enc_position[0]);
    let b = arg_encrypted_u64(b, account.enc_position[1]);
    let b = arg_encrypted_u8(b, account.enc_position[2]);
    let b = arg_encrypted_u8(b, account.enc_position[3]);
    let b = arg_x25519_pubkey(b, pub_key);
    let b = arg_plaintext_u128(b, nonce);
    let b = arg_encrypted_u64(b, enc_mark_price);
    let b = arg_encrypted_u64(b, enc_funding_rate);
    let b = arg_encrypted_u64(b, enc_timestamp);
    assert(arg_refs(b) =~= position_and_feed_arg_refs());
    assert(arg_byte_arrays(b) =~= seq![
        pub_key@,
        account.enc_position[0]@,
        account.enc_position[1]@,
        account.enc_position[2]@,
        account.enc_position[3]@,
        pub_key@,
        enc_mark_price@,
        enc_funding_rate@,
        enc_timestamp@,
    ]);
    b
}

/// Opens a position: the argument list to queue for the open-position computation,
/// and the event that announces it.
pub fn open_position(
    trader: [u8; 32],
    computation_offset: u64,
    enc_size: [u8; 32],
    enc_limit_price: [u8; 32],
    enc_is_short: [u8; 32],
    enc_leverage: [u8; 32],
    pub_key: [u8; 32],
    nonce: u128,
) -> (queued: (ArgBuilder, PositionOpenedEvent))
    ensures
        arg_refs(queued.0) == open_position_arg_refs(),
        arg_refs(queued.0) == seq![
            ("X25519Pubkey"@, 0nat),
            ("PlaintextU128"@, 0nat),
            ("EncryptedU64"@, 1nat),
            ("EncryptedU64"@, 2nat),
            ("EncryptedU8"@, 3nat),
            ("EncryptedU8"@, 4nat),
        ],
        arg_byte_arrays(queued.0) == seq![
            pub_key@,
            enc_size@,
            enc_limit_price@,
            enc_is_short@,
            enc_leverage@,
        ],
        arg_values_128(queued.0) == seq![nonce],
        queued.1 == (PositionOpenedEvent { trader, computation_offset }),
{
    let b = arg_builder_new();
    let b = arg_x25519_pubkey(b, pub_key);
    let b = arg_plaintext_u128(b, nonce);
    let b = arg_encrypted_u64(b, enc_size);
    let b = arg_encrypted_u64(b, enc_limit_price);
    let b = arg_encrypted_u8(b, enc_is_short);
    let b = arg_encrypted_u8(b, enc_leverage);
    (b, PositionOpenedEvent { trader, computation_offset })
}

/// Requests a liquidation check of an account at the given encrypted price feed: refused
/// unless the position is open, otherwise the argument list to queue.
pub fn liquidation_check(
    account: &PositionAccount,
    enc_mark_price: [u8; 32],
    enc_funding_rate: [u8; 32],
    enc_timestamp: [u8; 32],
    pub_key: [u8; 32],
    nonce: u128,
) -> (queued: Result<ArgBuilder, ErrorCode>)
    ensures
        match queued {
            Ok(builder) => liquidation_request_error(*account) is None && holds_position_and_feed_args(
                builder,
                *account,
                enc_mark_price,
                enc_funding_rate,
                enc_timestamp,
                pub_key,
                nonce,
            ),
            Err(error) => liquidation_request_error(*account) == Some(error),
        },
{
    if !account.is_open {
        return Err(ErrorCode::PositionNotOpen);
    }
    Ok(
        position_and_feed_args(
            account,
            enc_mark_price,
            enc_funding_rate,
            enc_timestamp,
            pub_key,
            nonce,
        ),
    )
}

/// Requests that `signer` close an account's position at the given encrypted price feed:
/// refused unless the position is open and `signer` is its trader, otherwise the
/// argument list to queue.
pub fn close_position(
    account: &PositionAccount,
    signer: [u8; 32],
    enc_mark_price: [u8; 32],
    enc_funding_rate: [u8; 32],
    enc_timestamp: [u8; 32],
    pub_key: [u8; 32],
    nonce: u128,
) -> (queued: Result<ArgBuilder, ErrorCode>)
    ensures
        match queued {
            Ok(builder) => close_request_error(*account, signer) is None && holds_position_and_feed_args(
                builder,
                *account,
                enc_mark_price,
                enc_funding_rate,
                enc_timestamp,
                pub_key,
                nonce,
            ),
            Err(error) => close_request_error(*account, signer) == Some(error),
        },
{
    if !account.is_open {
        return Err(ErrorCode::PositionNotOpen);
    }
    if !bytes32_eq(&account.trader, &signer) {
        return Err(ErrorCode::Unauthorized);
    }
    Ok(
        position_and_feed_args(
            account,
            enc_mark_price,
            enc_funding_rate,
            enc_timestamp,
            pub_key,
            nonce,
        ),
    )
}

/// Records the result of an open-position computation. A computation whose output did
/// not verify (`None`) is refused and the account is left as it was.
pub fn open_position_callback(
    account: &mut PositionAccount,
    trader: [u8; 32],
    output: Option<SharedEncryptedStruct<4>>,
    now: i64,
) -> (result: Result<(), ErrorCode>)
    ensures
        match output {
            Some(o) => result is Ok && records_opened(*old(account), *final(account), trader, o, now),
            None => result == Err::<(), ErrorCode>(ErrorCode::AbortedComputation) && *final(account)
                == *old(account),
        },
{
    match output {
        None => Err(ErrorCode::AbortedComputation),
        Some(o) => {
            let nonce_bytes = nonce_to_le_bytes(o.nonce);
            account.trader = trader;
            account.enc_position = o.ciphertexts;
            account.position_nonce = nonce_bytes;
            account.is_open = true;
            account.opened_at = now;
            assert(account.position_nonce@ =~= le_nonce(o.nonce));
            Ok(())
        },
    }
}

/// Announces the encrypted verdict of a liquidation check. A computation whose output did
/// not verify (`None`) is refused.
pub fn liquidation_check_callback(
    account: &PositionAccount,
    output: Option<SharedEncryptedStruct<1>>,
) -> (result: Result<LiquidationCheckEvent, ErrorCode>)
    ensures
        match output {
            Some(o) => {
                &&& result matches Ok(event)
                &&& event.trader == account.trader
                &&& event.enc_should_liquidate == o.ciphertexts[0]
                &&& event.nonce@ == le_nonce(o.nonce)
            },
            None => result == Err::<LiquidationCheckEvent, ErrorCode>(
                ErrorCode::AbortedComputation,
            ),
        },
{
    match output {
        None => Err(ErrorCode::AbortedComputation),
        Some(o) => {
            let nonce = nonce_to_le_bytes(o.nonce);
            assert(nonce@ =~= le_nonce(o.nonce));
            Ok(
                LiquidationCheckEvent {
                    trader: account.trader,
                    enc_should_liquidate: o.ciphertexts[0],
                    nonce,
                },
            )
        },
    }
}

/// Records that a position has been closed at time `now` and announces its encrypted
/// profit and loss. A computation whose output did not verify (`None`) is refused and
/// the account is left as it was.
pub fn close_position_callback(
    account: &mut PositionAccount,
    output: Option<SharedEncryptedStruct<2>>,
    now: i64,
) -> (result: Result<PositionClosedEvent, ErrorCode>)
    ensures
        match output {
            Some(o) => {
                &&& records_closed(*old(account), *final(account), now)
                &&& result matches Ok(event)
                &&& event.trader == old(account).trader
                &&& event.enc_pnl == o.ciphertexts[0]
                &&& event.enc_profit == o.ciphertexts[1]
                &&& event.pnl_nonce@ == le_nonce(o.nonce)
                &&& event.closed_at == now
            },
            None => result == Err::<PositionClosedEvent, ErrorCode>(ErrorCode::AbortedComputation)
                && *final(account) == *old(account),
        },
{
    match output {
        None => Err(ErrorCode::AbortedComputation),
        Some(o) => {
            account.is_open = false;
            account.closed_at = now;
            let pnl_nonce = nonce_to_le_bytes(o.nonce);
            assert(pnl_nonce@ =~= le_nonce(o.nonce));
            Ok(
                PositionClosedEvent {
                    trader: account.trader,
                    enc_pnl: o.ciphertexts[0],
                    enc_profit: o.ciphertexts[1],
                    pnl_nonce,
                    closed_at: account.closed_at,
                },
            )
        },
    }
}

} // verus!
