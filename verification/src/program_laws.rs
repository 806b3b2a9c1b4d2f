//! Properties of the position lifecycle that hold for every account and request.

use vstd::prelude::*;

use crate::bytes::{le_byte, le_value, lemma_le_bytes_roundtrip};
use crate::arcium::{arg_byte_arrays, arg_refs, arg_values_128};
use vstd::arithmetic::power::pow;
use crate::program::{
    close_request_error, holds_position_and_feed_args, le_nonce, liquidation_request_error, records_closed, records_opened,
    ErrorCode, PositionAccount, SharedEncryptedStruct,
};
use arcium_anchor::ArgBuilder;

verus! {

/// Only the trader who owns an open position may close it: a close request that is not
/// refused comes from the account's trader and concerns an open position.
pub proof fn lemma_only_owner_closes(account: PositionAccount, signer: [u8; 32])
    ensures
        close_request_error(account, signer) is None ==> account.is_open && account.trader
            == signer,
{
    if close_request_error(account, signer) is None {
        assert(account.trader@ =~= signer@);
        assert(account.trader =~= signer);
    }
}

/// Once an open-position computation has been recorded, the position can be checked for
/// liquidation, its trader can close it, and nobody else can.
pub proof fn lemma_opened_position_accepts_requests(
    before: PositionAccount,
    after: PositionAccount,
    trader: [u8; 32],
    output: SharedEncryptedStruct<4>,
    now: i64,
    other: [u8; 32],
)
    requires
        records_opened(before, after, trader, output, now),
    ensures
        liquidation_request_error(after) is None,
        close_request_error(after, trader) is None,
        other != trader ==> close_request_error(after, other) == Some(ErrorCode::Unauthorized),
{
    if other != trader {
        assert(other@ != trader@) by {
            if other@ == trader@ {
                assert(other =~= trader);
            }
        }
    }
}

/// Once a position has been recorded as closed, every liquidation check and every close
/// request is refused because the position is not open.
pub proof fn lemma_closed_position_refuses_requests(
    before: PositionAccount,
    after: PositionAccount,
    now: i64,
    signer: [u8; 32],
)
    requires
        records_closed(before, after, now),
    ensures
        liquidation_request_error(after) == Some(ErrorCode::PositionNotOpen),
        close_request_error(after, signer) == Some(ErrorCode::PositionNotOpen),
{
}

/// Closing keeps who traded the position, its ciphertext, its nonce and when it opened.
pub proof fn lemma_close_keeps_record(before: PositionAccount, after: PositionAccount, now: i64)
    requires
        records_closed(before, after, now),
    ensures
        after.trader == before.trader,
        after.enc_position == before.enc_position,
        after.position_nonce == before.position_nonce,
        after.opened_at == before.opened_at,
        after.closed_at == now,
        !after.is_open,
{
}

/// The nonce bytes stored when a position opens read back, little-endian, as the nonce
/// the computation's output was encrypted under.
pub proof fn lemma_stored_nonce_reads_back(
    before: PositionAccount,
    after: PositionAccount,
    trader: [u8; 32],
    output: SharedEncryptedStruct<4>,
    now: i64,
)
    requires
        records_opened(before, after, trader, output, now),
    ensures
        le_value(after.position_nonce@, 16) == output.nonce,
{
    assert forall|i: int| 0 <= i < 16 implies #[trigger] after.position_nonce[i]
        == le_byte(output.nonce, i as nat) by {
        assert(after.position_nonce@[i] == le_nonce(output.nonce)[i]);
    }
    lemma_le_bytes_roundtrip(output.nonce, after.position_nonce);
}

/// A liquidation check or close queued after an open callback hands the computation
/// the whole encrypted position that the callback stored: its four ciphertexts, in
/// order, under the nonce they were encrypted with.
pub proof fn lemma_queued_position_is_stored_output(
    before: PositionAccount,
    after: PositionAccount,
    trader: [u8; 32],
    output: SharedEncryptedStruct<4>,
    now: i64,
    builder: ArgBuilder,
    enc_mark_price: [u8; 32],
    enc_funding_rate: [u8; 32],
    enc_timestamp: [u8; 32],
    pub_key: [u8; 32],
    nonce: u128,
)
    requires
        records_opened(before, after, trader, output, now),
        holds_position_and_feed_args(
            builder,
            after,
            enc_mark_price,
            enc_funding_rate,
            enc_timestamp,
            pub_key,
            nonce,
        ),
    ensures
        arg_values_128(builder)[0] == output.nonce,
        arg_byte_arrays(builder).subrange(1, 5) == seq![
            output.ciphertexts[0]@,
            output.ciphertexts[1]@,
            output.ciphertexts[2]@,
            output.ciphertexts[3]@,
        ],
{
    lemma_stored_nonce_reads_back(before, after, trader, output, now);
    assert(arg_byte_arrays(builder).subrange(1, 5) =~= seq![
        output.ciphertexts[0]@,
        output.ciphertexts[1]@,
        output.ciphertexts[2]@,
        output.ciphertexts[3]@,
    ]);
}

/// A liquidation check is refused, with `PositionNotOpen`, exactly when the position is
/// closed; a close is refused with `PositionNotOpen` when the position is closed, else
/// with `Unauthorized` when the signer is not the trader, and accepted otherwise.
pub proof fn lemma_request_errors_exact(account: PositionAccount, signer: [u8; 32])
    ensures
        !account.is_open ==> liquidation_request_error(account) == Some(ErrorCode::PositionNotOpen),
        account.is_open ==> liquidation_request_error(account) is None,
        !account.is_open ==> close_request_error(account, signer) == Some(
            ErrorCode::PositionNotOpen,
        ),
        account.is_open && account.trader != signer ==> close_request_error(account, signer)
            == Some(ErrorCode::Unauthorized),
        account.is_open && account.trader == signer ==> close_request_error(account, signer)
            is None,
{
    if account.is_open && account.trader != signer {
        assert(account.trader@ != signer@) by {
            if account.trader@ == signer@ {
                assert(account.trader =~= signer);
            }
        }
    }
}

/// The little-endian nonce bytes are sixteen bytes, byte `i` being the nonce divided by
/// `256^i`, modulo 256.
pub proof fn lemma_le_nonce_bytes(nonce: u128)
    ensures
        le_nonce(nonce).len() == 16,
        forall|i: int| 0 <= i < 16 ==> #[trigger] le_nonce(nonce)[i] as int == (nonce as int / pow(
            256,
            i as nat,
        )) % 256,
{
}

/// An open callback records the trader, all four ciphertexts of the output and its nonce
/// (byte `i` being the nonce over `256^i`, modulo 256), marks the position open at
/// `now`, and keeps the earlier close time.
pub proof fn lemma_open_records_output(
    before: PositionAccount,
    after: PositionAccount,
    trader: [u8; 32],
    output: SharedEncryptedStruct<4>,
    now: i64,
)
    requires
        records_opened(before, after, trader, output, now),
    ensures
        after.trader == trader,
        after.enc_position == output.ciphertexts,
        forall|i: int| 0 <= i < 16 ==> #[trigger] after.position_nonce[i] as int == (
        output.nonce as int / pow(256, i as nat)) % 256,
        after.is_open,
        after.opened_at == now,
        after.closed_at == before.closed_at,
{
    lemma_le_nonce_bytes(output.nonce);
    assert forall|i: int| 0 <= i < 16 implies #[trigger] after.position_nonce[i] as int == (
    output.nonce as int / pow(256, i as nat)) % 256 by {
        assert(after.position_nonce[i] == after.position_nonce@[i]);
        assert(after.position_nonce@[i] == le_nonce(output.nonce)[i]);
    }
}

/// A queued liquidation check or close carries, in order: the trader's key, the stored
/// position nonce, the four stored position ciphertexts as two `u64` and two `u8`
/// ciphertexts, the trader's key again, the feed's nonce, and the three feed
/// ciphertexts as `u64` ciphertexts.
pub proof fn lemma_queued_args_shape(
    builder: ArgBuilder,
    account: PositionAccount,
    enc_mark_price: [u8; 32],
    enc_funding_rate: [u8; 32],
    enc_timestamp: [u8; 32],
    pub_key: [u8; 32],
    nonce: u128,
)
    requires
        holds_position_and_feed_args(
            builder,
            account,
            enc_mark_price,
            enc_funding_rate,
            enc_timestamp,
            pub_key,
            nonce,
        ),
    ensures
        arg_refs(builder) == seq![
            ("X25519Pubkey"@, 0nat),
            ("PlaintextU128"@, 0nat),
            ("EncryptedU64"@, 1nat),
            ("EncryptedU64"@, 2nat),
            ("EncryptedU8"@, 3nat),
            ("EncryptedU8"@, 4nat),
            ("X25519Pubkey"@, 5nat),
            ("PlaintextU128"@, 1nat),
            ("EncryptedU64"@, 6nat),
            ("EncryptedU64"@, 7nat),
            ("EncryptedU64"@, 8nat),
        ],
        arg_byte_arrays(builder) == seq![
            pub_key@,
            account.enc_position[0]@,
            account.enc_position[1]@,
            account.enc_position[2]@,
            account.enc_position[3]@,
            pub_key@,
            enc_mark_price@,
            enc_funding_rate@,
            enc_timestamp@,
        ],
        arg_values_128(builder).len() == 2,
        arg_values_128(builder)[0] as int == le_value(account.position_nonce@, 16),
        arg_values_128(builder)[1] == nonce,
{
}

} // verus!
