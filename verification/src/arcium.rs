//! The calls into the Arcium toolkit that the program's logic makes: the offset of
//! a computation definition, and the builder of a queued computation's argument list.
//! Every item here is trusted: Verus believes its contract.

use vstd::prelude::*;

use arcium_anchor::ArgBuilder;

verus! {

/// Offset that `arcium_anchor::comp_def_offset` assigns to the circuit with the given
/// name (the first four bytes of the name's SHA-256 digest, read little-endian).
pub uninterp spec fn comp_def_offset_of(name: Seq<char>) -> u32;

/// Calls `arcium_anchor::comp_def_offset`; its result is named `comp_def_offset_of`,
/// a function of the name alone.
#[verifier::external_body]
pub(crate) fn comp_def_offset(name: &str) -> (offset: u32)
    ensures
        offset == comp_def_offset_of(name@),
{
    arcium_anchor::comp_def_offset(name)
}

/// `ArgBuilder` is carried through the library as an opaque value.
#[verifier::external_type_specification]
#[verifier::external_body]
pub struct ExArgBuilder(ArgBuilder);

/// The argument references an `ArgBuilder` holds, in order: each one's variant name
/// and the index it carries.
pub uninterp spec fn arg_refs(builder: ArgBuilder) -> Seq<(Seq<char>, nat)>;

/// The 32-byte arrays an `ArgBuilder` holds, in order.
pub uninterp spec fn arg_byte_arrays(builder: ArgBuilder) -> Seq<Seq<u8>>;

/// The 128-bit values an `ArgBuilder` holds, in order.
pub uninterp spec fn arg_values_128(builder: ArgBuilder) -> Seq<u128>;

/// Calls `ArgBuilder::new`, which starts with every list empty.
#[verifier::external_body]
pub(crate) fn arg_builder_new() -> (builder: ArgBuilder)
    ensures
        arg_refs(builder) == Seq::<(Seq<char>, nat)>::empty(),
        arg_byte_arrays(builder) == Seq::<Seq<u8>>::empty(),
        arg_values_128(builder) == Seq::<u128>::empty(),
{
    ArgBuilder::new()
}

/// Calls `ArgBuilder::x25519_pubkey`: appends an `X25519Pubkey` reference to the next
/// byte-array slot and the key to the byte arrays. It panics once 256 byte arrays are
/// held, so that is ruled out.
#[verifier::external_body]
pub(crate) fn arg_x25519_pubkey(builder: ArgBuilder, key: [u8; 32]) -> (next: ArgBuilder)
    requires
        arg_byte_arrays(builder).len() < 256,
    ensures
        arg_refs(next) == arg_refs(builder).push(
            ("X25519Pubkey"@, arg_byte_arrays(builder).len()),
        ),
        arg_byte_arrays(next) == arg_byte_arrays(builder).push(key@),
        arg_values_128(next) == arg_values_128(builder),
{
    builder.x25519_pubkey(key)
}

/// Calls `ArgBuilder::plaintext_u128`: appends a `PlaintextU128` reference to the next
/// 128-bit slot and the value to the 128-bit values. It panics once 256 such values are
/// held, so that is ruled out.
#[verifier::external_body]
pub(crate) fn arg_plaintext_u128(builder: ArgBuilder, value: u128) -> (next: ArgBuilder)
    requires
        arg_values_128(builder).len() < 256,
    ensures
        arg_refs(next) == arg_refs(builder).push(
            ("PlaintextU128"@, arg_values_128(builder).len()),
        ),
        arg_byte_arrays(next) == arg_byte_arrays(builder),
        arg_values_128(next) == arg_values_128(builder).push(value),
{
    builder.plaintext_u128(value)
}

/// Calls `ArgBuilder::encrypted_u64`: appends an `EncryptedU64` reference to the next
/// byte-array slot and the ciphertext to the byte arrays. It panics once 256 byte arrays
/// are held, so that is ruled out.
#[verifier::external_body]
pub(crate) fn arg_encrypted_u64(builder: ArgBuilder, ciphertext: [u8; 32]) -> (next: ArgBuilder)
    requires
        arg_byte_arrays(builder).len() < 256,
    ensures
        arg_refs(next) == arg_refs(builder).push(
            ("EncryptedU64"@, arg_byte_arrays(builder).len()),
        ),
        arg_byte_arrays(next) == arg_byte_arrays(builder).push(ciphertext@),
        arg_values_128(next) == arg_values_128(builder),
{
    builder.encrypted_u64(ciphertext)
}

/// Calls `ArgBuilder::encrypted_u8`: appends an `EncryptedU8` reference to the next
/// byte-array slot and the ciphertext to the byte arrays. It panics once 256 byte arrays
/// are held, so that is ruled out.
#[verifier::external_body]
pub(crate) fn arg_encrypted_u8(builder: ArgBuilder, ciphertext: [u8; 32]) -> (next: ArgBuilder)
    requires
        arg_byte_arrays(builder).len() < 256,
    ensures
        arg_refs(next) == arg_refs(builder).push(
            ("EncryptedU8"@, arg_byte_arrays(builder).len()),
        ),
        arg_byte_arrays(next) == arg_byte_arrays(builder).push(ciphertext@),
        arg_values_128(next) == arg_values_128(builder),
{
    builder.encrypted_u8(ciphertext)
}

} // verus!
