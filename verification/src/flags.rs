//! Blocking-mode control over a descriptor's status-flag word.
//!
//! All handling of flag bits lives here. The rest of the crate only asks for a
//! mode and receives the word that has to be written back.

use nix::fcntl::OFlag;
use vstd::prelude::*;

verus! {

/// The two modes a descriptor can be in.
#[derive(Clone, Copy, Debug, PartialEq, Eq, Structural)]
pub enum BlockingMode {
    Blocking,
    NonBlocking,
}

/// Why a change of blocking mode failed.
#[derive(Clone, Copy, Debug, PartialEq, Eq, Structural)]
pub enum FlagError {
    /// The status flags could not be read, or hold bits that cannot be
    /// interpreted.
    FlagQueryError,
    /// The new status flags could not be written back.
    FlagUpdateError,
}

/// What `nix::fcntl::OFlag::from_bits` makes of a flag word, as bits: `None`
/// where a bit is set that nix has no flag for on the target.
pub uninterp spec fn interpreted_flags(bits: i32) -> Option<i32>;

/// `flags` with every bit of `bit` set.
pub open spec fn spec_with_bit(flags: i32, bit: i32) -> i32 {
    flags | bit
}

/// `flags` with every bit of `bit` cleared.
pub open spec fn spec_without_bit(flags: i32, bit: i32) -> i32 {
    flags & !bit
}

/// Whether `flags` holds every bit of `bit`.
pub open spec fn spec_has_bit(flags: i32, bit: i32) -> bool {
    flags & bit == bit
}

/// The flag word that puts a descriptor with status flags `flags` into `mode`,
/// where `bit` marks non-blocking mode.
pub open spec fn spec_flags_for(mode: BlockingMode, flags: i32, bit: i32) -> i32 {
    match mode {
        BlockingMode::Blocking => spec_without_bit(flags, bit),
        BlockingMode::NonBlocking => spec_with_bit(flags, bit),
    }
}

/// Calls `nix::fcntl::OFlag::from_bits` and hands back the bits of the flags
/// it built. nix answers `None` when a bit is set that it has no flag for.
/// The contract claims only that the answer depends on the bits alone.
#[verifier::external_body]
fn interpret_flags(bits: i32) -> (r: Option<i32>)
    ensures
        r == interpreted_flags(bits),
{
    match OFlag::from_bits(bits) {
        Some(flags) => Some(flags.bits()),
        None => None,
    }
}

/// Whether `bit` is one flag bit: a positive word in which exactly one bit is
/// set.
pub open spec fn spec_is_one_bit(bit: i32) -> bool {
    bit > 0 && bit & ((bit - 1) as i32) == 0
}

/// The bits of `nix::fcntl::OFlag::O_NONBLOCK`, the platform's marker of
/// non-blocking mode. nix takes the constant from libc, which gives it a
/// value with exactly one bit set on every target that it defines it for.
/// The contract claims that of the value, and which bit it is stays open.
#[verifier::external_body]
fn platform_nonblock_bit() -> (bit: i32)
    ensures
        spec_is_one_bit(bit),
{
    OFlag::O_NONBLOCK.bits()
}

/// The bit that marks non-blocking mode among the status flags of a
/// descriptor on this platform: one flag bit. Which bit it is is the
/// platform's affair; whatever this layer computes with it is proved for
/// every value.
pub fn nonblock_bit() -> (bit: i32)
    ensures
        spec_is_one_bit(bit),
{
    platform_nonblock_bit()
}

/// `flags` with every bit of `bit` set and no other bit changed.
pub fn with_bit(flags: i32, bit: i32) -> (r: i32)
    ensures
        r == spec_with_bit(flags, bit),
{
    flags | bit
}

/// `flags` with every bit of `bit` cleared and no other bit changed.
pub fn without_bit(flags: i32, bit: i32) -> (r: i32)
    ensures
        r == spec_without_bit(flags, bit),
{
    flags & !bit
}

/// Whether `flags` holds every bit of `bit`.
pub fn has_bit(flags: i32, bit: i32) -> (r: bool)
    ensures
        r == spec_has_bit(flags, bit),
{
    flags & bit == bit
}

/// What a change of mode comes to once the flag word has been interpreted:
/// `FlagQueryError` where it could not be, and otherwise the word with the
/// non-blocking bit set or cleared and every other bit as it was.
pub open spec fn spec_apply_mode(
    mode: BlockingMode,
    interpreted: Option<i32>,
    flags: i32,
    bit: i32,
) -> Result<i32, FlagError> {
    match interpreted {
        Some(_) => Ok(spec_flags_for(mode, flags, bit)),
        None => Err(FlagError::FlagQueryError),
    }
}

/// Computes the flag word to write back, given what came of interpreting the
/// flag word that was read.
pub fn apply_mode(mode: BlockingMode, interpreted: Option<i32>, flags: i32, bit: i32) -> (r:
    Result<i32, FlagError>)
    ensures
        r == spec_apply_mode(mode, interpreted, flags, bit),
{
    match interpreted {
        Some(_) => match mode {
            BlockingMode::Blocking => Ok(without_bit(flags, bit)),
            BlockingMode::NonBlocking => Ok(with_bit(flags, bit)),
        },
        None => Err(FlagError::FlagQueryError),
    }
}

/// The flag word that puts a descriptor whose status flags read `flags` into
/// `mode`. Fails with `FlagQueryError` exactly when the flags hold a bit that
/// cannot be interpreted.
pub fn flags_for(mode: BlockingMode, flags: i32, bit: i32) -> (r: Result<i32, FlagError>)
    ensures
        r == spec_apply_mode(mode, interpreted_flags(flags), flags, bit),
{
    apply_mode(mode, interpret_flags(flags), flags, bit)
}

/// Setting a bit leaves it set, and touches no bit outside it.
pub proof fn lemma_with_bit(flags: i32, bit: i32)
    ensures
        spec_has_bit(spec_with_bit(flags, bit), bit),
        spec_with_bit(flags, bit) & !bit == flags & !bit,
{
    assert((flags | bit) & bit == bit) by (bit_vector);
    assert((flags | bit) & !bit == flags & !bit) by (bit_vector);
}

/// Clearing a bit leaves none of it set, and touches no bit outside it.
pub proof fn lemma_without_bit(flags: i32, bit: i32)
    ensures
        spec_without_bit(flags, bit) & bit == 0,
        bit != 0 ==> !spec_has_bit(spec_without_bit(flags, bit), bit),
        spec_without_bit(flags, bit) & !bit == flags & !bit,
{
    assert((flags & !bit) & bit == 0) by (bit_vector);
    assert((flags & !bit) & !bit == flags & !bit) by (bit_vector);
}

/// Asking for the same mode twice gives the flag word of the first time.
pub proof fn lemma_flags_for_idempotent(mode: BlockingMode, flags: i32, bit: i32)
    ensures
        spec_flags_for(mode, spec_flags_for(mode, flags, bit), bit) == spec_flags_for(
            mode,
            flags,
            bit,
        ),
{
    assert((flags | bit) | bit == flags | bit) by (bit_vector);
    assert((flags & !bit) & !bit == flags & !bit) by (bit_vector);
}

/// A word that already is in the mode asked for is left as it is.
pub proof fn lemma_flags_for_noop(mode: BlockingMode, flags: i32, bit: i32)
    ensures
        mode == BlockingMode::NonBlocking && spec_has_bit(flags, bit) ==> spec_flags_for(
            mode,
            flags,
            bit,
        ) == flags,
        mode == BlockingMode::Blocking && flags & bit == 0 ==> spec_flags_for(mode, flags, bit)
            == flags,
{
    assert(flags & bit == bit ==> flags | bit == flags) by (bit_vector);
    assert(flags & bit == 0 ==> flags & !bit == flags) by (bit_vector);
}

/// Where one flag bit marks non-blocking mode, a change of mode toggles
/// that bit at most: the new word differs from the old one in that bit or not
/// at all, and it is in the mode asked for and in no other.
pub proof fn lemma_one_bit_toggle(mode: BlockingMode, flags: i32, bit: i32)
    requires
        spec_is_one_bit(bit),
    ensures
        spec_flags_for(mode, flags, bit) ^ flags == 0 || spec_flags_for(mode, flags, bit) ^ flags
            == bit,
        spec_has_bit(spec_flags_for(mode, flags, bit), bit) <==> mode == BlockingMode::NonBlocking,
{
    assert(((flags | bit) ^ flags == 0 || (flags | bit) ^ flags == bit) && ((flags & !bit) ^ flags
        == 0 || (flags & !bit) ^ flags == bit)) by (bit_vector)
        requires
            bit > 0,
            bit & ((bit - 1) as i32) == 0,
    ;
    lemma_with_bit(flags, bit);
    lemma_without_bit(flags, bit);
}

} // verus!
