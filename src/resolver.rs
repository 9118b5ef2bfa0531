use vstd::prelude::*;
use crate::scanner::{is_first_match, never_matches, scan};

verus! {

/// Where the game's main module lies in its address space: the window that is
/// scanned for the signature.
#[derive(Clone, Copy, Debug, PartialEq, Eq, Structural)]
pub struct ModuleRange {
    pub base: u64,
    pub size: u64,
}

/// Addresses found once per attachment.
#[derive(Clone, Copy, Debug, PartialEq, Eq, Structural)]
pub struct ResolvedAddresses {
    /// Address of the byte that is non-zero while the game is loading.
    pub is_loading: u64,
}

/// Length of the instruction that the signature covers; its relative operand
/// starts right after it.
pub const SIGNATURE_LEN: u64 = 5;

/// Length of the relative operand that follows the signature.
pub const DISPLACEMENT_LEN: u64 = 4;

/// The bytes of the instruction that reads the loading flag.
pub open spec fn loading_signature_spec() -> Seq<Option<u8>> {
    seq![Some(0x89u8), Some(0x43u8), Some(0x60u8), Some(0x8Bu8), Some(0x05u8)]
}

/// The signature that anchors the loading flag's address.
pub fn loading_signature() -> (sig: Vec<Option<u8>>)
    ensures
        sig@ == loading_signature_spec(),
        sig@.len() == SIGNATURE_LEN,
{
    let sig = vec![Some(0x89u8), Some(0x43u8), Some(0x60u8), Some(0x8Bu8), Some(0x05u8)];
    assert(sig@ =~= loading_signature_spec());
    sig
}

/// Finds the signature in the bytes of the module and returns the address
/// just past it, where the relative operand lies. `None` when the signature
/// does not occur or that address does not fit in 64 bits.
pub fn locate_operand(module: ModuleRange, bytes: &[u8]) -> (r: Option<u64>)
    ensures
        match r {
            Some(at) => exists|i: int|
                is_first_match(loading_signature_spec(), bytes@, i) && at == module.base + i
                    + SIGNATURE_LEN,
            None => never_matches(loading_signature_spec(), bytes@) || exists|i: int|
                is_first_match(loading_signature_spec(), bytes@, i) && module.base + i
                    + SIGNATURE_LEN > u64::MAX,
        },
{
    let sig = loading_signature();
    match scan(sig.as_slice(), bytes) {
        None => None,
        Some(i) => {
            let i64v = i as u64;
            if module.base > u64::MAX - SIGNATURE_LEN || i64v > u64::MAX - SIGNATURE_LEN
                - module.base {
                None
            } else {
                Some(module.base + i64v + SIGNATURE_LEN)
            }
        },
    }
}

/// The absolute address that a relative operand read at `operand_at` points
/// to: the end of the operand plus the signed displacement. `None` when that
/// falls outside the 64-bit address space.
pub fn displacement_target(operand_at: u64, displacement: i32) -> (r: Option<u64>)
    ensures
        match r {
            Some(a) => a == operand_at + DISPLACEMENT_LEN + displacement,
            None => !(0 <= operand_at + DISPLACEMENT_LEN + displacement <= u64::MAX),
        },
{
    let target: i128 = operand_at as i128 + DISPLACEMENT_LEN as i128 + displacement as i128;
    if 0 <= target && target <= u64::MAX as i128 {
        Some(target as u64)
    } else {
        None
    }
}

} // verus!
