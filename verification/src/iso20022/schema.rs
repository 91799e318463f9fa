//! Schema field definitions and the path hash.

use vstd::prelude::*;
use vstd::string::*;
use crate::iso20022::codes::{EsfFieldType, PrivacyTier};

verus! {

/// Schema field definition.
#[derive(Debug, Clone, Copy)]
pub struct FieldDefinition {
    /// XPath in the ISO 20022 message
    pub xpath: &'static str,
    /// ESF field id
    pub field_id: u16,
    /// ESF field type
    pub field_type: EsfFieldType,
    /// Privacy tier
    pub privacy_tier: PrivacyTier,
    /// Whether the field is required
    pub required: bool,
    /// Maximum length (for strings)
    pub max_length: Option<usize>,
}

/// FNV-1a offset basis, 32 bits.
pub const FNV_OFFSET_BASIS: u32 = 0x811c9dc5;

/// FNV-1a prime, 32 bits.
pub const FNV_PRIME: u32 = 0x01000193;

/// One step of FNV-1a: the hash is combined with the byte by exclusive or,
/// then multiplied by the prime modulo 2^32.
pub open spec fn fnv1a_step(hash: u32, byte: u8) -> u32 {
    (((hash ^ (byte as u32)) as int * FNV_PRIME as int) % 0x1_0000_0000) as u32
}

/// The FNV-1a hash of the first `n` bytes.
pub open spec fn fnv1a(bytes: Seq<u8>, n: nat) -> u32
    decreases n,
{
    if n == 0 {
        FNV_OFFSET_BASIS
    } else {
        fnv1a_step(fnv1a(bytes, (n - 1) as nat), bytes[n - 1])
    }
}

/// Computes the 32-bit FNV-1a hash of the bytes of an XPath.
pub fn compute_path_hash(xpath: &str) -> (hash: u32)
    ensures
        hash == fnv1a(xpath.spec_bytes(), xpath.spec_bytes().len()),
{
    let bytes: &[u8] = xpath.as_bytes();
    let mut hash: u32 = FNV_OFFSET_BASIS;
    let mut i: usize = 0;
    while i < bytes.len()
        invariant
            0 <= i <= bytes@.len(),
            bytes@ == xpath.spec_bytes(),
            hash == fnv1a(bytes@, i as nat),
        decreases bytes@.len() - i,
    {
        let mixed: u32 = hash ^ (bytes[i] as u32);
        assert((mixed as u64) * (FNV_PRIME as u64) <= 0xFFFF_FFFF * 0x01000193)
            by (nonlinear_arith)
            requires
                mixed <= 0xFFFF_FFFF,
                FNV_PRIME == 0x01000193,
        ;
        hash = (((mixed as u64) * (FNV_PRIME as u64)) % 0x1_0000_0000) as u32;
        i = i + 1;
    }
    hash
}

} // verus!
