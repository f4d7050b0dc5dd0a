use crate::module::Module;
use vstd::prelude::*;

verus! {

/// One byte of a child's dna: each bit comes from the first parent where the
/// selector bit is set, and from the second parent where it is clear.
pub open spec fn mix_byte(dna1: u8, dna2: u8, selector: u8) -> u8 {
    (selector & dna1) | (!selector & dna2)
}

/// A child's whole dna, one selector byte for each position.
pub open spec fn mix_dna(dna1: Seq<u8>, dna2: Seq<u8>, selector: Seq<u8>) -> Seq<u8> {
    Seq::new(16, |i: int| mix_byte(dna1[i], dna2[i], selector[i]))
}

/// The eight little-endian bytes of a `u64`.
pub open spec fn le_u64(x: u64) -> Seq<u8> {
    seq![
        (x % 0x100) as u8,
        (x / 0x100 % 0x100) as u8,
        (x / 0x1_0000 % 0x100) as u8,
        (x / 0x100_0000 % 0x100) as u8,
        (x / 0x1_0000_0000 % 0x100) as u8,
        (x / 0x100_0000_0000 % 0x100) as u8,
        (x / 0x1_0000_0000_0000 % 0x100) as u8,
        (x / 0x100_0000_0000_0000 % 0x100) as u8,
    ]
}

/// The four little-endian bytes of a `u32`.
pub open spec fn le_u32(x: u32) -> Seq<u8> {
    seq![
        (x % 0x100) as u8,
        (x / 0x100 % 0x100) as u8,
        (x / 0x1_0000 % 0x100) as u8,
        (x / 0x100_0000 % 0x100) as u8,
    ]
}

/// An optional `u32` in SCALE form: a tag byte, then the value if present.
pub open spec fn option_u32_bytes(x: Option<u32>) -> Seq<u8> {
    match x {
        None => seq![0u8],
        Some(v) => seq![1u8] + le_u32(v),
    }
}

/// The bytes hashed to draw a selector: the block's random seed, the caller,
/// and the index of the call within its block.
pub open spec fn seed_payload(seed: Seq<u8>, sender: u64, index: Option<u32>) -> Seq<u8> {
    seed + le_u64(sender) + option_u32_bytes(index)
}

/// The 128-bit Blake2 digest of a byte string.
pub uninterp spec fn blake2_128_of(data: Seq<u8>) -> Seq<u8>;

/// Relies on parity-scale-codec's `Encode` for a tuple of a 32-byte array, a
/// `u64` and an `Option<u32>`: the fields one after another, the array as its
/// raw bytes, integers little-endian, an option as a 0 or 1 tag then its value.
#[verifier::external_body]
fn encode_seed_payload(seed: &[u8; 32], sender: u64, index: Option<u32>) -> (r: Vec<u8>)
    ensures
        r@ == seed_payload(seed@, sender, index),
{
    parity_scale_codec::Encode::encode(&(seed, sender, index))
}

/// Relies on sp_io::hashing::blake2_128: a 16-byte digest that depends on
/// the input bytes alone.
#[verifier::external_body]
fn blake2_128(data: &Vec<u8>) -> (r: [u8; 16])
    ensures
        r@ == blake2_128_of(data@),
{
    sp_io::hashing::blake2_128(data.as_slice())
}

impl Module {
    /// The 16 random bytes drawn for `sender`: the Blake2 digest of the
    /// encoded seed, caller and call index.
    pub fn random_value(seed: &[u8; 32], sender: u64, extrinsic_index: Option<u32>) -> (r: [u8; 16])
        ensures
            r@ == blake2_128_of(seed_payload(seed@, sender, extrinsic_index)),
    {
        let payload = encode_seed_payload(seed, sender, extrinsic_index);
        blake2_128(&payload)
    }

    /// Mixes one byte of each parent under a selector byte.
    pub fn combine_dna(dna1: u8, dna2: u8, selector: u8) -> (r: u8)
        ensures
            r == mix_byte(dna1, dna2, selector),
    {
        (selector & dna1) | (!selector & dna2)
    }

    /// Mixes two parents' dna, position by position, under one selector.
    pub fn combine(dna1: &[u8; 16], dna2: &[u8; 16], selector: &[u8; 16]) -> (r: [u8; 16])
        ensures
            r@ == mix_dna(dna1@, dna2@, selector@),
    {
        let mut new_dna = [0u8; 16];
        let mut i: usize = 0;
        while i < 16
            invariant
                i <= 16,
                forall|j: int| 0 <= j < i ==> new_dna@[j] == mix_byte(dna1@[j], dna2@[j], selector@[j]),
            decreases 16 - i,
        {
            new_dna[i] = Self::combine_dna(dna1[i], dna2[i], selector[i]);
            i = i + 1;
        }
        assert(new_dna@ =~= mix_dna(dna1@, dna2@, selector@));
        new_dna
    }
}

} // verus!
