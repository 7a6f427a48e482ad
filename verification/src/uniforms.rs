//! The CPU-authoritative uniform record and its wire form.
//!
//! A `UniformBlock` is a small fixed-layout record of one 32-bit counter,
//! incremented by exactly one per scheduling tick. The shader reads it
//! through a GPU-only uniform buffer that is only ever updated by a
//! buffer-to-buffer copy of exactly `UNIFORM_BYTE_WIDTH` bytes from the
//! staging buffer; the staging buffer in turn holds the little-endian
//! bytes of the last committed snapshot.

use vstd::prelude::*;

verus! {

/// Byte width of one `UniformBlock`: a single 32-bit field.
pub const UNIFORM_BYTE_WIDTH: u64 = 4;

/// The value the shader reads every dispatch: one 32-bit counter.
#[derive(Clone, Copy, PartialEq, Eq, Structural, Debug)]
pub struct UniformBlock {
    pub time: u32,
}

/// The little-endian bytes of a 32-bit value: the staging buffer's layout
/// of one `UniformBlock`.
pub open spec fn le_bytes_of(x: u32) -> Seq<u8> {
    seq![
        (x & 0xff) as u8,
        ((x >> 8) & 0xff) as u8,
        ((x >> 16) & 0xff) as u8,
        ((x >> 24) & 0xff) as u8,
    ]
}

/// The 32-bit value four little-endian bytes denote.
pub open spec fn le_value_of(b: Seq<u8>) -> u32
    recommends
        b.len() == 4,
{
    (b[0] as u32) | ((b[1] as u32) << 8) | ((b[2] as u32) << 16) | ((b[3] as u32) << 24)
}

impl UniformBlock {
    /// The initial snapshot both buffers are created with.
    pub fn new() -> (r: UniformBlock)
        ensures
            r.time == 0,
    {
        UniformBlock { time: 0 }
    }

    /// One scheduling tick: the counter increases by exactly 1, independent
    /// of any map or copy completion timing.
    pub fn tick(&mut self)
        requires
            old(self).time < u32::MAX,
        ensures
            final(self).time == old(self).time + 1,
    {
        self.time = self.time + 1;
    }

    /// The raw bytes the map callback writes into the staging buffer.
    pub fn to_le_bytes(&self) -> (r: Vec<u8>)
        ensures
            r@ == le_bytes_of(self.time),
            r@.len() == UNIFORM_BYTE_WIDTH,
    {
        let mut r: Vec<u8> = Vec::new();
        r.push((self.time & 0xff) as u8);
        r.push(((self.time >> 8) & 0xff) as u8);
        r.push(((self.time >> 16) & 0xff) as u8);
        r.push(((self.time >> 24) & 0xff) as u8);
        proof {
            assert(r@ =~= le_bytes_of(self.time));
        }
        r
    }
}

/// Reads a staged snapshot back from its four little-endian bytes.
pub fn from_le_bytes(bytes: &Vec<u8>) -> (r: UniformBlock)
    requires
        bytes@.len() == 4,
    ensures
        r.time == le_value_of(bytes@),
{
    let b0 = bytes[0] as u32;
    let b1 = bytes[1] as u32;
    let b2 = bytes[2] as u32;
    let b3 = bytes[3] as u32;
    UniformBlock { time: b0 | (b1 << 8) | (b2 << 16) | (b3 << 24) }
}

/// The wire form is lossless: reading back the four little-endian bytes of
/// a counter yields the counter. The staged bytes therefore determine the
/// value the shader observes after a copy.
pub proof fn lemma_le_round_trip(x: u32)
    ensures
        le_value_of(le_bytes_of(x)) == x,
{
    let b = le_bytes_of(x);
    assert(((x & 0xff) as u8 as u32) | ((((x >> 8) & 0xff) as u8 as u32) << 8) | ((((x >> 16)
        & 0xff) as u8 as u32) << 16) | ((((x >> 24) & 0xff) as u8 as u32) << 24) == x)
        by (bit_vector);
    assert(le_value_of(b) == x);
}

/// One tick of the counter, as a mathematical transition.
pub open spec fn spec_tick(t: u32) -> u32
    recommends
        t < u32::MAX,
{
    (t + 1) as u32
}

/// The counter after `n` ticks from `t0`.
pub open spec fn spec_ticked(t0: u32, n: nat) -> u32
    decreases n,
{
    if n == 0 {
        t0
    } else {
        spec_tick(spec_ticked(t0, (n - 1) as nat))
    }
}

/// The counter is strictly monotonic, one per tick: after any run of `n`
/// ticks it stands exactly `n` above where it started, whatever the map and
/// copy completions interleaved with the run did (they never touch it).
pub proof fn lemma_counter_after_ticks(t0: u32, n: nat)
    requires
        t0 + n <= u32::MAX,
    ensures
        spec_ticked(t0, n) == t0 + n,
    decreases n,
{
    if n > 0 {
        lemma_counter_after_ticks(t0, (n - 1) as nat);
    }
}

} // verus!
