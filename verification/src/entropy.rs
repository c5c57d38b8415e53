//! Entropy: a versioned, timestamped byte string that contributes to the seed
//! of a beacon.

use vstd::prelude::*;

verus! {

/// A versioned and timestamped byte string.
#[derive(Debug, Clone, PartialEq, Eq)]
pub struct Entropy {
    pub version: u32,
    /// Seconds since the unix epoch at which the entropy was drawn.
    pub timestamp: i64,
    pub data: Vec<u8>,
}

/// Mathematical value of an [`Entropy`].
pub struct EntropyView {
    pub version: u32,
    pub timestamp: i64,
    pub data: Seq<u8>,
}

impl View for Entropy {
    type V = EntropyView;

    open spec fn view(&self) -> EntropyView {
        EntropyView { version: self.version, timestamp: self.timestamp, data: self.data@ }
    }
}

/// The `count` low bytes of `value`, least significant first.
pub open spec fn le_bytes(value: nat, count: nat) -> Seq<u8>
    decreases count,
{
    if count == 0 {
        Seq::empty()
    } else {
        seq![(value % 256) as u8] + le_bytes(value / 256, (count - 1) as nat)
    }
}

/// The unsigned number with the same 64 bits as `value` in two's complement.
pub open spec fn twos_complement(value: i64) -> nat {
    if value >= 0 {
        value as nat
    } else {
        (value + 0x1_0000_0000_0000_0000) as nat
    }
}

impl EntropyView {
    /// Whether the version is one that beacons can be made of.
    pub open spec fn version_known(self) -> bool {
        self.version == 0 || self.version == 1
    }

    /// What the entropy contributes to a digest: its data, then the eight
    /// bytes of its timestamp, least significant first.
    pub open spec fn digest_input(self) -> Seq<u8> {
        self.data + le_bytes(twos_complement(self.timestamp), 8)
    }
}

impl Entropy {
    /// Append to `out` what the entropy contributes to a digest.
    pub fn digest(&self, out: &mut Vec<u8>)
        ensures
            final(out)@ == old(out)@ + self@.digest_input(),
    {
        let ghost before = out@;
        let n = self.data.len();
        let mut i: usize = 0;
        while i < n
            invariant
                n == self.data@.len(),
                i <= n,
                out@ == before + self.data@.take(i as int),
            decreases n - i,
        {
            out.push(self.data[i]);
            i += 1;
        }
        let bits: u64 = if self.timestamp >= 0 {
            self.timestamp as u64
        } else {
            ((self.timestamp - i64::MIN) as u64) + 0x8000_0000_0000_0000u64
        };
        let ghost stem = out@;
        let mut rest: u64 = bits;
        let mut k: usize = 0;
        while k < 8
            invariant
                k <= 8,
                out@.len() == stem.len() + k,
                out@ + le_bytes(rest as nat, (8 - k) as nat) == stem + le_bytes(bits as nat, 8),
            decreases 8 - k,
        {
            let low: u8 = (rest % 256) as u8;
            out.push(low);
            rest = rest / 256;
            k += 1;
        }
    }
}

} // verus!
