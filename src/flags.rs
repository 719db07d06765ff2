use vstd::prelude::*;

verus! {

/// Visit every slot, holes included, not only the keys that are present.
pub const SLOTS: u16 = 0x0001;
/// Include interior levels in a keyed scan.
pub const ALL_LEVELS: u16 = 0x0002;
/// Take intent (upgradeable) locks rather than read locks.
pub const INTENT: u16 = 0x0004;
/// Ask the engine to prefetch neighbouring nodes.
pub const PREFETCH: u16 = 0x0008;
/// Keys stand for ranges (extents).
pub const IS_EXTENTS: u16 = 0x0010;
/// Keys stand for single points.
pub const NOT_EXTENTS: u16 = 0x0020;
/// Read through the in-memory key cache.
pub const CACHED: u16 = 0x0040;
/// Populate the in-memory key cache.
pub const KEY_CACHED: u16 = 0x0080;
/// Overlay writes of the transaction that are not committed yet.
pub const WITH_UPDATES: u16 = 0x0100;
/// Overlay journal entries that are not checkpointed yet.
pub const WITH_JOURNAL: u16 = 0x0200;
/// Low-level form of `ALL_SNAPSHOTS`.
pub const __ALL_SNAPSHOTS: u16 = 0x0400;
/// See the keys of every snapshot, not only the visible one.
pub const ALL_SNAPSHOTS: u16 = 0x0800;
/// Return only the keys of the snapshot the cursor was opened in.
pub const FILTER_SNAPSHOTS: u16 = 0x1000;
/// Let the engine drop the cursor's position eagerly.
pub const NOPRESERVE: u16 = 0x2000;
/// A cache miss does not fill the cache; needs `CACHED`.
pub const CACHED_NOFILL: u16 = 0x4000;
/// A cache miss fills the cache.
pub const KEY_CACHE_FILL: u16 = 0x8000;

/// A combination of flags is accepted unless it asks for both extent and point
/// keys, or for `CACHED_NOFILL` without `CACHED`.
pub open spec fn valid_bits(b: u16) -> bool {
    !(b & IS_EXTENTS != 0 && b & NOT_EXTENTS != 0) && !(b & CACHED_NOFILL != 0 && b & CACHED
        == 0)
}

/// The options a cursor is opened with; fixed for the cursor's lifetime.
#[derive(Clone, Copy, Debug, PartialEq, Eq, Structural)]
pub struct BtreeIterFlags {
    bits: u16,
}

impl BtreeIterFlags {
    pub closed spec fn bits_spec(self) -> u16 {
        self.bits
    }

    pub open spec fn wf(self) -> bool {
        valid_bits(self.bits_spec())
    }

    pub open spec fn has(self, f: u16) -> bool {
        self.bits_spec() & f == f
    }

    /// No flag set.
    pub fn empty() -> (r: BtreeIterFlags)
        ensures
            r.bits_spec() == 0,
            r.wf(),
    {
        assert(0u16 & IS_EXTENTS == 0 && 0u16 & CACHED_NOFILL == 0) by (bit_vector);
        BtreeIterFlags { bits: 0 }
    }

    /// The flags whose bits are `bits`, or `None` for a combination that makes no sense.
    pub fn from_bits(bits: u16) -> (r: Option<BtreeIterFlags>)
        ensures
            r.is_some() <==> valid_bits(bits),
            r.is_some() ==> r.unwrap().bits_spec() == bits && r.unwrap().wf(),
    {
        if (bits & IS_EXTENTS != 0 && bits & NOT_EXTENTS != 0) || (bits & CACHED_NOFILL != 0
            && bits & CACHED == 0) {
            None
        } else {
            Some(BtreeIterFlags { bits })
        }
    }

    pub fn bits(&self) -> (r: u16)
        ensures
            r == self.bits_spec(),
    {
        self.bits
    }

    /// Whether every bit of `f` is set.
    pub fn contains(&self, f: u16) -> (r: bool)
        ensures
            r == self.has(f),
    {
        self.bits & f == f
    }
}

} // verus!
