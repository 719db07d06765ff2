use vstd::prelude::*;

verus! {

/// A location in the keyspace: object id, offset within it, and snapshot id.
/// Positions are ordered lexicographically by these three fields.
#[derive(Clone, Copy, Debug, PartialEq, Eq, Structural)]
pub struct Bpos {
    pub inode: u64,
    pub offset: u64,
    pub snapshot: u32,
}

impl Bpos {
    /// Strict lexicographic order on (inode, offset, snapshot).
    pub open spec fn lt_spec(self, o: Bpos) -> bool {
        self.inode < o.inode || (self.inode == o.inode && (self.offset < o.offset || (
        self.offset == o.offset && self.snapshot < o.snapshot)))
    }

    pub open spec fn le_spec(self, o: Bpos) -> bool {
        self.lt_spec(o) || self == o
    }

    pub open spec fn is_max_spec(self) -> bool {
        self.inode == u64::MAX && self.offset == u64::MAX && self.snapshot == u32::MAX
    }

    /// The position that immediately follows `self`; the largest position has none.
    pub open spec fn successor_spec(self) -> Bpos
        recommends
            !self.is_max_spec(),
    {
        if self.snapshot < u32::MAX {
            Bpos { snapshot: (self.snapshot + 1) as u32, ..self }
        } else if self.offset < u64::MAX {
            Bpos { inode: self.inode, offset: (self.offset + 1) as u64, snapshot: 0 }
        } else {
            Bpos { inode: (self.inode + 1) as u64, offset: 0, snapshot: 0 }
        }
    }

    pub fn new(inode: u64, offset: u64, snapshot: u32) -> (r: Bpos)
        ensures
            r == (Bpos { inode, offset, snapshot }),
    {
        Bpos { inode, offset, snapshot }
    }

    /// The sentinel that marks the end of the keyspace.
    pub fn max() -> (r: Bpos)
        ensures
            r.is_max_spec(),
    {
        Bpos { inode: u64::MAX, offset: u64::MAX, snapshot: u32::MAX }
    }

    pub fn is_max(&self) -> (r: bool)
        ensures
            r == self.is_max_spec(),
    {
        self.inode == u64::MAX && self.offset == u64::MAX && self.snapshot == u32::MAX
    }

    pub fn lt(&self, o: &Bpos) -> (r: bool)
        ensures
            r == self.lt_spec(*o),
    {
        self.inode < o.inode || (self.inode == o.inode && (self.offset < o.offset || (
        self.offset == o.offset && self.snapshot < o.snapshot)))
    }

    pub fn le(&self, o: &Bpos) -> (r: bool)
        ensures
            r == self.le_spec(*o),
    {
        self.lt(o) || *self == *o
    }

    /// The next position, or `None` past the largest one.
    pub fn successor(&self) -> (r: Option<Bpos>)
        ensures
            self.is_max_spec() ==> r.is_none(),
            !self.is_max_spec() ==> r == Some(self.successor_spec()),
    {
        if self.snapshot < u32::MAX {
            Some(Bpos { inode: self.inode, offset: self.offset, snapshot: self.snapshot + 1 })
        } else if self.offset < u64::MAX {
            Some(Bpos { inode: self.inode, offset: self.offset + 1, snapshot: 0 })
        } else if self.inode < u64::MAX {
            Some(Bpos { inode: self.inode + 1, offset: 0, snapshot: 0 })
        } else {
            None
        }
    }
}

/// The successor is the least position strictly above `p`.
pub proof fn lemma_successor(p: Bpos)
    requires
        !p.is_max_spec(),
    ensures
        p.lt_spec(p.successor_spec()),
        forall|q: Bpos| p.lt_spec(q) ==> #[trigger] p.successor_spec().le_spec(q),
{
}

} // verus!

verus! {

/// The end-of-keyspace sentinel.
pub open spec fn pos_max() -> Bpos {
    Bpos { inode: u64::MAX, offset: u64::MAX, snapshot: u32::MAX }
}

} // verus!
