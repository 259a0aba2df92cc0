//! The addressable coil/discrete-input model: one descriptor per point,
//! collections sorted ascending by address, looked up by binary search.

use vstd::prelude::*;

verus! {

/// Why a point refused a read or a write.
#[derive(Clone, Copy, Debug, PartialEq, Eq, Structural)]
pub enum Error {
    ReadNotSupported,
    WriteNotSupported,
    ReadLocked,
    WriteLocked,
}

/// How a point produces its value when read: a fixed value, or the
/// descriptor's own backing cell.
#[derive(Clone, Copy, Debug)]
pub enum ReadMethod {
    Value(bool),
    Cell,
}

/// How a point accepts a value when written: into the descriptor's own
/// backing cell.
#[derive(Clone, Copy, Debug)]
pub enum WriteMethod {
    Cell,
}

/// One addressable point: its address, its read and write behavior (absent
/// means unsupported), its lock predicates (locked while `Some(true)`), and
/// the backing cell the `Cell` behaviors use.
#[derive(Clone, Copy, Debug)]
pub struct Descriptor {
    pub address: u16,
    pub read: Option<ReadMethod>,
    pub write: Option<WriteMethod>,
    pub rlock: Option<bool>,
    pub wlock: Option<bool>,
    pub cell: bool,
}

impl Default for Descriptor {
    /// An unaddressed point that supports nothing.
    fn default() -> (r: Self)
        ensures
            r == (Descriptor {
                address: 0,
                read: None,
                write: None,
                rlock: None,
                wlock: None,
                cell: false,
            }),
    {
        Descriptor { address: 0, read: None, write: None, rlock: None, wlock: None, cell: false }
    }
}

impl Descriptor {
    /// A read is allowed unless the read lock is present and holds.
    pub open spec fn spec_read_allowed(self) -> bool {
        !(self.rlock matches Some(true))
    }

    /// A write is allowed when write behavior is present and the write lock,
    /// if present, does not hold.
    pub open spec fn spec_write_allowed(self) -> bool {
        &&& !(self.wlock matches Some(true))
        &&& self.write is Some
    }

    /// The outcome of reading this point.
    pub open spec fn spec_read(self) -> Result<bool, Error> {
        if !self.spec_read_allowed() {
            Err(Error::ReadLocked)
        } else {
            match self.read {
                Some(ReadMethod::Value(v)) => Ok(v),
                Some(ReadMethod::Cell) => Ok(self.cell),
                None => Err(Error::ReadNotSupported),
            }
        }
    }

    /// Whether a read of this point is allowed by its lock.
    pub fn read_allowed(&self) -> (r: bool)
        ensures
            r == self.spec_read_allowed(),
    {
        match &self.rlock {
            Some(locked) => !*locked,
            None => true,
        }
    }

    /// Reads the point: refused while read-locked or when reading is
    /// unsupported, otherwise the value of its read behavior.
    pub fn read(&self) -> (r: Result<bool, Error>)
        ensures
            r == self.spec_read(),
    {
        if !self.read_allowed() {
            return Err(Error::ReadLocked);
        }
        match &self.read {
            Some(ReadMethod::Value(v)) => Ok(*v),
            Some(ReadMethod::Cell) => Ok(self.cell),
            None => Err(Error::ReadNotSupported),
        }
    }

    /// Whether a write of this point would be performed: write behavior
    /// present and not write-locked.
    pub fn write_allowed(&self) -> (r: bool)
        ensures
            r == self.spec_write_allowed(),
    {
        let unlocked = match &self.wlock {
            Some(locked) => !*locked,
            None => true,
        };
        unlocked && self.write.is_some()
    }

    /// Writes `value` to the point: refused while write-locked or when
    /// writing is unsupported, otherwise the backing cell takes the value.
    pub fn write(&mut self, value: bool) -> (r: Result<(), Error>)
        ensures
            old(self).wlock matches Some(true) ==> r == Err::<(), Error>(Error::WriteLocked)
                && *final(self) == *old(self),
            !(old(self).wlock matches Some(true)) && old(self).write is None ==> r == Err::<
                (),
                Error,
            >(Error::WriteNotSupported) && *final(self) == *old(self),
            old(self).spec_write_allowed() ==> r == Ok::<(), Error>(()) && *final(self) == (
            Descriptor { cell: value, ..*old(self) }),
    {
        let unlocked = match &self.wlock {
            Some(locked) => !*locked,
            None => true,
        };
        if !unlocked {
            return Err(Error::WriteLocked);
        }
        match &self.write {
            Some(WriteMethod::Cell) => {
                self.cell = value;
                Ok(())
            },
            None => Err(Error::WriteNotSupported),
        }
    }
}

/// The collection invariant: ascending addresses, hence no duplicates.
pub open spec fn sorted(coils: Seq<Descriptor>) -> bool {
    forall|i: int, j: int|
        0 <= i < j < coils.len() ==> coils[i].address < coils[j].address
}

/// Whether some descriptor in the collection carries `address`.
pub open spec fn has_addr(coils: Seq<Descriptor>, address: u16) -> bool {
    exists|i: int| 0 <= i < coils.len() && coils[i].address == address
}

/// The index of the descriptor carrying `address`.
pub open spec fn idx_of(coils: Seq<Descriptor>, address: u16) -> int {
    choose|i: int| 0 <= i < coils.len() && coils[i].address == address
}

/// The descriptor carrying `address`.
pub open spec fn desc_at(coils: Seq<Descriptor>, address: u16) -> Descriptor {
    coils[idx_of(coils, address)]
}

/// In a sorted collection the carrier of an address is unique.
pub proof fn lemma_idx_unique(coils: Seq<Descriptor>, address: u16, i: int)
    requires
        sorted(coils),
        0 <= i < coils.len(),
        coils[i].address == address,
    ensures
        has_addr(coils, address),
        idx_of(coils, address) == i,
        desc_at(coils, address) == coils[i],
{
    assert(has_addr(coils, address));
    let j = idx_of(coils, address);
    if i < j {
        assert(coils[i].address < coils[j].address);
    } else if j < i {
        assert(coils[j].address < coils[i].address);
    }
}

/// Whether the collection satisfies its invariant: ascending addresses with
/// no duplicates. Meant for the host at configuration time, before the
/// collection is handed to the engine.
pub fn is_sorted(coils: &[Descriptor]) -> (r: bool)
    ensures
        r == sorted(coils@),
{
    let mut i: usize = 1;
    while i < coils.len()
        invariant
            1 <= i,
            i <= coils@.len() || coils@.len() == 0,
            forall|p: int, q: int| 0 <= p < q < i && q < coils@.len() ==> coils@[p].address < coils@[q].address,
        decreases coils@.len() - i,
    {
        if coils[i - 1].address >= coils[i].address {
            return false;
        }
        i += 1;
    }
    true
}

/// Binary search for the index of the descriptor with this address.
fn search(address: u16, coils: &[Descriptor]) -> (r: Option<usize>)
    requires
        sorted(coils@),
    ensures
        match r {
            Some(ix) => ix < coils@.len() && coils@[ix as int].address == address && has_addr(
                coils@,
                address,
            ) && idx_of(coils@, address) == ix,
            None => !has_addr(coils@, address),
        },
{
    let mut lo: usize = 0;
    let mut hi: usize = coils.len();
    while lo < hi
        invariant
            lo <= hi <= coils@.len(),
            sorted(coils@),
            forall|i: int| 0 <= i < lo ==> coils@[i].address < address,
            forall|i: int| hi <= i < coils@.len() ==> coils@[i].address >= address,
        decreases hi - lo,
    {
        let mid = lo + (hi - lo) / 2;
        if coils[mid].address < address {
            lo = mid + 1;
        } else {
            hi = mid;
        }
    }
    if lo < coils.len() && coils[lo].address == address {
        proof {
            lemma_idx_unique(coils@, address, lo as int);
        }
        Some(lo)
    } else {
        None
    }
}

/// Finds a coil by its address.
///
/// This uses binary search, so the collection must be sorted ascending by
/// address.
pub fn find<'a>(address: u16, coils: &'a [Descriptor]) -> (r: Option<&'a Descriptor>)
    requires
        sorted(coils@),
    ensures
        match r {
            Some(d) => has_addr(coils@, address) && *d == desc_at(coils@, address),
            None => !has_addr(coils@, address),
        },
{
    match search(address, coils) {
        Some(ix) => Some(&coils[ix]),
        None => None,
    }
}

/// Finds a coil by its address, as an index usable to mutate it through the
/// owning collection.
///
/// This uses binary search, so the collection must be sorted ascending by
/// address.
pub fn find_mut(address: u16, coils: &[Descriptor]) -> (r: Option<usize>)
    requires
        sorted(coils@),
    ensures
        match r {
            Some(ix) => ix < coils@.len() && coils@[ix as int].address == address && idx_of(
                coils@,
                address,
            ) == ix && has_addr(coils@, address),
            None => !has_addr(coils@, address),
        },
{
    search(address, coils)
}

} // verus!
