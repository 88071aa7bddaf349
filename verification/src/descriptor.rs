//! The per-request tuple descriptor: for every column of the current row
//! shape, its name, its wire position and its type identifier.
//!
//! A descriptor is built fresh for each call from the engine's column shape
//! and discarded with it; a column's position is always recovered from its
//! recorded index, never from the order a reader walks the entries in.

use vstd::prelude::*;

use crate::codec::TypeOid;

verus! {

/// One column of the engine's current row shape: its name and native type.
#[derive(Debug, PartialEq, Eq)]
pub struct ColumnMeta {
    pub name: String,
    pub oid: TypeOid,
}

/// A column's wire-relevant type: its position in the row and its type
/// identifier.
#[derive(Clone, Copy, Debug, PartialEq, Eq, Structural)]
pub struct TypeSlot {
    pub index: usize,
    pub oid: TypeOid,
}

/// The tuple descriptor: column name to [`TypeSlot`], one entry per column,
/// names unique.
#[derive(Debug, PartialEq, Eq)]
pub struct TupleDesc {
    pub entries: Vec<(String, TypeSlot)>,
}

impl TupleDesc {
    /// How many columns the descriptor describes.
    pub open spec fn width(self) -> int {
        self.entries@.len() as int
    }

    /// The column names, in entry order.
    pub open spec fn names(self) -> Seq<Seq<char>> {
        Seq::new(self.entries@.len(), |i: int| self.entries@[i].0@)
    }

    /// The column type identifiers, in wire-index order.
    pub open spec fn oids(self) -> Seq<TypeOid> {
        Seq::new(self.entries@.len(), |i: int| self.entries@[i].1.oid)
    }

    /// Well-formed: entry `i` records wire index `i`, and no column name
    /// repeats.
    pub open spec fn wf(self) -> bool {
        &&& forall|i: int|
            0 <= i < self.entries@.len() ==> (#[trigger] self.entries@[i]).1.index == i
        &&& forall|i: int, j: int|
            0 <= i < j < self.entries@.len() ==> self.entries@[i].0@ != self.entries@[j].0@
    }

    /// The type identifiers in wire-index order, as a vector the row decoder
    /// walks.
    pub fn column_oids(&self) -> (r: Vec<TypeOid>)
        ensures
            r@ == self.oids(),
    {
        let mut out: Vec<TypeOid> = Vec::new();
        let mut i: usize = 0;
        while i < self.entries.len()
            invariant
                i <= self.entries@.len(),
                out@.len() == i as int,
                forall|k: int| 0 <= k < i as int ==> #[trigger] out@[k] == self.entries@[k].1.oid,
            decreases self.entries@.len() - i as int,
        {
            out.push(self.entries[i].1.oid);
            i = i + 1;
        }
        proof {
            assert(out@ =~= self.oids());
        }
        out
    }
}

/// Builds the descriptor for the engine's current column shape: entry `i`
/// takes column `i`'s name and type and records wire index `i`.
pub fn build_descriptor(cols: &Vec<ColumnMeta>) -> (d: TupleDesc)
    requires
        forall|i: int, j: int| 0 <= i < j < cols@.len() ==> cols@[i].name@ != cols@[j].name@,
    ensures
        d.wf(),
        d.width() == cols@.len(),
        forall|i: int| 0 <= i < cols@.len() ==> #[trigger] d.names()[i] == cols@[i].name@,
        forall|i: int| 0 <= i < cols@.len() ==> #[trigger] d.oids()[i] == cols@[i].oid,
{
    let mut entries: Vec<(String, TypeSlot)> = Vec::new();
    let mut i: usize = 0;
    while i < cols.len()
        invariant
            i <= cols@.len(),
            entries@.len() == i as int,
            forall|k: int|
                0 <= k < i as int ==> (#[trigger] entries@[k]).0@ == cols@[k].name@
                    && entries@[k].1.index == k && entries@[k].1.oid == cols@[k].oid,
        decreases cols@.len() - i as int,
    {
        let col = &cols[i];
        entries.push((col.name.clone(), TypeSlot { index: i, oid: col.oid }));
        i = i + 1;
    }
    let d = TupleDesc { entries };
    proof {
        assert forall|i: int| 0 <= i < cols@.len() implies #[trigger] d.names()[i]
            == cols@[i].name@ by {}
        assert forall|i: int| 0 <= i < cols@.len() implies #[trigger] d.oids()[i]
            == cols@[i].oid by {}
    }
    d
}

} // verus!
