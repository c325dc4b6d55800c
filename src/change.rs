use vstd::prelude::*;

verus! {

/// One reversible mutation of the buffer, as kept in the edit history.
#[derive(Debug, Clone)]
pub enum Change {
    /// Overwrite in place: offset, the bytes that were there, the bytes written.
    Edit(usize, Vec<u8>, Vec<u8>),
    /// Bytes inserted at an offset, shifting what follows to the right.
    Insert(usize, Vec<u8>),
    /// Bytes removed at an offset; the removed content is kept for undo.
    Delete(usize, Vec<u8>),
}

/// An offset clamped to the buffer: anything past the end means the end.
pub open spec fn clamp(off: int, len: int) -> int {
    if off <= len {
        off
    } else {
        len
    }
}

/// `new` written over `d` from `off` on, overwriting existing bytes and
/// appending those that run past the end (an offset past the end appends).
pub open spec fn replace_spec(d: Seq<u8>, off: int, new: Seq<u8>) -> Seq<u8> {
    let k = clamp(off, d.len() as int);
    d.subrange(0, k) + new + d.subrange(clamp(k + new.len(), d.len() as int), d.len() as int)
}

/// `b` inserted into `d` at `off` (an offset past the end appends).
pub open spec fn insert_spec(d: Seq<u8>, off: int, b: Seq<u8>) -> Seq<u8> {
    let k = clamp(off, d.len() as int);
    d.subrange(0, k) + b + d.subrange(k, d.len() as int)
}

/// Up to `n` bytes removed from `d` at `off`; what runs past the end is ignored.
pub open spec fn delete_spec(d: Seq<u8>, off: int, n: int) -> Seq<u8> {
    let k = clamp(off, d.len() as int);
    d.subrange(0, k) + d.subrange(clamp(k + n, d.len() as int), d.len() as int)
}

/// A change as plain values: offsets and byte sequences.
pub enum ChangeSpec {
    Edit(nat, Seq<u8>, Seq<u8>),
    Insert(nat, Seq<u8>),
    Delete(nat, Seq<u8>),
}

impl View for Change {
    type V = ChangeSpec;

    open spec fn view(&self) -> ChangeSpec {
        match self {
            Change::Edit(o, old, new) => ChangeSpec::Edit(*o as nat, old@, new@),
            Change::Insert(o, b) => ChangeSpec::Insert(*o as nat, b@),
            Change::Delete(o, old) => ChangeSpec::Delete(*o as nat, old@),
        }
    }
}

impl ChangeSpec {

    /// The buffer after this change is carried out on `d`.
    pub open spec fn forward(&self, d: Seq<u8>) -> Seq<u8> {
        match self {
            ChangeSpec::Edit(o, _, new) => replace_spec(d, *o as int, *new),
            ChangeSpec::Insert(o, b) => insert_spec(d, *o as int, *b),
            ChangeSpec::Delete(o, old) => delete_spec(d, *o as int, old.len() as int),
        }
    }

    /// The buffer after the inverse of this change is carried out on `d`.
    pub open spec fn backward(&self, d: Seq<u8>) -> Seq<u8> {
        match self {
            ChangeSpec::Edit(o, old, _) => replace_spec(d, *o as int, *old),
            ChangeSpec::Insert(o, b) => delete_spec(d, *o as int, b.len() as int),
            ChangeSpec::Delete(o, old) => insert_spec(d, *o as int, *old),
        }
    }

    /// The change describes `d` truthfully: an edit replaces bytes of equal
    /// length that are there, an insert lands inside or at the end, and a
    /// delete names exactly the bytes it removes.
    pub open spec fn fits(&self, d: Seq<u8>) -> bool {
        match self {
            ChangeSpec::Edit(o, old, new) => {
                &&& old.len() == new.len()
                &&& *o + old.len() <= d.len()
                &&& d.subrange(*o as int, *o + old.len() as int) == *old
            },
            ChangeSpec::Insert(o, _) => *o <= d.len(),
            ChangeSpec::Delete(o, old) => {
                &&& *o + old.len() <= d.len()
                &&& d.subrange(*o as int, *o + old.len() as int) == *old
            },
        }
    }
}

/// Undoing a change that fits the buffer gives the buffer back.
pub proof fn lemma_backward_forward(c: ChangeSpec, d: Seq<u8>)
    requires
        c.fits(d),
    ensures
        c.backward(c.forward(d)) == d,
{
    match c {
        ChangeSpec::Edit(o, old, new) => {
            let o = o as int;
            let e = d.subrange(0, o) + new + d.subrange(o + new.len(), d.len() as int);
            assert(e =~= c.forward(d));
            assert(e.subrange(0, o) =~= d.subrange(0, o));
            assert(e.subrange(o + new.len(), e.len() as int) =~= d.subrange(
                o + new.len(),
                d.len() as int,
            ));
            assert(c.backward(e) =~= d);
        },
        ChangeSpec::Insert(o, b) => {
            let o = o as int;
            let e = d.subrange(0, o) + b + d.subrange(o, d.len() as int);
            assert(e =~= c.forward(d));
            assert(e.subrange(0, o) =~= d.subrange(0, o));
            assert(e.subrange(o + b.len(), e.len() as int) =~= d.subrange(o, d.len() as int));
            assert(c.backward(e) =~= d);
        },
        ChangeSpec::Delete(o, old) => {
            let o = o as int;
            let e = d.subrange(0, o) + d.subrange(o + old.len(), d.len() as int);
            assert(e =~= c.forward(d));
            assert(e.subrange(0, o) =~= d.subrange(0, o));
            assert(e.subrange(o, e.len() as int) =~= d.subrange(o + old.len(), d.len() as int));
            assert(c.backward(e) =~= d);
        },
    }
}

} // verus!
