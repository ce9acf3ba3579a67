//! Positional slices: offset/length pairs that describe a contiguous region
//! of some external sequence without borrowing or owning the sequence itself.
//!
//! A scanner can hand out `PositionalSlice` values describing tokens, and a
//! caller later projects them onto the original buffer (`subslice_of`,
//! `substring_of`) to obtain real borrowed sub-views. The slice itself never
//! validates its bounds against any particular buffer; that check happens at
//! projection time, through the projection functions' preconditions.

use core::cmp::Ordering;
use vstd::prelude::*;
use vstd::std_specs::cmp::PartialEqSpec;
use vstd::std_specs::cmp::PartialOrdSpec;
use vstd::string::StrSliceExecFns;

verus! {

broadcast use vstd::slice::group_slice_axioms;

/// A slice representation of offset and length.
///
/// The pair is a plain, freely copyable value: equality is structural over
/// the two fields, and ordering is lexicographic (offset first, then length).
#[derive(Clone, Copy, Debug, Eq)]
pub struct PositionalSlice {
    /// The slice offset in the source sequence.
    pub offset: usize,
    /// The length of the slice.
    pub length: usize,
}

impl PositionalSlice {
    /// Creates an empty instance: offset 0, length 0.
    pub fn empty() -> (r: Self)
        ensures
            r.offset == 0,
            r.length == 0,
    {
        let offset: usize = 0;
        let length: usize = 0;

        Self { offset, length }
    }

    /// Creates an instance with the given `off`set and `len`gth, verbatim;
    /// no validation is performed against any buffer.
    pub fn new(off: usize, len: usize) -> (r: Self)
        ensures
            r.offset == off,
            r.length == len,
    {
        Self { offset: off, length: len }
    }

    /// Indicates whether the slice is empty, i.e. has length 0; the offset
    /// plays no part.
    pub fn is_empty(&self) -> (r: bool)
        ensures
            r <==> self.length == 0,
    {
        0 == self.length
    }

    /// Indicates the length of the slice.
    pub fn len(&self) -> (r: usize)
        ensures
            r == self.length,
    {
        self.length
    }
}

/// Whether shifting `s` by `d` stays representable: a negative delta must not
/// drive the offset below zero, and a positive delta must keep the shifted
/// region's end, `offset + d + length`, within the offset's type. A delta of
/// zero is always in range, whatever `offset + length` comes to.
pub open spec fn shift_in_range(s: PositionalSlice, d: int) -> bool {
    if d <= 0 {
        s.offset + d >= 0
    } else {
        s.offset + d + s.length <= usize::MAX
    }
}

/// The slice `s` moved by `d`: the offset adjusted, the length unchanged.
/// Meaningful when `0 <= s.offset + d <= usize::MAX`, which `shift_in_range`
/// guarantees.
pub open spec fn shifted(s: PositionalSlice, d: int) -> PositionalSlice {
    PositionalSlice { offset: (s.offset + d) as usize, length: s.length }
}

impl PositionalSlice {
    /// Obtains unchecked a copy of the slice moved by the given `d`elta.
    ///
    /// The caller must have established that the adjusted offset fits the
    /// offset's type; prefer [`PositionalSlice::offset_checked`] wherever
    /// that is not already known.
    pub fn offset_unchecked(&self, d: isize) -> (r: Self)
        requires
            0 <= self.offset + d <= usize::MAX,
        ensures
            r == shifted(*self, d as int),
    {
        let new_off: usize = if d < 0 {
            self.offset - neg_magnitude(d)
        } else {
            self.offset + (d as usize)
        };

        Self { length: self.length, offset: new_off }
    }

    /// Obtains checked a copy of the slice moved by the given `d`elta, or
    /// `None` when the shift is out of range: when a negative delta's
    /// magnitude exceeds the offset, or a positive delta pushes the offset or
    /// the region's end (`offset + d + length`) past the largest offset. A
    /// delta of zero always yields the original value. Never panics.
    pub fn offset_checked(&self, d: isize) -> (r: Option<Self>)
        ensures
            r is Some <==> shift_in_range(*self, d as int),
            r matches Some(s) ==> s == shifted(*self, d as int),
            d == 0 ==> r == Some(*self),
    {
        if d == 0 {
            return Some(*self);
        }

        if d < 0 {
            let a = neg_magnitude(d);

            if a > self.offset {
                // would drive the offset below zero
                return None;
            }

            Some(Self::new(self.offset - a, self.length))
        } else {
            let a = d as usize;

            if a > usize::MAX - self.offset {
                // would push the offset past its largest value
                return None;
            }

            if self.length > usize::MAX - self.offset - a {
                // the shifted region's end would be unrepresentable
                return None;
            }

            Some(Self::new(self.offset + a, self.length))
        }
    }
}

impl PositionalSlice {
    /// Applies this positional slice to a slice of arbitrary type, obtaining
    /// the sub-slice spanning `[offset, offset + length)` of it. The region
    /// is taken relative to whatever view `slice` is, not to any fixed
    /// global buffer.
    pub fn subslice_of<'a, T>(&self, slice: &'a [T]) -> (r: &'a [T])
        requires
            self.offset + self.length <= slice@.len(),
        ensures
            r@ == slice@.subrange(self.offset as int, self.offset + self.length),
    {
        proof {
            // a slice's length is a usize, so the requested end fits one too
            assert(slice@.len() == vstd::slice::spec_slice_len(slice));
        }
        vstd::slice::slice_subrange(slice, self.offset, self.offset + self.length)
    }

    /// Applies this positional slice to a string slice, obtaining the
    /// sub-slice of its characters in `[offset, offset + length)`. Offset and
    /// length are measured in characters, the unit of the text's view. The
    /// region is taken relative to whatever view `text` is, not to any fixed
    /// global buffer.
    pub fn substring_of<'a>(&self, text: &'a str) -> (r: &'a str)
        requires
            self.offset + self.length <= text@.len(),
            self.offset + self.length <= usize::MAX,
        ensures
            r@ == text@.subrange(self.offset as int, self.offset + self.length),
    {
        text.substring_char(self.offset, self.offset + self.length)
    }
}

/// The magnitude of a negative delta, computed without negating `d` itself,
/// which would overflow on the smallest `isize`.
fn neg_magnitude(d: isize) -> (r: usize)
    requires
        d < 0,
    ensures
        r == -(d as int),
{
    ((-(d + 1)) as usize) + 1
}

impl PartialEq for PositionalSlice {
    fn eq(&self, other: &Self) -> (r: bool) {
        if self.offset != other.offset {
            return false;
        }

        if self.length != other.length {
            return false;
        }

        true
    }
}

impl vstd::std_specs::cmp::PartialEqSpecImpl for PositionalSlice {
    open spec fn obeys_eq_spec() -> bool {
        true
    }

    open spec fn eq_spec(&self, other: &PositionalSlice) -> bool {
        self.offset == other.offset && self.length == other.length
    }
}

/// How two positional slices compare: lexicographically, by offset first and
/// then by length.
pub open spec fn cmp_of(a: PositionalSlice, b: PositionalSlice) -> Ordering {
    if a.offset < b.offset {
        Ordering::Less
    } else if b.offset < a.offset {
        Ordering::Greater
    } else if a.length < b.length {
        Ordering::Less
    } else if b.length < a.length {
        Ordering::Greater
    } else {
        Ordering::Equal
    }
}

impl PartialOrd for PositionalSlice {
    fn partial_cmp(&self, other: &Self) -> (r: Option<Ordering>) {
        if self.offset < other.offset {
            return Some(Ordering::Less);
        }

        if other.offset < self.offset {
            return Some(Ordering::Greater);
        }

        if self.length < other.length {
            return Some(Ordering::Less);
        }

        if other.length < self.length {
            return Some(Ordering::Greater);
        }

        Some(Ordering::Equal)
    }
}

impl vstd::std_specs::cmp::PartialOrdSpecImpl for PositionalSlice {
    open spec fn obeys_partial_cmp_spec() -> bool {
        true
    }

    open spec fn partial_cmp_spec(&self, other: &PositionalSlice) -> Option<Ordering> {
        Some(cmp_of(*self, *other))
    }
}

/// Equality law: `==` on positional slices is structural — it holds exactly
/// when both fields agree — and is therefore reflexive and symmetric.
pub proof fn lemma_eq_structural(a: PositionalSlice, b: PositionalSlice)
    ensures
        a.eq_spec(&b) <==> (a.offset == b.offset && a.length == b.length),
        a.eq_spec(&a),
        a.eq_spec(&b) <==> b.eq_spec(&a),
{
}

/// Ordering law: comparison always yields an answer, resolves by offset first
/// and then by length, and is consistent with equality — `Equal` exactly for
/// equal values, and `Less` one way exactly when `Greater` the other way, so
/// no pair is both.
pub proof fn lemma_ordering_total(a: PositionalSlice, b: PositionalSlice)
    ensures
        a.partial_cmp_spec(&b) is Some,
        a.partial_cmp_spec(&b) == Some(Ordering::Equal) <==> a.eq_spec(&b),
        a.partial_cmp_spec(&b) == Some(Ordering::Less) <==> (a.offset < b.offset || (
        a.offset == b.offset && a.length < b.length)),
        a.partial_cmp_spec(&b) == Some(Ordering::Less) <==> b.partial_cmp_spec(&a) == Some(
            Ordering::Greater,
        ),
{
}

/// Ordering law: the lexicographic order is transitive, which together with
/// `lemma_ordering_total` makes it a total order.
pub proof fn lemma_ordering_transitive(a: PositionalSlice, b: PositionalSlice, c: PositionalSlice)
    requires
        a.partial_cmp_spec(&b) == Some(Ordering::Less),
        b.partial_cmp_spec(&c) == Some(Ordering::Less),
    ensures
        a.partial_cmp_spec(&c) == Some(Ordering::Less),
{
}

/// Round-trip law: a shift that is in range is undone by the opposite shift,
/// provided the original region's end, `offset + length`, is itself
/// representable — without that, a negative shift is valid but the opposite
/// positive shift would leave the shifted region's end unrepresentable.
pub proof fn lemma_shift_round_trip(x: PositionalSlice, d: int)
    requires
        shift_in_range(x, d),
        d < 0 ==> x.offset + x.length <= usize::MAX,
    ensures
        shift_in_range(shifted(x, d), -d),
        shifted(shifted(x, d), -d) == x,
{
}

/// Underflow law: no negative shift is in range for a slice whose offset is
/// zero, whatever its length.
pub proof fn lemma_no_shift_below_zero(s: PositionalSlice, d: int)
    requires
        s.offset == 0,
        d < 0,
    ensures
        !shift_in_range(s, d),
{
}

} // verus!
