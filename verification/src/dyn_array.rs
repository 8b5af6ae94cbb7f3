//! Dynamic-array encoding: sequences whose GPU-side footprint is reserved
//! at a declared capacity rather than at the populated length.
//!
//! The reservation is `stride × capacity` bytes: populated elements fill
//! the leading slots, each padded out to the active convention's array
//! stride, and the unused remainder is zero-filled. A zero capacity is a
//! programmer error — there is no other source of truth for the reserved
//! size — so the encoders demand a positive capacity up front.

use vstd::prelude::*;
use crate::alignment::{padded_to, round_up, zeros};
use crate::buffer::{extend_bytes, push_zeros};
use crate::std140::{AsStd140, Std140Bytes};
use crate::std430::{AsStd430, Std430Bytes};

verus! {

/// A growable sequence paired with the declared capacity that sizes its
/// GPU-side reservation. The capacity, not the populated length, decides
/// the encoded footprint.
#[derive(Debug, Clone)]
pub struct DynArray<T> {
    pub items: Vec<T>,
    pub capacity: usize,
}

impl<T> DynArray<T> {
    /// An empty array that reserves room for `capacity` elements.
    pub fn with_capacity(capacity: usize) -> (r: Self)
        ensures
            r.items@ == Seq::<T>::empty(),
            r.capacity == capacity,
    {
        DynArray { items: Vec::new(), capacity }
    }

    /// Appends one populated element; the declared capacity is unchanged.
    pub fn push(&mut self, item: T)
        ensures
            final(self).items@ == old(self).items@.push(item),
            final(self).capacity == old(self).capacity,
    {
        self.items.push(item);
    }
}

/// Array element types whose every value encodes into one fixed std140
/// array slot, so that a dynamic array's reservation can be sized without
/// inspecting the populated elements.
pub trait Std140ArrayElement: AsStd140 {
    /// The byte footprint of one element slot: the element's encoding
    /// padded out to the std140 array boundary.
    spec fn spec_stride140() -> int;

    /// The stride is a whole number of 16-byte array units.
    proof fn lemma_stride140_unit()
        ensures
            Self::spec_stride140() >= 0,
            Self::spec_stride140() % 16 == 0,
    ;

    /// Any value's bytes, rounded up to the 16-byte array boundary, fill
    /// exactly one slot.
    proof fn lemma_stride140_covers(&self)
        ensures
            round_up(self.std140_bytes_spec().len() as int, 16) == Self::spec_stride140(),
    ;

    /// The stride, as a machine word.
    fn stride140() -> (r: usize)
        ensures
            r as int == Self::spec_stride140(),
    ;
}

/// Array element types whose every value encodes into one fixed std430
/// array slot at one shared base alignment.
pub trait Std430ArrayElement: AsStd430 {
    /// The byte footprint of one element slot: the element's encoding
    /// padded out to its own base alignment.
    spec fn spec_stride430() -> int;

    /// The base alignment every value of the type shares.
    spec fn spec_align430() -> int;

    /// The slot alignment is positive and the stride is nonnegative.
    proof fn lemma_stride430_unit()
        ensures
            Self::spec_stride430() >= 0,
            Self::spec_align430() >= 1,
    ;

    /// Any value encodes at the shared alignment, and its bytes rounded up
    /// to that alignment fill exactly one slot.
    proof fn lemma_stride430_covers(&self)
        ensures
            self.std430_alignment_spec() == Self::spec_align430(),
            round_up(self.std430_bytes_spec().len() as int, Self::spec_align430())
                == Self::spec_stride430(),
    ;

    /// The stride, as a machine word.
    fn stride430() -> (r: usize)
        ensures
            r as int == Self::spec_stride430(),
    ;

    /// The shared base alignment, as a machine word.
    fn align430() -> (r: usize)
        ensures
            r as int == Self::spec_align430(),
    ;
}

/// The populated elements' byte blocks under std140, each padded out to
/// the 16-byte array boundary, back to back.
pub open spec fn dyn140_elem_bytes<T: AsStd140>(items: Seq<T>) -> Seq<u8>
    decreases items.len(),
{
    if items.len() == 0 {
        Seq::empty()
    } else {
        padded_to(items.first().std140_bytes_spec(), 16) + dyn140_elem_bytes(items.drop_first())
    }
}

/// A dynamic array's full std140 reservation: populated slots first, the
/// unused remainder zero-filled out to stride × capacity.
pub open spec fn dyn140_bytes<T: Std140ArrayElement>(items: Seq<T>, capacity: int) -> Seq<u8> {
    dyn140_elem_bytes(items) + zeros(
        T::spec_stride140() * capacity - dyn140_elem_bytes(items).len(),
    )
}

/// The populated elements' byte blocks under std430, each padded out to
/// its own base alignment, back to back.
pub open spec fn dyn430_elem_bytes<T: AsStd430>(items: Seq<T>) -> Seq<u8>
    decreases items.len(),
{
    if items.len() == 0 {
        Seq::empty()
    } else {
        padded_to(items.first().std430_bytes_spec(), items.first().std430_alignment_spec())
            + dyn430_elem_bytes(items.drop_first())
    }
}

/// A dynamic array's full std430 reservation.
pub open spec fn dyn430_bytes<T: Std430ArrayElement>(items: Seq<T>, capacity: int) -> Seq<u8> {
    dyn430_elem_bytes(items) + zeros(
        T::spec_stride430() * capacity - dyn430_elem_bytes(items).len(),
    )
}

/// Appending one element appends exactly its padded block.
proof fn lemma_dyn140_elem_bytes_snoc<T: AsStd140>(items: Seq<T>, item: T)
    ensures
        dyn140_elem_bytes(items.push(item)) == dyn140_elem_bytes(items) + padded_to(
            item.std140_bytes_spec(),
            16,
        ),
    decreases items.len(),
{
    if items.len() == 0 {
        assert(items.push(item).first() == item);
        assert(items.push(item).drop_first() =~= Seq::<T>::empty());
        assert(dyn140_elem_bytes(items.push(item)) == padded_to(item.std140_bytes_spec(), 16)
            + dyn140_elem_bytes(Seq::<T>::empty()));
        assert(dyn140_elem_bytes(items.push(item)) =~= dyn140_elem_bytes(items) + padded_to(
            item.std140_bytes_spec(),
            16,
        ));
    } else {
        assert(items.push(item).drop_first() =~= items.drop_first().push(item));
        assert(items.push(item).first() == items.first());
        lemma_dyn140_elem_bytes_snoc(items.drop_first(), item);
        assert(dyn140_elem_bytes(items.push(item)) =~= dyn140_elem_bytes(items) + padded_to(
            item.std140_bytes_spec(),
            16,
        ));
    }
}

/// Appending one element appends exactly its padded block.
proof fn lemma_dyn430_elem_bytes_snoc<T: AsStd430>(items: Seq<T>, item: T)
    ensures
        dyn430_elem_bytes(items.push(item)) == dyn430_elem_bytes(items) + padded_to(
            item.std430_bytes_spec(),
            item.std430_alignment_spec(),
        ),
    decreases items.len(),
{
    if items.len() == 0 {
        assert(items.push(item).first() == item);
        assert(items.push(item).drop_first() =~= Seq::<T>::empty());
        assert(dyn430_elem_bytes(items.push(item)) == padded_to(
            item.std430_bytes_spec(),
            item.std430_alignment_spec(),
        ) + dyn430_elem_bytes(Seq::<T>::empty()));
        assert(dyn430_elem_bytes(items.push(item)) =~= dyn430_elem_bytes(items) + padded_to(
            item.std430_bytes_spec(),
            item.std430_alignment_spec(),
        ));
    } else {
        assert(items.push(item).drop_first() =~= items.drop_first().push(item));
        assert(items.push(item).first() == items.first());
        lemma_dyn430_elem_bytes_snoc(items.drop_first(), item);
        assert(dyn430_elem_bytes(items.push(item)) =~= dyn430_elem_bytes(items) + padded_to(
            item.std430_bytes_spec(),
            item.std430_alignment_spec(),
        ));
    }
}

impl<T: Std140ArrayElement> DynArray<T> {
    /// Encodes the full std140 reservation of this array.
    ///
    /// The reserved length is stride × declared capacity, independent of
    /// how many elements are populated; unused trailing capacity is
    /// zero-filled. The result's base alignment is the std140 array
    /// alignment of 16.
    pub fn as_std140(&self) -> (r: Std140Bytes)
        requires
            self.capacity >= 1,
            self.items@.len() <= self.capacity as int,
            T::spec_stride140() * self.capacity as int <= usize::MAX as int,
        ensures
            r.bytes_spec() == dyn140_bytes(self.items@, self.capacity as int),
            r.bytes_spec().len() == T::spec_stride140() * self.capacity as int,
            r.alignment_spec() == 16,
            r.wf(),
    {
        proof {
            T::lemma_stride140_unit();
        }
        let stride = T::stride140();
        let total = stride * self.capacity;

        let mut bytes: Vec<u8> = Vec::new();
        let mut i: usize = 0;
        while i < self.items.len()
            invariant
                i <= self.items@.len() <= self.capacity as int,
                T::spec_stride140() * self.capacity as int <= usize::MAX as int,
                stride as int == T::spec_stride140(),
                total as int == T::spec_stride140() * self.capacity as int,
                bytes@ == dyn140_elem_bytes(self.items@.take(i as int)),
                bytes@.len() == T::spec_stride140() * i as int,
            decreases self.items@.len() - i,
        {
            let mut enc = self.items[i].as_std140();
            enc.align_to(16);
            extend_bytes(&mut bytes, enc.as_slice());
            proof {
                let done = self.items@.take(i as int);
                let item = self.items@[i as int];
                item.lemma_stride140_covers();
                lemma_dyn140_elem_bytes_snoc(done, item);
                assert(done.push(item) =~= self.items@.take(i as int + 1));
                assert(T::spec_stride140() * (i as int + 1) == T::spec_stride140() * i as int
                    + T::spec_stride140()) by (nonlinear_arith);
            }
            i = i + 1;
        }

        proof {
            assert(self.items@.take(self.items@.len() as int) =~= self.items@);
            assert(T::spec_stride140() * i as int <= T::spec_stride140() * self.capacity as int)
                by (nonlinear_arith)
                requires
                    i as int <= self.capacity as int,
                    T::spec_stride140() >= 0,
            ;
        }
        let padding = total - bytes.len();
        push_zeros(&mut bytes, padding);
        proof {
            assert(bytes@ == dyn140_bytes(self.items@, self.capacity as int));
        }
        Std140Bytes::from_raw(bytes, 16)
    }
}

impl<T: Std430ArrayElement> DynArray<T> {
    /// Encodes the full std430 reservation of this array.
    ///
    /// The reserved length is stride × declared capacity, independent of
    /// how many elements are populated; unused trailing capacity is
    /// zero-filled. The result's base alignment is the element type's own
    /// base alignment.
    pub fn as_std430(&self) -> (r: Std430Bytes)
        requires
            self.capacity >= 1,
            self.items@.len() <= self.capacity as int,
            T::spec_stride430() * self.capacity as int <= usize::MAX as int,
        ensures
            r.bytes_spec() == dyn430_bytes(self.items@, self.capacity as int),
            r.bytes_spec().len() == T::spec_stride430() * self.capacity as int,
            r.alignment_spec() == T::spec_align430(),
            r.wf(),
    {
        proof {
            T::lemma_stride430_unit();
        }
        let stride = T::stride430();
        let total = stride * self.capacity;

        let mut bytes: Vec<u8> = Vec::new();
        let mut i: usize = 0;
        while i < self.items.len()
            invariant
                i <= self.items@.len() <= self.capacity as int,
                T::spec_stride430() * self.capacity as int <= usize::MAX as int,
                stride as int == T::spec_stride430(),
                total as int == T::spec_stride430() * self.capacity as int,
                bytes@ == dyn430_elem_bytes(self.items@.take(i as int)),
                bytes@.len() == T::spec_stride430() * i as int,
            decreases self.items@.len() - i,
        {
            proof {
                self.items@[i as int].lemma_stride430_covers();
                T::lemma_stride430_unit();
            }
            let mut enc = self.items[i].as_std430();
            enc.align();
            extend_bytes(&mut bytes, enc.as_slice());
            proof {
                let done = self.items@.take(i as int);
                let item = self.items@[i as int];
                lemma_dyn430_elem_bytes_snoc(done, item);
                assert(done.push(item) =~= self.items@.take(i as int + 1));
                assert(T::spec_stride430() * (i as int + 1) == T::spec_stride430() * i as int
                    + T::spec_stride430()) by (nonlinear_arith);
            }
            i = i + 1;
        }

        proof {
            assert(self.items@.take(self.items@.len() as int) =~= self.items@);
            assert(T::spec_stride430() * i as int <= T::spec_stride430() * self.capacity as int)
                by (nonlinear_arith)
                requires
                    i as int <= self.capacity as int,
                    T::spec_stride430() >= 0,
            ;
        }
        let padding = total - bytes.len();
        push_zeros(&mut bytes, padding);
        proof {
            assert(bytes@ == dyn430_bytes(self.items@, self.capacity as int));
        }
        Std430Bytes::from_raw(bytes, T::align430())
    }
}

} // verus!
