//! The byte accumulator: a growable byte sequence with a running required
//! alignment and a layout tag.
//!
//! Every write first pads the buffer up to the incoming element's alignment
//! boundary and then appends the element's bytes; the running alignment is
//! raised to the maximum of everything written so far.

use vstd::prelude::*;
use vstd::math::max;
use crate::alignment::{pad_len, round_up, zeros, padded_to, lemma_pad_len, lemma_round_up};

verus! {

/// The two standardized GPU buffer layout conventions.
#[derive(Clone, Copy, PartialEq, Eq, Structural, Debug)]
pub enum Layout {
    Std140,
    Std430,
}

/// A growable byte buffer that owns all padding and offset arithmetic.
#[derive(Debug, Clone)]
pub struct GpuBytes {
    bytes: Vec<u8>,
    alignment: usize,
    layout: Layout,
}

/// Values that can produce their own layout bytes together with their base
/// alignment.
pub trait AsGpuBytes {
    /// The byte image this value contributes to a buffer.
    spec fn gpu_bytes_spec(&self) -> Seq<u8>;

    /// The base alignment of that image.
    spec fn gpu_alignment_spec(&self) -> int;

    /// Produces the layout-tagged byte representation of this value.
    fn as_gpu_bytes(&self) -> (r: GpuBytes)
        ensures
            r.bytes_spec() == self.gpu_bytes_spec(),
            r.alignment_spec() == self.gpu_alignment_spec(),
    ;
}

/// Appends `n` zero bytes to `dst`.
pub(crate) fn push_zeros(dst: &mut Vec<u8>, n: usize)
    ensures
        final(dst)@ == old(dst)@ + zeros(n as int),
{
    let mut i: usize = 0;
    while i < n
        invariant
            i <= n,
            dst@ == old(dst)@ + zeros(i as int),
        decreases n - i,
    {
        dst.push(0u8);
        proof {
            assert(old(dst)@ + zeros(i as int) + seq![0u8] =~= old(dst)@ + zeros(i as int + 1));
        }
        i = i + 1;
    }
    proof {
        assert(old(dst)@ + zeros(0) =~= old(dst)@);
    }
}

/// Appends all of `src` to `dst`.
pub(crate) fn extend_bytes(dst: &mut Vec<u8>, src: &[u8])
    ensures
        final(dst)@ == old(dst)@ + src@,
{
    let mut i: usize = 0;
    while i < src.len()
        invariant
            i <= src.len(),
            dst@ == old(dst)@ + src@.take(i as int),
        decreases src.len() - i,
    {
        dst.push(src[i]);
        proof {
            assert(old(dst)@ + src@.take(i as int) + seq![src@[i as int]] =~= old(dst)@ + src@.take(
                i as int + 1,
            ));
        }
        i = i + 1;
    }
    proof {
        assert(old(dst)@ + src@.take(0) =~= old(dst)@);
        assert(src@.take(src@.len() as int) =~= src@);
    }
}

/// The smallest multiple of 16 that is at least `align`.
pub(crate) fn next_multiple_of_16(align: usize) -> (r: usize)
    requires
        align + 15 <= usize::MAX,
    ensures
        r as int == round_up(align as int, 16),
{
    let rem = align % 16;
    if rem == 0 {
        align
    } else {
        align - rem + 16
    }
}

/// The alignment the active layout forces on one array element.
pub open spec fn elem_target_align(align: int, layout: Layout) -> int {
    match layout {
        Layout::Std140 => round_up(align, 16),
        Layout::Std430 => align,
    }
}

/// One array element's byte block after the layout's re-alignment rule has
/// been applied: the block's length is the element's stride.
pub open spec fn elem_block(bytes: Seq<u8>, align: int, layout: Layout) -> Seq<u8> {
    padded_to(bytes, elem_target_align(align, layout))
}

/// Buffer contents after writing each `(bytes, alignment)` encoding in turn
/// under the given layout's array rule.
pub open spec fn array_write_bytes(
    buf: Seq<u8>,
    elems: Seq<(Seq<u8>, int)>,
    layout: Layout,
) -> Seq<u8>
    decreases elems.len(),
{
    if elems.len() == 0 {
        buf
    } else {
        let b = elems.first().0;
        let a = elems.first().1;
        let t = elem_target_align(a, layout);
        array_write_bytes(
            buf + zeros(pad_len(buf.len() as int, t)) + elem_block(b, a, layout),
            elems.drop_first(),
            layout,
        )
    }
}

/// Running alignment after the same sequence of array-element writes.
pub open spec fn array_write_alignment(
    alignment: int,
    elems: Seq<(Seq<u8>, int)>,
    layout: Layout,
) -> int
    decreases elems.len(),
{
    if elems.len() == 0 {
        alignment
    } else {
        array_write_alignment(
            max(alignment, elem_target_align(elems.first().1, layout)),
            elems.drop_first(),
            layout,
        )
    }
}

/// The encodings a sequence of values contributes to an array write.
pub open spec fn encodings_of<T: AsGpuBytes>(data: Seq<T>) -> Seq<(Seq<u8>, int)> {
    data.map_values(|e: T| (e.gpu_bytes_spec(), e.gpu_alignment_spec()))
}

/// Law (std140 arrays): every array element's stride — the length of the
/// re-aligned byte block the array write appends for it — is a multiple
/// of 16, whatever the element's own size and alignment.
pub proof fn lemma_std140_stride_multiple_of_16(bytes: Seq<u8>, align: int)
    requires
        align >= 1,
    ensures
        elem_block(bytes, align, Layout::Std140).len() as int % 16 == 0,
{
    let t = elem_target_align(align, Layout::Std140);
    lemma_round_up(align, 16);
    assert(t % 16 == 0 && t >= 1);
    let blen = elem_block(bytes, align, Layout::Std140).len() as int;
    lemma_pad_len(bytes.len() as int, t);
    assert(blen % t == 0);
    vstd::arithmetic::div_mod::lemma_fundamental_div_mod(blen, t);
    vstd::arithmetic::div_mod::lemma_fundamental_div_mod(t, 16);
    assert(blen == ((t / 16) * (blen / t)) * 16) by (nonlinear_arith)
        requires
            blen == t * (blen / t),
            t == 16 * (t / 16),
    ;
    vstd::arithmetic::div_mod::lemma_mod_multiples_basic((t / 16) * (blen / t), 16);
}

/// Law (std430 arrays): every array element's stride is its byte length
/// rounded up to the element's own base alignment — a multiple of that
/// alignment lying within one alignment unit of the raw length.
pub proof fn lemma_std430_stride_is_own_alignment(bytes: Seq<u8>, align: int)
    requires
        align >= 1,
    ensures
        elem_block(bytes, align, Layout::Std430).len() as int % align == 0,
        bytes.len() <= elem_block(bytes, align, Layout::Std430).len() < bytes.len() + align,
{
    lemma_round_up(bytes.len() as int, align);
}

impl GpuBytes {
    /// The accumulated byte sequence.
    pub closed spec fn bytes_spec(&self) -> Seq<u8> {
        self.bytes@
    }

    /// The running required alignment: the maximum base alignment of
    /// everything written so far, or the last explicitly forced value.
    pub closed spec fn alignment_spec(&self) -> int {
        self.alignment as int
    }

    /// The layout convention this buffer was created for.
    pub closed spec fn layout_spec(&self) -> Layout {
        self.layout
    }

    /// Creates an empty buffer for the given layout convention.
    pub fn new(layout: Layout) -> (r: Self)
        ensures
            r.bytes_spec() == Seq::<u8>::empty(),
            r.alignment_spec() == 0,
            r.layout_spec() == layout,
    {
        GpuBytes { bytes: Vec::new(), alignment: 0, layout }
    }

    /// Builds a buffer directly from raw parts.
    pub(crate) fn from_parts(bytes: Vec<u8>, alignment: usize, layout: Layout) -> (r: Self)
        ensures
            r.bytes_spec() == bytes@,
            r.alignment_spec() == alignment as int,
            r.layout_spec() == layout,
    {
        GpuBytes { bytes, alignment, layout }
    }

    /// Pads the buffer up to the boundary `align` and then appends `data`;
    /// raises the running alignment to at least `align`.
    fn write_slice(&mut self, data: &[u8], align: usize)
        requires
            align >= 1,
        ensures
            final(self).bytes_spec() == old(self).bytes_spec() + zeros(
                pad_len(old(self).bytes_spec().len() as int, align as int),
            ) + data@,
            final(self).alignment_spec() == max(old(self).alignment_spec(), align as int),
            final(self).layout_spec() == old(self).layout_spec(),
    {
        if self.alignment < align {
            self.alignment = align;
        }

        let offset = self.bytes.len();
        let padding = (align - (offset % align)) % align;

        push_zeros(&mut self.bytes, padding);
        extend_bytes(&mut self.bytes, data);
    }

    /// Writes one encodable value: padding first, then the value's bytes.
    /// The data itself starts at the smallest multiple of its alignment
    /// that is at least the old buffer length.
    pub fn write<T: AsGpuBytes>(&mut self, data: &T) -> (ret: &mut Self)
        requires
            data.gpu_alignment_spec() >= 1,
        ensures
            ret.bytes_spec() == old(self).bytes_spec() + zeros(
                pad_len(old(self).bytes_spec().len() as int, data.gpu_alignment_spec()),
            ) + data.gpu_bytes_spec(),
            ret.alignment_spec() == max(old(self).alignment_spec(), data.gpu_alignment_spec()),
            ret.layout_spec() == old(self).layout_spec(),
            *final(self) == *final(ret),
    {
        let enc = data.as_gpu_bytes();

        self.write_slice(enc.as_slice(), enc.alignment);
        self
    }

    /// Pads the buffer to the current running alignment. Afterwards the
    /// buffer length is an exact multiple of the running alignment.
    pub fn align(&mut self) -> (ret: &mut Self)
        requires
            old(self).alignment_spec() >= 1,
        ensures
            ret.bytes_spec() == padded_to(old(self).bytes_spec(), old(self).alignment_spec()),
            ret.alignment_spec() == old(self).alignment_spec(),
            ret.layout_spec() == old(self).layout_spec(),
            ret.bytes_spec().len() as int % ret.alignment_spec() == 0,
            *final(self) == *final(ret),
    {
        proof {
            lemma_pad_len(self.bytes_spec().len() as int, self.alignment_spec());
        }
        let align = self.alignment;
        self.align_to(align)
    }

    /// Pads the buffer to an explicit boundary and resets the running
    /// alignment to exactly `align`, whatever it was before.
    pub fn align_to(&mut self, align: usize) -> (ret: &mut Self)
        requires
            align >= 1,
        ensures
            ret.bytes_spec() == padded_to(old(self).bytes_spec(), align as int),
            ret.alignment_spec() == align as int,
            ret.layout_spec() == old(self).layout_spec(),
            *final(self) == *final(ret),
    {
        let offset = self.bytes.len();
        let padding = (align - (offset % align)) % align;

        push_zeros(&mut self.bytes, padding);
        self.alignment = align;
        self
    }

    /// A copy of this buffer's bytes and alignment, tagged for `layout`.
    pub(crate) fn duplicate_for(&self, layout: Layout) -> (r: GpuBytes)
        ensures
            r.bytes_spec() == self.bytes_spec(),
            r.alignment_spec() == self.alignment_spec(),
            r.layout_spec() == layout,
    {
        let mut bytes: Vec<u8> = Vec::new();
        extend_bytes(&mut bytes, self.bytes.as_slice());
        GpuBytes { bytes, alignment: self.alignment, layout }
    }

    /// The accumulated bytes, read-only.
    pub fn as_slice(&self) -> (r: &[u8])
        ensures
            r@ == self.bytes_spec(),
    {
        self.bytes.as_slice()
    }

    /// Writes a homogeneous array of values. Each element's own byte block
    /// is first re-aligned by the active layout's array rule (padded out to
    /// a multiple of 16 for std140, to the element's own alignment for
    /// std430) and then appended as a whole unit.
    pub fn write_array<T: AsGpuBytes>(&mut self, data: &[T]) -> (ret: &mut Self)
        requires
            forall|i: int| 0 <= i < data@.len() ==> 1 <= #[trigger] data@[i].gpu_alignment_spec(),
            forall|i: int| 0 <= i < data@.len() ==> #[trigger] data@[i].gpu_alignment_spec() + 15
                <= usize::MAX,
        ensures
            ret.bytes_spec() == array_write_bytes(
                old(self).bytes_spec(),
                encodings_of(data@),
                old(self).layout_spec(),
            ),
            ret.alignment_spec() == array_write_alignment(
                old(self).alignment_spec(),
                encodings_of(data@),
                old(self).layout_spec(),
            ),
            ret.layout_spec() == old(self).layout_spec(),
            *final(self) == *final(ret),
    {
        let ghost encs = encodings_of(data@);
        let ghost orig_bytes = self.bytes_spec();
        let ghost orig_alignment = self.alignment_spec();
        let ghost layout = self.layout_spec();
        proof {
            assert(encs.skip(0) =~= encs);
        }

        let mut idx: usize = 0;
        while idx < data.len()
            invariant
                idx <= data@.len(),
                encs == encodings_of(data@),
                encs.len() == data@.len(),
                forall|i: int| 0 <= i < data@.len() ==> 1 <= #[trigger] data@[i].gpu_alignment_spec(),
                forall|i: int| 0 <= i < data@.len() ==> #[trigger] data@[i].gpu_alignment_spec()
                    + 15 <= usize::MAX,
                self.layout_spec() == layout,
                array_write_bytes(orig_bytes, encs, layout) == array_write_bytes(
                    self.bytes_spec(),
                    encs.skip(idx as int),
                    layout,
                ),
                array_write_alignment(orig_alignment, encs, layout) == array_write_alignment(
                    self.alignment_spec(),
                    encs.skip(idx as int),
                    layout,
                ),
            decreases data@.len() - idx,
        {
            let ghost prev_bytes = self.bytes_spec();
            let ghost prev_alignment = self.alignment_spec();
            let elem = &data[idx];
            let mut enc = elem.as_gpu_bytes();
            let ghost b = elem.gpu_bytes_spec();
            let ghost a = elem.gpu_alignment_spec();

            match self.layout {
                Layout::Std140 => {
                    proof {
                        lemma_pad_len(a, 16);
                    }
                    let target = next_multiple_of_16(enc.alignment);
                    enc.align_to(target);
                }
                Layout::Std430 => {
                    enc.align();
                }
            }

            proof {
                assert(enc.bytes_spec() == elem_block(b, a, layout));
                assert(enc.gpu_alignment_spec() == elem_target_align(a, layout));
            }
            self.write(&enc);

            proof {
                let rest = encs.skip(idx as int);
                assert(rest.first() == encs[idx as int]);
                assert(encs[idx as int] == (b, a));
                assert(rest.drop_first() =~= encs.skip(idx as int + 1));
            }
            idx = idx + 1;
        }
        proof {
            assert(encs.skip(data@.len() as int) =~= Seq::<(Seq<u8>, int)>::empty());
        }
        self
    }
}

impl AsGpuBytes for GpuBytes {
    open spec fn gpu_bytes_spec(&self) -> Seq<u8> {
        self.bytes_spec()
    }

    open spec fn gpu_alignment_spec(&self) -> int {
        self.alignment_spec()
    }

    fn as_gpu_bytes(&self) -> (r: GpuBytes) {
        self.duplicate_for(self.layout)
    }
}

} // verus!
