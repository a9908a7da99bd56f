//! A dual-index accumulate primitive over contiguous containers of `i32`.
//!
//! The one operation offered here is `container[i] += container[j]` with
//! wrapping (two's-complement, modulo 2^32) addition, for three container
//! shapes: a fixed-size array taken by value, a borrowed mutable view, and
//! a growable buffer taken by value. The by-value shapes return the updated
//! container, so the effect of the operation is observable to the caller;
//! the view shape mutates in place.
//!
//! Each shape comes in two variants:
//! - an unchecked-style variant whose bounds precondition (`i` and `j` both
//!   below the length) is the caller's obligation, discharged statically;
//! - a checked variant that validates both indices at run time and reports
//!   the first offending index as an [`IndexOutOfRange`] value, leaving the
//!   container untouched on rejection.

use vstd::prelude::*;

verus! {

use vstd::wrapping::i32_specs;

/// The contents of a container after accumulating slot `j` into slot `i`:
/// the element at `i` is replaced by the wrapping sum of the elements at
/// `i` and `j`; every other element is unchanged.
pub open spec fn accumulated(s: Seq<i32>, i: int, j: int) -> Seq<i32>
    recommends
        0 <= i < s.len(),
        0 <= j < s.len(),
{
    s.update(i, i32_specs::wrapping_add(s[i], s[j]))
}

/// Accumulate slot `j` into slot `i` of a borrowed mutable view.
///
/// Bounds are a static precondition, not a run-time check: this is the
/// explicitly named escape hatch for callers that have already proved both
/// indices valid.
pub fn accumulate_view(view: &mut [i32], i: usize, j: usize)
    requires
        i < old(view)@.len(),
        j < old(view)@.len(),
    ensures
        final(view)@ == accumulated(old(view)@, i as int, j as int),
{
    let sum: i32 = view[i].wrapping_add(view[j]);
    view[i] = sum;
}

/// Accumulate slot `j` into slot `i` of a fixed-size array taken by value.
///
/// The updated array is returned, so the mutation is observable even though
/// the argument is consumed. Bounds are a static precondition.
pub fn accumulate_fixed<const N: usize>(arr: [i32; N], i: usize, j: usize) -> (r: [i32; N])
    requires
        i < N,
        j < N,
    ensures
        r@ == accumulated(arr@, i as int, j as int),
{
    let mut out = arr;
    let sum: i32 = out[i].wrapping_add(out[j]);
    out[i] = sum;
    out
}

/// Accumulate slot `j` into slot `i` of a growable buffer taken by value.
///
/// The updated buffer is returned, so the mutation is observable even though
/// the argument is consumed. Bounds are a static precondition.
pub fn accumulate_buffer(buf: Vec<i32>, i: usize, j: usize) -> (r: Vec<i32>)
    requires
        i < buf@.len(),
        j < buf@.len(),
    ensures
        r@ == accumulated(buf@, i as int, j as int),
{
    let mut out = buf;
    let sum: i32 = out[i].wrapping_add(out[j]);
    out[i] = sum;
    out
}

/// Why a checked accumulate call was rejected: the first index found to lie
/// at or beyond the container's length, and that length.
#[derive(Clone, Copy, Debug, PartialEq, Eq, Structural)]
pub struct IndexOutOfRange {
    /// The offending index (the destination is validated first).
    pub index: usize,
    /// The length of the container it was validated against.
    pub len: usize,
}

/// Checked accumulate on a borrowed mutable view: validates both indices
/// against the view's length before touching any element. On rejection the
/// view is left exactly as it was.
pub fn try_accumulate_view(view: &mut [i32], i: usize, j: usize) -> (r: Result<
    (),
    IndexOutOfRange,
>)
    ensures
        i < old(view)@.len() && j < old(view)@.len() ==> r == Ok::<(), IndexOutOfRange>(())
            && final(view)@ == accumulated(old(view)@, i as int, j as int),
        i >= old(view)@.len() ==> r == Err::<(), IndexOutOfRange>(
            (IndexOutOfRange { index: i, len: old(view)@.len() as usize }),
        ) && final(view)@ == old(view)@,
        i < old(view)@.len() && j >= old(view)@.len() ==> r == Err::<(), IndexOutOfRange>(
            (IndexOutOfRange { index: j, len: old(view)@.len() as usize }),
        ) && final(view)@ == old(view)@,
{
    let len: usize = view.len();
    if i >= len {
        return Err(IndexOutOfRange { index: i, len });
    }
    if j >= len {
        return Err(IndexOutOfRange { index: j, len });
    }
    accumulate_view(view, i, j);
    Ok(())
}

/// Checked accumulate on a fixed-size array behind a mutable reference:
/// validates both indices against the array's length before touching any
/// element. On rejection the array is left exactly as it was.
pub fn try_accumulate_fixed<const N: usize>(arr: &mut [i32; N], i: usize, j: usize) -> (r: Result<
    (),
    IndexOutOfRange,
>)
    ensures
        i < N && j < N ==> r == Ok::<(), IndexOutOfRange>(()) && final(arr)@ == accumulated(
            old(arr)@,
            i as int,
            j as int,
        ),
        i >= N ==> r == Err::<(), IndexOutOfRange>((IndexOutOfRange { index: i, len: N }))
            && final(arr)@ == old(arr)@,
        i < N && j >= N ==> r == Err::<(), IndexOutOfRange>((IndexOutOfRange { index: j, len: N }))
            && final(arr)@ == old(arr)@,
{
    if i >= N {
        return Err(IndexOutOfRange { index: i, len: N });
    }
    if j >= N {
        return Err(IndexOutOfRange { index: j, len: N });
    }
    let sum: i32 = arr[i].wrapping_add(arr[j]);
    arr[i] = sum;
    Ok(())
}

/// Checked accumulate on a growable buffer behind a mutable reference:
/// validates both indices against the buffer's length before touching any
/// element. On rejection the buffer is left exactly as it was.
pub fn try_accumulate_buffer(buf: &mut Vec<i32>, i: usize, j: usize) -> (r: Result<
    (),
    IndexOutOfRange,
>)
    ensures
        i < old(buf)@.len() && j < old(buf)@.len() ==> r == Ok::<(), IndexOutOfRange>(())
            && final(buf)@ == accumulated(old(buf)@, i as int, j as int),
        i >= old(buf)@.len() ==> r == Err::<(), IndexOutOfRange>(
            (IndexOutOfRange { index: i, len: old(buf)@.len() as usize }),
        ) && final(buf)@ == old(buf)@,
        i < old(buf)@.len() && j >= old(buf)@.len() ==> r == Err::<(), IndexOutOfRange>(
            (IndexOutOfRange { index: j, len: old(buf)@.len() as usize }),
        ) && final(buf)@ == old(buf)@,
{
    let len: usize = buf.len();
    if i >= len {
        return Err(IndexOutOfRange { index: i, len });
    }
    if j >= len {
        return Err(IndexOutOfRange { index: j, len });
    }
    let sum: i32 = buf[i].wrapping_add(buf[j]);
    buf[i] = sum;
    Ok(())
}

/// A value already in `i32` range is its own mod-2^32 representative.
proof fn lemma_signed_crop_in_range(x: int)
    requires
        i32::MIN <= x <= i32::MAX,
    ensures
        i32_specs::signed_crop(x) == x,
{
    if x >= 0 {
        vstd::arithmetic::div_mod::lemma_small_mod(x as nat, 0x1_0000_0000nat);
    } else {
        vstd::arithmetic::div_mod::lemma_mod_add_multiples_vanish(x, 0x1_0000_0000);
        vstd::arithmetic::div_mod::lemma_small_mod((x + 0x1_0000_0000) as nat, 0x1_0000_0000nat);
    }
}

/// Shifting by one full period does not change the mod-2^32 representative.
proof fn lemma_signed_crop_shift(x: int)
    ensures
        i32_specs::signed_crop(x + 0x1_0000_0000) == i32_specs::signed_crop(x),
        i32_specs::signed_crop(x - 0x1_0000_0000) == i32_specs::signed_crop(x),
{
    vstd::arithmetic::div_mod::lemma_mod_add_multiples_vanish(x, 0x1_0000_0000);
    vstd::arithmetic::div_mod::lemma_mod_sub_multiples_vanish(x, 0x1_0000_0000);
}

/// Wrapping addition of two `i32` values is exactly the mod-2^32
/// representative of their exact sum.
proof fn lemma_wrapping_add_is_crop(a: i32, b: i32)
    ensures
        i32_specs::wrapping_add(a, b) == i32_specs::signed_crop(a + b),
{
    if a + b > i32::MAX {
        lemma_signed_crop_shift(a + b - 0x1_0000_0000);
        lemma_signed_crop_in_range(a + b - 0x1_0000_0000);
    } else if a + b < i32::MIN {
        lemma_signed_crop_shift(a + b);
        lemma_signed_crop_in_range(a + b + 0x1_0000_0000);
    } else {
        lemma_signed_crop_in_range(a + b);
    }
}

/// For valid indices the operation updates exactly one slot: the element at
/// `i` becomes the mod-2^32 representative of the exact sum of the old
/// elements at `i` and `j`, the length is kept, and every other element is
/// unchanged.
pub proof fn lemma_accumulated_pointwise(s: Seq<i32>, i: int, j: int)
    requires
        0 <= i < s.len(),
        0 <= j < s.len(),
    ensures
        accumulated(s, i, j).len() == s.len(),
        accumulated(s, i, j)[i] == i32_specs::signed_crop(s[i] + s[j]),
        forall|k: int| 0 <= k < s.len() && k != i ==> accumulated(s, i, j)[k] == s[k],
{
    lemma_wrapping_add_is_crop(s[i], s[j]);
}

/// Self-addition: accumulating a slot into itself doubles it, modulo 2^32.
pub proof fn lemma_self_addition(s: Seq<i32>, i: int)
    requires
        0 <= i < s.len(),
    ensures
        accumulated(s, i, i)[i] == i32_specs::signed_crop(2 * s[i]),
{
    lemma_wrapping_add_is_crop(s[i], s[i]);
}

/// The operation is not idempotent. Applying it twice with the same index
/// pair, destination distinct from source, leaves the destination at
/// `old[i] + 2 * old[j]` (mod 2^32); whenever the source is nonzero this
/// differs from the single application, whose destination is
/// `old[i] + old[j]` (mod 2^32). (With a zero source the two agree, so that
/// input is left out of the inequality.)
pub proof fn lemma_not_idempotent(s: Seq<i32>, i: int, j: int)
    requires
        0 <= i < s.len(),
        0 <= j < s.len(),
        i != j,
    ensures
        accumulated(accumulated(s, i, j), i, j)[i] == i32_specs::signed_crop(s[i] + 2 * s[j]),
        s[j] != 0 ==> accumulated(accumulated(s, i, j), i, j)[i] != accumulated(s, i, j)[i],
{
    let once = i32_specs::wrapping_add(s[i], s[j]);
    lemma_wrapping_add_is_crop(once, s[j]);
    lemma_signed_crop_shift(s[i] + 2 * s[j]);
}

/// Shape equivalence: the resulting contents depend only on the element
/// sequence and the index pair, never on the container shape. Three
/// containers with identical contents — a fixed array, a borrowed view and
/// a growable buffer — are therefore updated to identical contents.
pub proof fn lemma_shape_equivalence(a: Seq<i32>, v: Seq<i32>, b: Seq<i32>, i: int, j: int)
    requires
        a == v,
        v == b,
    ensures
        accumulated(a, i, j) == accumulated(v, i, j),
        accumulated(v, i, j) == accumulated(b, i, j),
{
}

} // verus!
