//! The strategy of the system allocator.

use vstd::prelude::*;

verus! {

/// The alignment that `malloc` guarantees on the target.
pub const MIN_ALIGN: usize = 16;

/// How the system allocator serves a request.
#[derive(Debug, Clone, Copy, PartialEq, Eq, Structural)]
pub enum AllocStrategy {
    /// `malloc`, `calloc` or `realloc` of the C library.
    Plain,
    /// `memalign`, or an allocation with an explicit alignment and a copy.
    Aligned,
}

/// The C library's allocation functions serve a request when the alignment
/// asked for is within what `malloc` guarantees and no larger than the size.
pub open spec fn plain_suffices(align: usize, size: usize) -> bool {
    align <= MIN_ALIGN && align <= size
}

/// The strategy for a request of `size` bytes at alignment `align`: for
/// `alloc` and `alloc_zeroed` the size of the layout, for `realloc` the new size.
pub fn strategy(align: usize, size: usize) -> (r: AllocStrategy)
    ensures
        r == strategy_spec(align, size),
        (r == AllocStrategy::Plain) <==> (align <= MIN_ALIGN && align <= size),
{
    if align <= MIN_ALIGN && align <= size {
        AllocStrategy::Plain
    } else {
        AllocStrategy::Aligned
    }
}

/// Whenever the plain functions are chosen, their guaranteed alignment is
/// enough for the request.
pub proof fn lemma_plain_is_aligned_enough(align: usize, size: usize)
    ensures
        strategy_spec(align, size) == AllocStrategy::Plain ==> align <= MIN_ALIGN,
{
}

/// The plain C functions are chosen exactly when the alignment is at most 16
/// (what `malloc` guarantees) and at most the size; every other request gets
/// an aligned allocation.
pub proof fn lemma_plain_exactly_when_alignment_suffices(align: usize, size: usize)
    ensures
        (strategy_spec(align, size) == AllocStrategy::Plain) <==> (align <= 16 && align <= size),
        (strategy_spec(align, size) == AllocStrategy::Aligned) <==> (16 < align || size < align),
{
}

/// The strategy as a value.
pub open spec fn strategy_spec(align: usize, size: usize) -> AllocStrategy {
    if plain_suffices(align, size) { AllocStrategy::Plain } else { AllocStrategy::Aligned }
}

} // verus!
