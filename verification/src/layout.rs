//! Memory layouts of DMA-capable allocations.

use vstd::prelude::*;

verus! {

/// Size of a base page, the alignment of every DMA-capable allocation.
pub const BASE_PAGE_SIZE: usize = 4096;

/// Size and alignment of one allocation.
#[derive(Clone, Copy, Debug, PartialEq, Eq, Structural)]
pub struct DmaLayout {
    pub size: usize,
    pub align: usize,
}

impl DmaLayout {
    /// A layout is valid when it is aligned to a base page and its size,
    /// rounded up to the alignment, does not exceed `isize::MAX`.
    pub open spec fn valid(self) -> bool {
        &&& self.align == BASE_PAGE_SIZE
        &&& self.size <= isize::MAX - (BASE_PAGE_SIZE - 1)
    }

    /// The layout of `size` bytes aligned to a base page, unless `size`
    /// rounded up to a whole number of pages would exceed `isize::MAX`.
    pub open spec fn page_aligned_layout(size: usize) -> Option<DmaLayout> {
        if size <= isize::MAX - (BASE_PAGE_SIZE - 1) {
            Some(DmaLayout { size, align: BASE_PAGE_SIZE })
        } else {
            None
        }
    }

    /// The layout of `size` bytes aligned to a base page, unless `size`
    /// rounded up to a whole number of pages would exceed `isize::MAX`.
    pub fn page_aligned(size: usize) -> (layout: Option<DmaLayout>)
        ensures
            layout == Self::page_aligned_layout(size),
            layout matches Some(l) ==> l.valid(),
    {
        if size <= isize::MAX as usize - (BASE_PAGE_SIZE - 1) {
            Some(DmaLayout { size, align: BASE_PAGE_SIZE })
        } else {
            None
        }
    }

    /// The pair of words under which a layout is kept in a table.
    pub open spec fn spec_words(self) -> (usize, usize) {
        (self.size, self.align)
    }

    /// The layout that a pair of words stands for.
    pub open spec fn spec_from_words(words: (usize, usize)) -> DmaLayout {
        DmaLayout { size: words.0, align: words.1 }
    }

    /// The pair of words under which the layout is kept in a table.
    pub fn words(self) -> (words: (usize, usize))
        ensures
            words == self.spec_words(),
    {
        (self.size, self.align)
    }

    /// The layout that a pair of words stands for.
    pub fn from_words(words: (usize, usize)) -> (layout: DmaLayout)
        ensures
            layout == Self::spec_from_words(words),
    {
        DmaLayout { size: words.0, align: words.1 }
    }
}

} // verus!
