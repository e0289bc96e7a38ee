//! Page sampler: selects up to three representative page numbers
//! (first, middle, last), 1-indexed, deduplicated, strictly increasing.

use vstd::prelude::*;

verus! {

/// The pages sampled from a document of `n` pages: the first page, the
/// middle page `n / 2 + 1`, and the last page, without duplicates.
pub open spec fn sample_pages_spec(n: int) -> Seq<u32> {
    if n <= 0 {
        seq![]
    } else if n == 1 {
        seq![1u32]
    } else if n == 2 {
        seq![1u32, 2u32]
    } else {
        seq![1u32, (n / 2 + 1) as u32, n as u32]
    }
}

/// Sampled page numbers are a strictly increasing subset of `[1, n]`
/// with exactly `min(n, 3)` elements.
pub proof fn lemma_sample_pages_valid(n: int)
    requires
        1 <= n <= u32::MAX as int,
    ensures
        sample_pages_spec(n).len() == if n < 3 { n } else { 3 },
        forall|i: int|
            0 <= i < sample_pages_spec(n).len() ==> 1 <= #[trigger] sample_pages_spec(n)[i] <= n,
        forall|i: int, j: int|
            0 <= i < j < sample_pages_spec(n).len() ==> sample_pages_spec(n)[i]
                < sample_pages_spec(n)[j],
{
}

/// Select up to three representative page numbers from a document of
/// `num_pages` pages.
pub fn get_sample_page_numbers(num_pages: usize) -> (r: Vec<u32>)
    requires
        num_pages <= u32::MAX as usize,
    ensures
        r@ == sample_pages_spec(num_pages as int),
{
    let mut pages: Vec<u32> = Vec::new();
    if num_pages == 0 {
        assert(pages@ =~= sample_pages_spec(num_pages as int));
        return pages;
    }
    pages.push(1u32);
    if num_pages > 1 {
        let middle: u32 = (num_pages / 2 + 1) as u32;
        if middle != 1 {
            pages.push(middle);
        }
    }
    if num_pages > 2 {
        let middle: u32 = (num_pages / 2 + 1) as u32;
        let last: u32 = num_pages as u32;
        if last != 1 && last != middle {
            pages.push(last);
        }
    }
    assert(pages@ =~= sample_pages_spec(num_pages as int));
    pages
}

} // verus!
