use vstd::prelude::*;

use crate::units::Duplicate;

verus! {

/// How many records one page holds.
pub const ITEM_PER_PAGE: usize = 10;

/// Why a page request produced no records.
#[derive(Debug, Clone, Copy, PartialEq, Eq, Structural)]
pub enum ReturnAction {
    /// The page lies past the end of the known results: a normal outcome.
    EOR,
    /// The data could not be had: no server answered, or the answer was malformed.
    Failed,
}

/// Index of the first record of `page`.
pub open spec fn page_start(page: nat) -> nat {
    page * ITEM_PER_PAGE as nat
}

/// One past the last record of `page` in a sequence of `len` records.
pub open spec fn page_end(len: nat, page: nat) -> nat {
    if len < page_start(page) + ITEM_PER_PAGE {
        len
    } else {
        page_start(page) + ITEM_PER_PAGE as nat
    }
}

/// The records of page `page` of `s`, or the end of the results when the page
/// starts at or after the end of `s`.
pub open spec fn page_of<T>(s: Seq<T>, page: nat) -> Result<Seq<T>, ReturnAction> {
    if page_start(page) < s.len() {
        Ok(s.subrange(page_start(page) as int, page_end(s.len(), page) as int))
    } else {
        Err(ReturnAction::EOR)
    }
}

/// The view of a page answer: the records as a sequence.
pub open spec fn answer_view<T>(r: Result<Vec<T>, ReturnAction>) -> Result<Seq<T>, ReturnAction> {
    match r {
        Ok(v) => Ok(v@),
        Err(e) => Err(e),
    }
}

/// Copies page `page` of `items` out.
pub fn copy_page<T: Duplicate>(items: &Vec<T>, page: usize) -> (r: Result<Vec<T>, ReturnAction>)
    ensures
        answer_view(r) == page_of(items@, page as nat),
{
    let len = items.len();
    if len == 0 || page > (len - 1) / ITEM_PER_PAGE {
        assert(page_start(page as nat) >= len) by (nonlinear_arith)
            requires
                len == 0 || page > (len - 1) / 10,
        ;
        return Err(ReturnAction::EOR);
    }
    assert(page * 10 <= len - 1) by (nonlinear_arith)
        requires
            len > 0,
            page <= (len - 1) / 10,
    ;
    let lo: usize = page * ITEM_PER_PAGE;
    let hi: usize = if len - lo < ITEM_PER_PAGE {
        len
    } else {
        lo + ITEM_PER_PAGE
    };
    let mut out: Vec<T> = Vec::new();
    let mut i: usize = lo;
    while i < hi
        invariant
            lo <= i <= hi <= len == items@.len(),
            out@ == items@.subrange(lo as int, i as int),
        decreases hi - i,
    {
        let item = items[i].duplicate();
        out.push(item);
        i += 1;
        assert(out@ =~= items@.subrange(lo as int, i as int));
    }
    Ok(out)
}

} // verus!
