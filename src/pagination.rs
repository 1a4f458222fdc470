use vstd::prelude::*;
use crate::error::ValidationError;

verus! {

/// Optional query parameters of a listing.
#[derive(Clone, Copy, Debug, PartialEq, Eq, Structural)]
pub struct PaginationParams {
    pub page: Option<u32>,
    pub limit: Option<u32>,
}

pub const DEFAULT_PAGE: u32 = 1;
pub const DEFAULT_LIMIT: u32 = 20;

impl PaginationParams {
    /// The page asked for, 1 when absent.
    pub open spec fn spec_page(self) -> nat {
        match self.page {
            Some(p) => p as nat,
            None => DEFAULT_PAGE as nat,
        }
    }

    /// The page size asked for, 20 when absent.
    pub open spec fn spec_limit(self) -> nat {
        match self.limit {
            Some(l) => l as nat,
            None => DEFAULT_LIMIT as nat,
        }
    }

    /// Both the page and the page size are positive.
    pub open spec fn well_formed(self) -> bool {
        self.spec_page() >= 1 && self.spec_limit() >= 1
    }
}

/// The items at positions `[(page - 1) * limit, page * limit)` of `s`, cut
/// to its length: empty for a page past the end.
pub open spec fn page_slice<T>(s: Seq<T>, page: nat, limit: nat) -> Seq<T> {
    let start = (page - 1) * limit;
    let end = (page * limit) as int;
    let lo = if start < s.len() { start } else { s.len() as int };
    let hi = if end < s.len() { end } else { s.len() as int };
    s.subrange(lo, hi)
}

/// Cuts one page out of the full ordered list. A page or a page size of zero
/// is rejected.
pub fn paginate<T>(items: Vec<T>, params: &PaginationParams) -> (r: Result<Vec<T>, ValidationError>)
    ensures
        params.well_formed() ==> (r matches Ok(v) && v@ == page_slice(
            items@,
            params.spec_page(),
            params.spec_limit(),
        )),
        !params.well_formed() ==> r == Err::<Vec<T>, ValidationError>(
            ValidationError::InvalidPagination,
        ),
{
    let page: u32 = match params.page {
        Some(p) => p,
        None => DEFAULT_PAGE,
    };
    let limit: u32 = match params.limit {
        Some(l) => l,
        None => DEFAULT_LIMIT,
    };
    if page == 0 || limit == 0 {
        return Err(ValidationError::InvalidPagination);
    }
    let p: u64 = page as u64;
    let l: u64 = limit as u64;
    assert(p * l <= 0xffff_ffffu64 * 0xffff_ffffu64) by (nonlinear_arith)
        requires
            1 <= p <= 0xffff_ffffu64,
            1 <= l <= 0xffff_ffffu64,
    ;
    assert((p - 1) * l == p * l - l) by (nonlinear_arith);
    let end: u64 = p * l;
    let start: u64 = end - l;
    let len: u64 = items.len() as u64;
    let lo: u64 = if start < len { start } else { len };
    let hi: u64 = if end < len { end } else { len };
    let mut head = items;
    let mut rest = head.split_off(lo as usize);
    rest.truncate((hi - lo) as usize);
    Ok(rest)
}

} // verus!
