use vstd::prelude::*;

use crate::model::models::ModelUser;
use crate::user::models::UserList;
use crate::warning::models::WarningUser;

verus! {

/// One page of users with the total count.
#[derive(Debug)]
pub struct UserPagination {
    pub count: i64,
    pub results: Vec<UserList>,
}

/// One page of model aggregates with the total count.
#[derive(Debug)]
pub struct ModelPagination {
    pub count: i64,
    pub results: Vec<ModelUser>,
}

/// One page of warning aggregates with the total count.
#[derive(Debug)]
pub struct WarningPagination {
    pub count: i64,
    pub results: Vec<WarningUser>,
}

/// Query-string payload selecting a page of a listing.
#[derive(Debug)]
pub struct Pagination {
    pub page: Option<i64>,
}

impl Pagination {
    /// The page asked for; the first page when none was given.
    pub open spec fn spec_page(&self) -> int {
        match self.page {
            Some(p) => p as int,
            None => 0,
        }
    }

    /// The page asked for, defaulting to the first.
    pub fn page_or_default(&self) -> (p: i64)
        ensures
            p == self.spec_page(),
    {
        match self.page {
            Some(p) => p,
            None => 0,
        }
    }
}

/// The `OFFSET` of a page: the page size times the page number.
pub fn page_offset(limit: i64, page: i64) -> (o: i64)
    requires
        0 <= limit,
        0 <= page,
        limit * page <= i64::MAX,
    ensures
        o == limit * page,
{
    proof {
        assert(limit * page >= 0) by (nonlinear_arith)
            requires
                0 <= limit,
                0 <= page,
        ;
    }
    limit * page
}

} // verus!
