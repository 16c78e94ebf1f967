//! The listing gateway's row handling and its two-phase flow.
//!
//! One listing request runs two queries against the single secondary
//! session: the count first, then the data page — the offset depends on
//! the clamped page, which depends on the count, so the order is fixed.
//! The flow types below make that order static: the data query can only
//! be built by consuming the value that the count phase produced. The
//! embedding program must hold the session's exclusive lock across both
//! phases of one request.
//!
//! Rows come back tagged with their tenant column; before they reach the
//! response they pass a verified scope check that drops every row whose
//! tag differs from the principal's tenant name, so a response can never
//! carry another tenant's rows, whatever the store returned.

use vstd::prelude::*;

use crate::model::Params;
use crate::pagination::MAX_TOTAL_COUNT;
use crate::pagination::PagePlan;
use crate::pagination::plan_page;
use crate::pagination::spec_page_number;
use crate::pagination::spec_page_size;
use crate::pagination::spec_total_pages;
use crate::query::CountQuery;
use crate::query::DataQuery;
use crate::query::build_count_query;
use crate::query::build_data_query;
use crate::query::spec_count_sql;
use crate::query::spec_data_sql;
use crate::query::spec_sort_dir;
use crate::query::spec_sort_field;

verus! {

/// A raw result row: the value of its tenant tag column, and the rest of
/// the row as the embedding program will return it.
pub struct TaggedRow<R> {
    pub tenant_tag: Option<String>,
    pub payload: R,
}

/// Whether a row may be shown to a principal: an unscoped principal sees
/// every row, a tenant-bearing one only rows tagged with its tenant.
pub open spec fn spec_row_kept<R>(row: TaggedRow<R>, tenant: Option<Seq<char>>) -> bool {
    match tenant {
        None => true,
        Some(t) => row.tenant_tag.deep_view() == Some(t),
    }
}

/// The rows of `rows` that a principal with tenant scope `tenant` may
/// see, in their original order.
pub open spec fn spec_scoped<R>(rows: Seq<TaggedRow<R>>, tenant: Option<Seq<char>>) -> Seq<
    TaggedRow<R>,
>
    decreases rows.len(),
{
    if rows.len() == 0 {
        Seq::empty()
    } else if spec_row_kept(rows.last(), tenant) {
        spec_scoped(rows.drop_last(), tenant).push(rows.last())
    } else {
        spec_scoped(rows.drop_last(), tenant)
    }
}

/// The payloads of a row sequence, in order.
pub open spec fn spec_payloads<R>(rows: Seq<TaggedRow<R>>) -> Seq<R> {
    rows.map_values(|row: TaggedRow<R>| row.payload)
}

/// Law: no cross-tenant leakage — every row that the scope check keeps
/// for a tenant-bearing principal carries exactly that principal's
/// tenant tag.
pub proof fn lemma_tenant_isolation<R>(rows: Seq<TaggedRow<R>>, tenant: Seq<char>)
    ensures
        forall|i: int|
            0 <= i < spec_scoped(rows, Some(tenant)).len() ==> #[trigger] spec_scoped(
                rows,
                Some(tenant),
            )[i].tenant_tag.deep_view() == Some(tenant),
    decreases rows.len(),
{
    if rows.len() > 0 {
        lemma_tenant_isolation(rows.drop_last(), tenant);
    }
}

/// Law: an unscoped principal's response is the row list unchanged —
/// the explicit all-tenant policy for principals without a tenant name.
pub proof fn lemma_unscoped_keeps_all<R>(rows: Seq<TaggedRow<R>>)
    ensures
        spec_scoped(rows, None) =~= rows,
    decreases rows.len(),
{
    if rows.len() > 0 {
        lemma_unscoped_keeps_all::<R>(rows.drop_last());
        assert(spec_scoped(rows, None) =~= rows.drop_last().push(rows.last()));
    }
}

/// The response envelope of the listing endpoint.
pub struct PaginatedResponse<R> {
    pub results: Vec<R>,
    pub current_page: u32,
    pub total_pages: u32,
    pub total_count: u32,
}

impl<R> PaginatedResponse<R> {
    /// The envelope invariant: the current page is clamped into range.
    pub open spec fn wf(self) -> bool {
        self.current_page <= self.total_pages
    }
}

/// Drops every row that the principal's tenant scope does not allow and
/// strips the kept rows down to their payloads, preserving order.
pub fn scope_rows<R>(rows: Vec<TaggedRow<R>>, tenant: &Option<String>) -> (kept: Vec<R>)
    ensures
        kept@ == spec_payloads(spec_scoped(rows@, tenant.deep_view())),
{
    let ghost all = rows@;
    let mut rows = rows;
    let mut kept: Vec<R> = Vec::new();
    let ghost mut done: int = 0;
    while rows.len() > 0
        invariant
            0 <= done <= all.len(),
            rows@ =~= all.subrange(done, all.len() as int),
            kept@ =~= spec_payloads(spec_scoped(all.subrange(0, done), tenant.deep_view())),
        decreases rows@.len(),
    {
        let row = rows.remove(0);
        proof {
            assert(rows@ =~= all.subrange(done + 1, all.len() as int));
        }
        let keep: bool = match tenant {
            None => true,
            Some(t) => match &row.tenant_tag {
                Some(tag) => *tag == *t,
                None => false,
            },
        };
        proof {
            let prefix = all.subrange(0, done);
            let next = all.subrange(0, done + 1);
            assert(next.drop_last() =~= prefix);
            assert(next.last() == row);
            assert(keep == spec_row_kept(row, tenant.deep_view()));
            if keep {
                assert(spec_payloads(spec_scoped(next, tenant.deep_view())) =~= spec_payloads(
                    spec_scoped(prefix, tenant.deep_view()),
                ).push(row.payload));
            }
        }
        if keep {
            kept.push(row.payload);
        }
        proof {
            done = done + 1;
        }
    }
    proof {
        assert(all.subrange(0, done) =~= all);
    }
    kept
}

/// The count phase of one listing request: holds the tenant scope and
/// names the count query to run. Produced by `begin_listing`; consumed
/// by `proceed_to_data`, so the data query cannot exist before the count
/// has been obtained.
pub struct CountPhase {
    tenant: Option<String>,
}

impl CountPhase {
    /// The tenant scope this listing runs under.
    pub closed spec fn spec_tenant(self) -> Option<Seq<char>> {
        self.tenant.deep_view()
    }
}

/// The data phase of one listing request: the normalized page plan and
/// the tenant scope, ready to check the returned rows.
pub struct DataPhase {
    tenant: Option<String>,
    plan: PagePlan,
    total_count: u32,
}

impl DataPhase {
    /// The tenant scope this listing runs under.
    pub closed spec fn spec_tenant(self) -> Option<Seq<char>> {
        self.tenant.deep_view()
    }

    /// The normalized page plan of this listing.
    pub closed spec fn spec_plan(self) -> PagePlan {
        self.plan
    }

    /// The row count the count phase reported.
    pub closed spec fn spec_total_count(self) -> u32 {
        self.total_count
    }

    /// Validity of the phase: its page plan is well formed.
    pub closed spec fn wf(self) -> bool {
        self.plan.wf()
    }
}

/// The row count as the gateway reads the count query's result: a
/// missing or negative value counts as zero.
pub open spec fn spec_count_value(raw: Option<i32>) -> u32 {
    match raw {
        Some(c) => if c >= 0 {
            c as u32
        } else {
            0
        },
        None => 0,
    }
}

/// Opens a listing request under a tenant scope: yields the count phase
/// and the count query to run first.
pub fn begin_listing(tenant: Option<String>) -> (r: (CountPhase, CountQuery))
    ensures
        r.0.spec_tenant() == tenant.deep_view(),
        r.1.text@ == spec_count_sql(tenant is Some),
        r.1.tenant.deep_view() == tenant.deep_view(),
{
    let q = build_count_query(&tenant);
    (CountPhase { tenant }, q)
}

impl CountPhase {
    /// Consumes the count phase with the count the store reported and
    /// the client's paging parameters: yields the data phase and the
    /// data query to run second. The page plan is fully normalized and
    /// the query text is a function of allow-listed tokens alone.
    pub fn proceed_to_data(self, raw_count: Option<i32>, params: &Params) -> (r: (
        DataPhase,
        DataQuery,
    ))
        ensures
            r.0.wf(),
            r.0.spec_tenant() == self.spec_tenant(),
            r.0.spec_total_count() == spec_count_value(raw_count),
            r.0.spec_plan().wf(),
            r.0.spec_plan().page_size == spec_page_size(params.size),
            r.0.spec_plan().total_pages == spec_total_pages(
                spec_count_value(raw_count),
                r.0.spec_plan().page_size,
            ),
            r.0.spec_plan().current_page == spec_page_number(
                params.page,
                r.0.spec_plan().total_pages,
            ),
            r.1.text@ == spec_data_sql(
                self.spec_tenant() is Some,
                spec_sort_field(params.sorting_field.deep_view()),
                spec_sort_dir(params.sorting_dir.deep_view()),
            ),
            r.1.tenant.deep_view() == self.spec_tenant(),
            r.1.offset == r.0.spec_plan().offset,
            r.1.fetch == r.0.spec_plan().page_size,
    {
        let total_count: u32 = match raw_count {
            Some(c) => if c >= 0 {
                c as u32
            } else {
                0
            },
            None => 0,
        };
        assert(total_count <= MAX_TOTAL_COUNT);
        let plan = plan_page(params, total_count);
        let q = build_data_query(&self.tenant, params, &plan);
        (DataPhase { tenant: self.tenant, plan, total_count }, q)
    }
}

impl DataPhase {
    /// Consumes the data phase with the rows the store returned: scopes
    /// them to the tenant and builds the response envelope.
    pub fn complete<R>(self, rows: Vec<TaggedRow<R>>) -> (resp: PaginatedResponse<R>)
        requires
            self.wf(),
        ensures
            resp.wf(),
            resp.results@ == spec_payloads(spec_scoped(rows@, self.spec_tenant())),
            resp.current_page == self.spec_plan().current_page,
            resp.total_pages == self.spec_plan().total_pages,
            resp.total_count == self.spec_total_count(),
    {
        let results = scope_rows(rows, &self.tenant);
        PaginatedResponse {
            results,
            current_page: self.plan.current_page,
            total_pages: self.plan.total_pages,
            total_count: self.total_count,
        }
    }
}

} // verus!
