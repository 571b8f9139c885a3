//! The rules reports follow: a date range has both ends or none, and the
//! number of items sold is the sum over the report's rows.

use vstd::prelude::*;

use crate::domain::entity::report::{
    ReportFilter, ReturnReportItem, SalesReport, SalesReportItem, StockReportItem,
    return_item_views, sales_item_views, sold_quantities, stock_item_views,
};
use crate::domain::port::report_repository::ReportRepository;
use crate::domain::error::{DomainError, is_bad_request};

verus! {

/// Message refusing a date range with only one end.
pub open spec fn half_open_range() -> Seq<char> {
    "Forneça ambas as datas (início e fim) ou nenhuma"@
}

/// Accepts a filter with both dates or with neither; refuses one with a
/// single date.
pub fn check_report_filter(filter: &ReportFilter) -> (r: Result<(), DomainError>)
    ensures
        (filter.start_date is Some) == (filter.end_date is Some) ==> r is Ok,
        (filter.start_date is Some) != (filter.end_date is Some) ==> is_bad_request(r, half_open_range()),
{
    if filter.start_date.is_some() != filter.end_date.is_some() {
        return Err(DomainError::BadRequest(String::from_str("Forneça ambas as datas (início e fim) ou nenhuma")));
    }
    Ok(())
}

/// Sum of the quantities.
pub open spec fn sum_quantities(q: Seq<i32>) -> int
    decreases q.len(),
{
    if q.len() == 0 {
        0
    } else {
        sum_quantities(q.drop_last()) + q.last() as int
    }
}

/// The sum stays within what `count` terms of `i32` can reach.
proof fn lemma_sum_bounds(q: Seq<i32>)
    ensures
        q.len() * (i32::MIN as int) <= sum_quantities(q) <= q.len() * (i32::MAX as int),
    decreases q.len(),
{
    if q.len() > 0 {
        lemma_sum_bounds(q.drop_last());
    }
}

/// Total number of items sold: the sum of the rows' quantities, as `i64`
/// (wrapping around past the range of `i64`, which takes more than
/// `u32::MAX` rows).
pub fn total_items_sold(quantities: &[i32]) -> (r: i64)
    ensures
        r == sum_quantities(quantities@) as i64,
        i64::MIN <= sum_quantities(quantities@) <= i64::MAX ==> r as int == sum_quantities(quantities@),
        quantities@.len() <= u32::MAX ==> r as int == sum_quantities(quantities@),
{
    let mut total: i128 = 0;
    let mut i: usize = 0;
    while i < quantities.len()
        invariant
            i <= quantities@.len(),
            total as int == sum_quantities(quantities@.take(i as int)),
        decreases quantities@.len() - i,
    {
        proof {
            assert(quantities@.take(i + 1).drop_last() =~= quantities@.take(i as int));
            lemma_sum_bounds(quantities@.take(i + 1));
            assert((i + 1) * (i32::MAX as int) <= 0x1_0000_0000_0000_0000 * (i32::MAX as int)) by (nonlinear_arith)
                requires i + 1 <= 0x1_0000_0000_0000_0000int;
            assert((i + 1) * (i32::MIN as int) >= 0x1_0000_0000_0000_0000 * (i32::MIN as int)) by (nonlinear_arith)
                requires i + 1 <= 0x1_0000_0000_0000_0000int;
        }
        total = total + quantities[i] as i128;
        i = i + 1;
    }
    proof {
        assert(quantities@.take(quantities@.len() as int) =~= quantities@);
        lemma_sum_bounds(quantities@);
        if quantities@.len() <= u32::MAX {
            assert(quantities@.len() * (i32::MAX as int) <= (u32::MAX as int) * (i32::MAX as int)) by (nonlinear_arith)
                requires quantities@.len() <= u32::MAX;
            assert(quantities@.len() * (i32::MIN as int) >= (u32::MAX as int) * (i32::MIN as int)) by (nonlinear_arith)
                requires quantities@.len() <= u32::MAX;
        }
    }
    #[verifier::truncate]
    (total as i64)
}

/// The quantities of a sequence of sales rows, in order.
fn quantities_of<A>(items: &Vec<SalesReportItem<A>>) -> (r: Vec<i32>)
    ensures
        r@ == sold_quantities(sales_item_views(items@)),
{
    let mut out: Vec<i32> = Vec::new();
    let mut i: usize = 0;
    while i < items.len()
        invariant
            i <= items@.len(),
            out@ =~= sold_quantities(sales_item_views(items@)).take(i as int),
        decreases items@.len() - i,
    {
        out.push(items[i].total_quantity);
        proof {
            assert(sold_quantities(sales_item_views(items@)).take(i + 1) =~= sold_quantities(
                sales_item_views(items@),
            ).take(i as int).push(items@[i as int].total_quantity));
        }
        i = i + 1;
    }
    proof {
        assert(sold_quantities(sales_item_views(items@)).take(items@.len() as int) =~= sold_quantities(
            sales_item_views(items@),
        ));
    }
    out
}

/// The reports, read from a report source `R`.
pub struct ReportUseCase<R: ReportRepository> {
    repo: R,
}

impl<R: ReportRepository> ReportUseCase<R> {
    /// The report source the use case reads.
    pub closed spec fn repository(&self) -> R {
        self.repo
    }

    pub fn new(repo: R) -> (r: Self)
        ensures
            r.repository() == repo,
    {
        ReportUseCase { repo }
    }

    /// The report source, for inspection.
    pub fn report_store(&self) -> (r: &R)
        ensures
            *r == self.repository(),
    {
        &self.repo
    }

    /// The sales report for the range of `filter`: its rows as the source
    /// gives them, the number of items sold over them, and their revenue as
    /// `total_revenue` computes it from the rows.
    pub fn sales_report<F>(&self, filter: ReportFilter, total_revenue: F) -> (r: Result<
        SalesReport<R::Amount>,
        DomainError,
    >) where F: Fn(&Vec<SalesReportItem<R::Amount>>) -> R::Amount
        requires
            forall|items: &Vec<SalesReportItem<R::Amount>>| call_requires(total_revenue, (items,)),
        ensures
            (filter.start_date is Some) != (filter.end_date is Some) ==> is_bad_request(r, half_open_range()),
            (filter.start_date is Some) == (filter.end_date is Some) && self.repository().healthy() ==> r is Ok,
            r matches Ok(report) ==> {
                &&& sales_item_views(report.items@) == self.repository().sales_rows(
                    filter.start_date.deep_view(),
                    filter.end_date.deep_view(),
                )
                &&& report.total_items_sold == sum_quantities(sold_quantities(sales_item_views(report.items@))) as i64
                &&& call_ensures(total_revenue, (&report.items,), report.total_revenue)
            },
    {
        check_report_filter(&filter)?;
        let items = self.repo.sales_report(&filter)?;
        let revenue = total_revenue(&items);
        let quantities = quantities_of(&items);
        let sold = total_items_sold(quantities.as_slice());
        Ok(SalesReport { items, total_revenue: revenue, total_items_sold: sold })
    }

    /// The stock report: the rows as the source gives them.
    pub fn stock_report(&self) -> (r: Result<Vec<StockReportItem>, DomainError>)
        ensures
            self.repository().healthy() ==> r is Ok,
            r matches Ok(v) ==> stock_item_views(v@) == self.repository().stock_rows(),
    {
        self.repo.stock_report()
    }

    /// The returns report for the range of `filter`: the rows as the source
    /// gives them.
    pub fn returns_report(&self, filter: ReportFilter) -> (r: Result<Vec<ReturnReportItem<R::Amount>>, DomainError>)
        ensures
            (filter.start_date is Some) != (filter.end_date is Some) ==> is_bad_request(r, half_open_range()),
            (filter.start_date is Some) == (filter.end_date is Some) && self.repository().healthy() ==> r is Ok,
            r matches Ok(v) ==> return_item_views(v@) == self.repository().return_rows(
                filter.start_date.deep_view(),
                filter.end_date.deep_view(),
            ),
    {
        check_report_filter(&filter)?;
        self.repo.returns_report(&filter)
    }
}

} // verus!
