//! Port through which the use cases read the reports.

use vstd::prelude::*;

use crate::domain::entity::report::{
    ReportFilter, ReturnReportItem, ReturnReportItemView, SalesReportItem, SalesReportItemView,
    StockReportItem, StockReportItemView, return_item_views, sales_item_views, stock_item_views,
};
use crate::domain::error::DomainError;

verus! {

/// Source of the report rows; revenues and refunds are of type `Amount`. A
/// date range is given as its two optional ends. A read may always fail;
/// when the source is `healthy` it does not fail for reasons of its own.
pub trait ReportRepository {
    /// The type of the money amounts.
    type Amount;

    /// The sales rows for a date range (unspecified where the implementation does not say).
    open spec fn sales_rows(&self, start: Option<Seq<char>>, end: Option<Seq<char>>) -> Seq<
        SalesReportItemView<Self::Amount>,
    > {
        vstd::pervasive::arbitrary()
    }

    /// The stock rows (unspecified where the implementation does not say).
    open spec fn stock_rows(&self) -> Seq<StockReportItemView> {
        vstd::pervasive::arbitrary()
    }

    /// The returns rows for a date range (unspecified where the implementation does not say).
    open spec fn return_rows(&self, start: Option<Seq<char>>, end: Option<Seq<char>>) -> Seq<
        ReturnReportItemView<Self::Amount>,
    > {
        vstd::pervasive::arbitrary()
    }

    /// The source answers every request (not assumed of a source that does not say so).
    open spec fn healthy(&self) -> bool {
        false
    }

    /// The sales of each product in the range of `filter`.
    fn sales_report(&self, filter: &ReportFilter) -> (r: Result<Vec<SalesReportItem<Self::Amount>>, DomainError>)
        ensures
            self.healthy() ==> r is Ok,
            r matches Ok(v) ==> sales_item_views(v@) == self.sales_rows(
                filter.start_date.deep_view(),
                filter.end_date.deep_view(),
            ),
    ;

    /// The stock of each product.
    fn stock_report(&self) -> (r: Result<Vec<StockReportItem>, DomainError>)
        ensures
            self.healthy() ==> r is Ok,
            r matches Ok(v) ==> stock_item_views(v@) == self.stock_rows(),
    ;

    /// The returns in the range of `filter`.
    fn returns_report(&self, filter: &ReportFilter) -> (r: Result<Vec<ReturnReportItem<Self::Amount>>, DomainError>)
        ensures
            self.healthy() ==> r is Ok,
            r matches Ok(v) ==> return_item_views(v@) == self.return_rows(
                filter.start_date.deep_view(),
                filter.end_date.deep_view(),
            ),
    ;
}

} // verus!
