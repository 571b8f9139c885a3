//! Report rows and report filters.
//!
//! Revenues and refunds are money amounts that no rule reads: their type is
//! the parameter `A` (the application uses `f64`).

use vstd::prelude::*;

verus! {

/// Sales of one product, with its revenue of type `A`.
#[derive(Debug)]
pub struct SalesReportItem<A> {
    pub product_id: String,
    pub product_name: String,
    pub sku: String,
    pub total_quantity: i32,
    pub total_revenue: A,
}

/// A row of the sales report as a mathematical value.
pub struct SalesReportItemView<A> {
    pub product_id: Seq<char>,
    pub product_name: Seq<char>,
    pub sku: Seq<char>,
    pub total_quantity: i32,
    pub total_revenue: A,
}

impl<A> View for SalesReportItem<A> {
    type V = SalesReportItemView<A>;

    open spec fn view(&self) -> SalesReportItemView<A> {
        SalesReportItemView {
            product_id: self.product_id@,
            product_name: self.product_name@,
            sku: self.sku@,
            total_quantity: self.total_quantity,
            total_revenue: self.total_revenue,
        }
    }
}

impl<A: Copy> Clone for SalesReportItem<A> {
    fn clone(&self) -> (r: Self)
        ensures
            r@ == self@,
    {
        SalesReportItem {
            product_id: self.product_id.clone(),
            product_name: self.product_name.clone(),
            sku: self.sku.clone(),
            total_quantity: self.total_quantity,
            total_revenue: self.total_revenue,
        }
    }
}

/// The sales report: its rows, the revenue of all of them and the number of
/// items sold.
#[derive(Debug)]
pub struct SalesReport<A> {
    pub items: Vec<SalesReportItem<A>>,
    pub total_revenue: A,
    pub total_items_sold: i64,
}

/// A product in the stock report (quantities are 0 for a product without
/// stock record).
#[derive(Debug)]
pub struct StockReportItem {
    pub product_id: String,
    pub product_name: String,
    pub sku: String,
    pub quantity: i32,
    pub min_quantity: i32,
    pub status: String,
}

/// A row of the stock report as a mathematical value.
pub struct StockReportItemView {
    pub product_id: Seq<char>,
    pub product_name: Seq<char>,
    pub sku: Seq<char>,
    pub quantity: i32,
    pub min_quantity: i32,
    pub status: Seq<char>,
}

impl View for StockReportItem {
    type V = StockReportItemView;

    open spec fn view(&self) -> StockReportItemView {
        StockReportItemView {
            product_id: self.product_id@,
            product_name: self.product_name@,
            sku: self.sku@,
            quantity: self.quantity,
            min_quantity: self.min_quantity,
            status: self.status@,
        }
    }
}

impl Clone for StockReportItem {
    fn clone(&self) -> (r: Self)
        ensures
            r@ == self@,
    {
        StockReportItem {
            product_id: self.product_id.clone(),
            product_name: self.product_name.clone(),
            sku: self.sku.clone(),
            quantity: self.quantity,
            min_quantity: self.min_quantity,
            status: self.status.clone(),
        }
    }
}

/// A return in the returns report, with its refund of type `A`.
#[derive(Debug)]
pub struct ReturnReportItem<A> {
    pub id: String,
    pub product_id: String,
    pub product_name: String,
    pub reason: String,
    pub status: String,
    pub refund_amount: Option<A>,
    pub created_at: String,
}

/// A row of the returns report as a mathematical value.
pub struct ReturnReportItemView<A> {
    pub id: Seq<char>,
    pub product_id: Seq<char>,
    pub product_name: Seq<char>,
    pub reason: Seq<char>,
    pub status: Seq<char>,
    pub refund_amount: Option<A>,
    pub created_at: Seq<char>,
}

impl<A> View for ReturnReportItem<A> {
    type V = ReturnReportItemView<A>;

    open spec fn view(&self) -> ReturnReportItemView<A> {
        ReturnReportItemView {
            id: self.id@,
            product_id: self.product_id@,
            product_name: self.product_name@,
            reason: self.reason@,
            status: self.status@,
            refund_amount: self.refund_amount,
            created_at: self.created_at@,
        }
    }
}

impl<A: Copy> Clone for ReturnReportItem<A> {
    fn clone(&self) -> (r: Self)
        ensures
            r@ == self@,
    {
        ReturnReportItem {
            id: self.id.clone(),
            product_id: self.product_id.clone(),
            product_name: self.product_name.clone(),
            reason: self.reason.clone(),
            status: self.status.clone(),
            refund_amount: self.refund_amount,
            created_at: self.created_at.clone(),
        }
    }
}

/// Date range of a report: both dates or neither.
#[derive(Debug)]
pub struct ReportFilter {
    pub start_date: Option<String>,
    pub end_date: Option<String>,
}

/// The views of a sequence of sales rows.
pub open spec fn sales_item_views<A>(s: Seq<SalesReportItem<A>>) -> Seq<SalesReportItemView<A>> {
    s.map_values(|x: SalesReportItem<A>| x@)
}

/// The views of a sequence of stock rows.
pub open spec fn stock_item_views(s: Seq<StockReportItem>) -> Seq<StockReportItemView> {
    s.map_values(|x: StockReportItem| x@)
}

/// The views of a sequence of returns rows.
pub open spec fn return_item_views<A>(s: Seq<ReturnReportItem<A>>) -> Seq<ReturnReportItemView<A>> {
    s.map_values(|x: ReturnReportItem<A>| x@)
}

/// The quantities sold in a sequence of sales rows.
pub open spec fn sold_quantities<A>(s: Seq<SalesReportItemView<A>>) -> Seq<i32> {
    s.map_values(|x: SalesReportItemView<A>| x.total_quantity)
}

} // verus!
