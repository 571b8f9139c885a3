//! Stock levels of products and the movements that change them.

use vstd::prelude::*;

use crate::domain::lookup::{any_match, first_match, is_first_match};
use crate::domain::text::{decimal, i32_to_decimal};

verus! {

/// Current stock of a product.
#[derive(Debug)]
pub struct Stock {
    pub id: String,
    pub product_id: String,
    pub quantity: i32,
    pub min_quantity: i32,
    pub location: Option<String>,
    pub updated_at: String,
}

/// A stock record as a mathematical value.
pub struct StockView {
    pub id: Seq<char>,
    pub product_id: Seq<char>,
    pub quantity: i32,
    pub min_quantity: i32,
    pub location: Option<Seq<char>>,
    pub updated_at: Seq<char>,
}

impl View for Stock {
    type V = StockView;

    open spec fn view(&self) -> StockView {
        StockView {
            id: self.id@,
            product_id: self.product_id@,
            quantity: self.quantity,
            min_quantity: self.min_quantity,
            location: self.location.deep_view(),
            updated_at: self.updated_at@,
        }
    }
}

impl Clone for Stock {
    fn clone(&self) -> (r: Self)
        ensures
            r@ == self@,
    {
        Stock {
            id: self.id.clone(),
            product_id: self.product_id.clone(),
            quantity: self.quantity,
            min_quantity: self.min_quantity,
            location: self.location.clone(),
            updated_at: self.updated_at.clone(),
        }
    }
}

/// A movement of stock: an entry ("in") or an exit ("out").
#[derive(Debug)]
pub struct StockMovement {
    pub id: String,
    pub product_id: String,
    pub movement_type: String,
    pub quantity: i32,
    pub reason: Option<String>,
    pub reference: Option<String>,
    pub created_at: String,
}

/// A stock movement as a mathematical value.
pub struct StockMovementView {
    pub id: Seq<char>,
    pub product_id: Seq<char>,
    pub movement_type: Seq<char>,
    pub quantity: i32,
    pub reason: Option<Seq<char>>,
    pub reference: Option<Seq<char>>,
    pub created_at: Seq<char>,
}

impl View for StockMovement {
    type V = StockMovementView;

    open spec fn view(&self) -> StockMovementView {
        StockMovementView {
            id: self.id@,
            product_id: self.product_id@,
            movement_type: self.movement_type@,
            quantity: self.quantity,
            reason: self.reason.deep_view(),
            reference: self.reference.deep_view(),
            created_at: self.created_at@,
        }
    }
}

impl Clone for StockMovement {
    fn clone(&self) -> (r: Self)
        ensures
            r@ == self@,
    {
        StockMovement {
            id: self.id.clone(),
            product_id: self.product_id.clone(),
            movement_type: self.movement_type.clone(),
            quantity: self.quantity,
            reason: self.reason.clone(),
            reference: self.reference.clone(),
            created_at: self.created_at.clone(),
        }
    }
}

/// Data for recording a stock movement.
#[derive(Debug)]
pub struct CreateStockMovementInput {
    pub product_id: String,
    pub movement_type: String,
    pub quantity: i32,
    pub reason: Option<String>,
    pub reference: Option<String>,
}

/// Data for setting up the stock of a product.
#[derive(Debug)]
pub struct CreateStockInput {
    pub product_id: String,
    pub quantity: Option<i32>,
    pub min_quantity: Option<i32>,
    pub location: Option<String>,
}

/// A product whose stock is below its minimum (for reports).
#[derive(Debug)]
pub struct LowStockProduct {
    pub product_id: String,
    pub product_name: String,
    pub sku: String,
    pub quantity: i32,
    pub min_quantity: i32,
}

/// A low-stock product as a mathematical value.
pub struct LowStockProductView {
    pub product_id: Seq<char>,
    pub product_name: Seq<char>,
    pub sku: Seq<char>,
    pub quantity: i32,
    pub min_quantity: i32,
}

impl View for LowStockProduct {
    type V = LowStockProductView;

    open spec fn view(&self) -> LowStockProductView {
        LowStockProductView {
            product_id: self.product_id@,
            product_name: self.product_name@,
            sku: self.sku@,
            quantity: self.quantity,
            min_quantity: self.min_quantity,
        }
    }
}

/// The views of a sequence of low-stock products.
pub open spec fn low_stock_views(s: Seq<LowStockProduct>) -> Seq<LowStockProductView> {
    s.map_values(|x: LowStockProduct| x@)
}

/// The products come in ascending order of quantity.
pub open spec fn ascending_by_quantity(s: Seq<LowStockProductView>) -> bool {
    forall|i: int, j: int| 0 <= i <= j < s.len() ==> (#[trigger] s[i]).quantity <= (#[trigger] s[j]).quantity
}

/// The kinds of stock movement.
pub const VALID_MOVEMENT_TYPES: [&'static str; 2] = ["in", "out"];

/// The kinds of stock movement, as text.
pub open spec fn movement_types() -> Seq<&'static str> {
    seq!["in", "out"]
}

/// Selects the stock records of the given product.
pub open spec fn stock_of(product_id: Seq<char>) -> spec_fn(StockView) -> bool {
    |s: StockView| s.product_id == product_id
}

/// The views of a sequence of stock records.
pub open spec fn stock_views(s: Seq<Stock>) -> Seq<StockView> {
    s.map_values(|x: Stock| x@)
}

/// The views of a sequence of movements.
pub open spec fn movement_views(s: Seq<StockMovement>) -> Seq<StockMovementView> {
    s.map_values(|x: StockMovement| x@)
}

/// The view of an optional stock record.
pub open spec fn stock_opt_view(o: Option<Stock>) -> Option<StockView> {
    match o {
        Some(s) => Some(s@),
        None => None,
    }
}

/// The quantity in stock of a product: that of its first stock record, 0
/// when it has none.
pub open spec fn quantity_of(stocks: Seq<StockView>, product_id: Seq<char>) -> int {
    match first_match(stocks, stock_of(product_id)) {
        Some(s) => s.quantity as int,
        None => 0,
    }
}

/// `s` is a stock record made from `input` (the storage chooses the id and timestamp).
pub open spec fn stock_made_from(s: StockView, input: CreateStockInput) -> bool {
    &&& s.product_id == input.product_id@
    &&& s.quantity == match input.quantity {
        Some(q) => q,
        None => 0,
    }
    &&& s.min_quantity == match input.min_quantity {
        Some(q) => q,
        None => 0,
    }
    &&& s.location == input.location.deep_view()
}

/// `m` is a movement made from `input` (the storage chooses the id and timestamp).
pub open spec fn movement_made_from(m: StockMovementView, input: CreateStockMovementInput) -> bool {
    &&& m.product_id == input.product_id@
    &&& m.movement_type == input.movement_type@
    &&& m.quantity == input.quantity
    &&& m.reason == input.reason.deep_view()
    &&& m.reference == input.reference.deep_view()
}

/// `after` is `before` with the quantity of the product set to `quantity`:
/// its first record is changed in place, or, when it has none, a record with
/// that quantity, minimum 0 and no location is added.
pub open spec fn quantity_set(
    before: Seq<StockView>,
    after: Seq<StockView>,
    product_id: Seq<char>,
    quantity: i32,
) -> bool {
    if any_match(before, stock_of(product_id)) {
        exists|i: int| {
            &&& is_first_match(before, stock_of(product_id), i)
            &&& after == before.update(
                i,
                StockView { quantity, updated_at: after[i].updated_at, ..before[i] },
            )
        }
    } else {
        exists|z: StockView| {
            &&& z.product_id == product_id
            &&& z.quantity == quantity
            &&& z.min_quantity == 0
            &&& z.location == None::<Seq<char>>
            &&& after == before.push(z)
        }
    }
}

/// `after` is `before` when the product has a stock record; otherwise it is
/// `before` with a record of the product added, with quantity 0, minimum 0
/// and no location.
pub open spec fn record_ensured(before: Seq<StockView>, after: Seq<StockView>, product_id: Seq<char>) -> bool {
    if any_match(before, stock_of(product_id)) {
        after == before
    } else {
        exists|z: StockView| {
            &&& z.product_id == product_id
            &&& z.quantity == 0
            &&& z.min_quantity == 0
            &&& z.location == None::<Seq<char>>
            &&& after == before.push(z)
        }
    }
}

/// Every reported product is below its minimum, with the quantities of
/// one of the stored records of that product.
pub open spec fn low_stock_reported(stocks: Seq<StockView>, report: Seq<LowStockProduct>) -> bool {
    forall|k: int| 0 <= k < report.len() ==> {
        &&& (#[trigger] report[k]).quantity < report[k].min_quantity
        &&& exists|j: int| 0 <= j < stocks.len() && {
            &&& (#[trigger] stocks[j]).product_id == report[k].product_id@
            &&& stocks[j].quantity == report[k].quantity
            &&& stocks[j].min_quantity == report[k].min_quantity
        }
    }
}

/// Message refusing an exit larger than the stock.
pub open spec fn insufficient_stock(available: int, requested: int) -> Seq<char> {
    "Estoque insuficiente. Disponível: "@ + decimal(available) + ", Solicitado: "@ + decimal(requested)
}

/// `Estoque insuficiente. Disponível: {available}, Solicitado: {requested}`.
pub fn insufficient_stock_message(available: i32, requested: i32) -> (r: String)
    ensures
        r@ == insufficient_stock(available as int, requested as int),
{
    let mut m = String::from_str("Estoque insuficiente. Disponível: ");
    let a = i32_to_decimal(available);
    m.append(a.as_str());
    m.append(", Solicitado: ");
    let q = i32_to_decimal(requested);
    m.append(q.as_str());
    m
}

/// Message reporting that a product has no stock record.
pub open spec fn stock_not_found(product_id: Seq<char>) -> Seq<char> {
    "Estoque do produto '"@ + product_id + "' não encontrado"@
}

} // verus!
