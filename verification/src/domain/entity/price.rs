//! Prices of products (a history of prices for each product).
//!
//! Cost and sale prices are money amounts that the rules compare with zero
//! but never compute with: their type is the parameter `A` (the application
//! uses `f64`), and the comparisons are worked out by the caller.

use vstd::prelude::*;

use crate::domain::lookup::without;
use crate::domain::text::enclose;

verus! {

/// A price of a product, with amounts of type `A`.
#[derive(Debug)]
pub struct Price<A> {
    pub id: String,
    pub product_id: String,
    pub cost_price: A,
    pub sale_price: A,
    pub effective_date: String,
    pub created_at: String,
}

/// A price as a mathematical value.
pub struct PriceView<A> {
    pub id: Seq<char>,
    pub product_id: Seq<char>,
    pub cost_price: A,
    pub sale_price: A,
    pub effective_date: Seq<char>,
    pub created_at: Seq<char>,
}

impl<A> View for Price<A> {
    type V = PriceView<A>;

    open spec fn view(&self) -> PriceView<A> {
        PriceView {
            id: self.id@,
            product_id: self.product_id@,
            cost_price: self.cost_price,
            sale_price: self.sale_price,
            effective_date: self.effective_date@,
            created_at: self.created_at@,
        }
    }
}

impl<A: Copy> Clone for Price<A> {
    fn clone(&self) -> (r: Self)
        ensures
            r@ == self@,
    {
        Price {
            id: self.id.clone(),
            product_id: self.product_id.clone(),
            cost_price: self.cost_price,
            sale_price: self.sale_price,
            effective_date: self.effective_date.clone(),
            created_at: self.created_at.clone(),
        }
    }
}

/// Data for setting a new price of a product.
#[derive(Debug)]
pub struct CreatePriceInput<A> {
    pub cost_price: A,
    pub sale_price: A,
    pub effective_date: String,
}

/// Data for changing a price; fields left out keep their value.
#[derive(Debug)]
pub struct UpdatePriceInput<A> {
    pub cost_price: Option<A>,
    pub sale_price: Option<A>,
    pub effective_date: Option<String>,
}

/// Selects the prices with the given id.
pub open spec fn price_id_is<A>(id: Seq<char>) -> spec_fn(PriceView<A>) -> bool {
    |p: PriceView<A>| p.id == id
}

/// Selects the prices of products other than the given one.
pub open spec fn price_of_other_product<A>(product_id: Seq<char>) -> spec_fn(PriceView<A>) -> bool {
    |p: PriceView<A>| p.product_id != product_id
}

/// The prices of the product among `s`, in their order.
pub open spec fn prices_of<A>(s: Seq<PriceView<A>>, product_id: Seq<char>) -> Seq<PriceView<A>> {
    without(s, price_of_other_product(product_id))
}

/// The views of a sequence of prices.
pub open spec fn price_views<A>(s: Seq<Price<A>>) -> Seq<PriceView<A>> {
    s.map_values(|p: Price<A>| p@)
}

/// The view of an optional price.
pub open spec fn price_opt_view<A>(o: Option<Price<A>>) -> Option<PriceView<A>> {
    match o {
        Some(p) => Some(p@),
        None => None,
    }
}

/// `p` is a price of the product set from `input` (the storage chooses the
/// id and timestamp).
pub open spec fn price_made_from<A>(p: PriceView<A>, product_id: Seq<char>, input: CreatePriceInput<A>) -> bool {
    &&& p.product_id == product_id
    &&& p.cost_price == input.cost_price
    &&& p.sale_price == input.sale_price
    &&& p.effective_date == input.effective_date@
}

/// A field given in an update replaces the stored one; a field left out keeps it.
pub open spec fn replaced_amount<A>(stored: A, given: Option<A>) -> A {
    match given {
        Some(v) => v,
        None => stored,
    }
}

/// `after` is `before` with `input` applied.
pub open spec fn price_updated<A>(before: PriceView<A>, after: PriceView<A>, input: UpdatePriceInput<A>) -> bool {
    after == PriceView {
        cost_price: replaced_amount(before.cost_price, input.cost_price),
        sale_price: replaced_amount(before.sale_price, input.sale_price),
        effective_date: match input.effective_date {
            Some(d) => d@,
            None => before.effective_date,
        },
        ..before
    }
}

/// Message reporting that no price has the given id.
pub open spec fn price_not_found(id: Seq<char>) -> Seq<char> {
    "Preço com id '"@ + id + "' não encontrado"@
}

/// `Preço com id '{id}' não encontrado`.
pub fn price_not_found_message(id: &str) -> (r: String)
    ensures
        r@ == price_not_found(id@),
{
    enclose("Preço com id '", id, "' não encontrado")
}

} // verus!
