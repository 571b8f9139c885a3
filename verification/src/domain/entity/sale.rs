//! Sales of products.
//!
//! The unit and total prices of a sale are money amounts that no rule reads:
//! their type is the parameter `A` (the application uses `f64`).

use vstd::prelude::*;

verus! {

/// A recorded sale, with prices of type `A`.
#[derive(Debug)]
pub struct Sale<A> {
    pub id: String,
    pub product_id: String,
    pub quantity: i32,
    pub unit_price: A,
    pub total_price: A,
    pub sale_date: String,
    pub customer_name: Option<String>,
    pub created_at: String,
}

/// A sale as a mathematical value.
pub struct SaleView<A> {
    pub id: Seq<char>,
    pub product_id: Seq<char>,
    pub quantity: i32,
    pub unit_price: A,
    pub total_price: A,
    pub sale_date: Seq<char>,
    pub customer_name: Option<Seq<char>>,
    pub created_at: Seq<char>,
}

impl<A> View for Sale<A> {
    type V = SaleView<A>;

    open spec fn view(&self) -> SaleView<A> {
        SaleView {
            id: self.id@,
            product_id: self.product_id@,
            quantity: self.quantity,
            unit_price: self.unit_price,
            total_price: self.total_price,
            sale_date: self.sale_date@,
            customer_name: self.customer_name.deep_view(),
            created_at: self.created_at@,
        }
    }
}

impl<A: Copy> Clone for Sale<A> {
    fn clone(&self) -> (r: Self)
        ensures
            r@ == self@,
    {
        Sale {
            id: self.id.clone(),
            product_id: self.product_id.clone(),
            quantity: self.quantity,
            unit_price: self.unit_price,
            total_price: self.total_price,
            sale_date: self.sale_date.clone(),
            customer_name: self.customer_name.clone(),
            created_at: self.created_at.clone(),
        }
    }
}

/// Data for recording a sale.
#[derive(Debug)]
pub struct CreateSaleInput<A> {
    pub product_id: String,
    pub quantity: i32,
    pub unit_price: A,
    pub customer_name: Option<String>,
}

/// The views of a sequence of sales.
pub open spec fn sale_views<A>(s: Seq<Sale<A>>) -> Seq<SaleView<A>> {
    s.map_values(|x: Sale<A>| x@)
}

/// `s` is a sale recorded from `input` with the given total price (the
/// storage chooses the id and dates).
pub open spec fn sale_made_from<A>(s: SaleView<A>, input: CreateSaleInput<A>, total_price: A) -> bool {
    &&& s.product_id == input.product_id@
    &&& s.quantity == input.quantity
    &&& s.unit_price == input.unit_price
    &&& s.total_price == total_price
    &&& s.customer_name == input.customer_name.deep_view()
}

} // verus!
