//! Products sold by the shop.

use vstd::prelude::*;

use crate::domain::text::enclose;

verus! {

/// A product registered in the shop.
#[derive(Debug)]
pub struct Product {
    pub id: String,
    pub name: String,
    pub description: Option<String>,
    pub sku: String,
    pub brand: Option<String>,
    pub status: String,
    pub created_at: String,
    pub updated_at: String,
}

/// A product as a mathematical value.
pub struct ProductView {
    pub id: Seq<char>,
    pub name: Seq<char>,
    pub description: Option<Seq<char>>,
    pub sku: Seq<char>,
    pub brand: Option<Seq<char>>,
    pub status: Seq<char>,
    pub created_at: Seq<char>,
    pub updated_at: Seq<char>,
}

impl View for Product {
    type V = ProductView;

    open spec fn view(&self) -> ProductView {
        ProductView {
            id: self.id@,
            name: self.name@,
            description: self.description.deep_view(),
            sku: self.sku@,
            brand: self.brand.deep_view(),
            status: self.status@,
            created_at: self.created_at@,
            updated_at: self.updated_at@,
        }
    }
}

impl Clone for Product {
    fn clone(&self) -> (r: Self)
        ensures
            r@ == self@,
    {
        Product {
            id: self.id.clone(),
            name: self.name.clone(),
            description: self.description.clone(),
            sku: self.sku.clone(),
            brand: self.brand.clone(),
            status: self.status.clone(),
            created_at: self.created_at.clone(),
            updated_at: self.updated_at.clone(),
        }
    }
}

/// Data for creating a product.
#[derive(Debug)]
pub struct CreateProductInput {
    pub name: String,
    pub description: Option<String>,
    pub sku: String,
    pub brand: Option<String>,
}

/// Data for updating a product: each field given replaces the stored one.
#[derive(Debug)]
pub struct UpdateProductInput {
    pub name: Option<String>,
    pub description: Option<String>,
    pub brand: Option<String>,
}

/// The statuses a product may have.
pub const VALID_PRODUCT_STATUSES: [&'static str; 3] = ["available", "unavailable", "discontinued"];

/// The statuses a product may have, as text.
pub open spec fn product_statuses() -> Seq<&'static str> {
    seq!["available", "unavailable", "discontinued"]
}

/// Status given to every new product.
pub open spec fn status_available() -> Seq<char> {
    "available"@
}

/// Selects the products with the given id.
pub open spec fn product_id_is(id: Seq<char>) -> spec_fn(ProductView) -> bool {
    |p: ProductView| p.id == id
}

/// Selects the products with the given SKU.
pub open spec fn product_sku_is(sku: Seq<char>) -> spec_fn(ProductView) -> bool {
    |p: ProductView| p.sku == sku
}

/// The views of a sequence of products.
pub open spec fn product_views(s: Seq<Product>) -> Seq<ProductView> {
    s.map_values(|p: Product| p@)
}

/// The view of an optional product.
pub open spec fn product_opt_view(o: Option<Product>) -> Option<ProductView> {
    match o {
        Some(p) => Some(p@),
        None => None,
    }
}

/// `p` is a product made from `input` (the storage chooses the id and timestamps).
pub open spec fn product_made_from(p: ProductView, input: CreateProductInput) -> bool {
    &&& p.name == input.name@
    &&& p.description == input.description.deep_view()
    &&& p.sku == input.sku@
    &&& p.brand == input.brand.deep_view()
    &&& p.status == status_available()
}

/// A field given in an update replaces the stored one; a field left out keeps it.
pub open spec fn replaced(stored: Seq<char>, given: Option<Seq<char>>) -> Seq<char> {
    match given {
        Some(v) => v,
        None => stored,
    }
}

/// An optional field given in an update replaces the stored one.
pub open spec fn replaced_opt(stored: Option<Seq<char>>, given: Option<Seq<char>>) -> Option<Seq<char>> {
    match given {
        Some(v) => Some(v),
        None => stored,
    }
}

/// `after` is `before` with `input` applied (the storage may renew `updated_at`).
pub open spec fn product_updated(before: ProductView, after: ProductView, input: UpdateProductInput) -> bool {
    &&& after.id == before.id
    &&& after.name == replaced(before.name, input.name.deep_view())
    &&& after.description == replaced_opt(before.description, input.description.deep_view())
    &&& after.sku == before.sku
    &&& after.brand == replaced_opt(before.brand, input.brand.deep_view())
    &&& after.status == before.status
    &&& after.created_at == before.created_at
}

/// `after` is `before` with its status set (the storage may renew `updated_at`).
pub open spec fn product_status_set(before: ProductView, after: ProductView, status: Seq<char>) -> bool {
    &&& after == ProductView { status, updated_at: after.updated_at, ..before }
}

/// Message reporting that no product has the given id.
pub open spec fn product_not_found(id: Seq<char>) -> Seq<char> {
    "Produto com id '"@ + id + "' não encontrado"@
}

/// `Produto com id '{id}' não encontrado`.
pub fn product_not_found_message(id: &str) -> (r: String)
    ensures
        r@ == product_not_found(id@),
{
    enclose("Produto com id '", id, "' não encontrado")
}

} // verus!
