//! Warranties of sold products.

use vstd::prelude::*;

use crate::domain::text::enclose;

verus! {

/// Warranty of a sold product.
#[derive(Debug)]
pub struct Warranty {
    pub id: String,
    pub product_id: String,
    pub customer_name: String,
    pub customer_contact: Option<String>,
    pub purchase_date: String,
    pub warranty_days: i32,
    pub expires_at: String,
    pub status: String,
    pub notes: Option<String>,
    pub created_at: String,
    pub updated_at: String,
}

/// A warranty as a mathematical value.
pub struct WarrantyView {
    pub id: Seq<char>,
    pub product_id: Seq<char>,
    pub customer_name: Seq<char>,
    pub customer_contact: Option<Seq<char>>,
    pub purchase_date: Seq<char>,
    pub warranty_days: i32,
    pub expires_at: Seq<char>,
    pub status: Seq<char>,
    pub notes: Option<Seq<char>>,
    pub created_at: Seq<char>,
    pub updated_at: Seq<char>,
}

impl View for Warranty {
    type V = WarrantyView;

    open spec fn view(&self) -> WarrantyView {
        WarrantyView {
            id: self.id@,
            product_id: self.product_id@,
            customer_name: self.customer_name@,
            customer_contact: self.customer_contact.deep_view(),
            purchase_date: self.purchase_date@,
            warranty_days: self.warranty_days,
            expires_at: self.expires_at@,
            status: self.status@,
            notes: self.notes.deep_view(),
            created_at: self.created_at@,
            updated_at: self.updated_at@,
        }
    }
}

impl Clone for Warranty {
    fn clone(&self) -> (r: Self)
        ensures
            r@ == self@,
    {
        Warranty {
            id: self.id.clone(),
            product_id: self.product_id.clone(),
            customer_name: self.customer_name.clone(),
            customer_contact: self.customer_contact.clone(),
            purchase_date: self.purchase_date.clone(),
            warranty_days: self.warranty_days,
            expires_at: self.expires_at.clone(),
            status: self.status.clone(),
            notes: self.notes.clone(),
            created_at: self.created_at.clone(),
            updated_at: self.updated_at.clone(),
        }
    }
}

/// Data for registering a warranty.
#[derive(Debug)]
pub struct CreateWarrantyInput {
    pub product_id: String,
    pub customer_name: String,
    pub customer_contact: Option<String>,
    pub purchase_date: String,
    pub warranty_days: i32,
    pub notes: Option<String>,
}

/// The statuses a warranty may have.
pub const VALID_WARRANTY_STATUSES: [&'static str; 3] = ["active", "expired", "claimed"];

/// The statuses a warranty may have, as text.
pub open spec fn warranty_statuses() -> Seq<&'static str> {
    seq!["active", "expired", "claimed"]
}

/// Selects the warranties with the given id.
pub open spec fn warranty_id_is(id: Seq<char>) -> spec_fn(WarrantyView) -> bool {
    |w: WarrantyView| w.id == id
}

/// The views of a sequence of warranties.
pub open spec fn warranty_views(s: Seq<Warranty>) -> Seq<WarrantyView> {
    s.map_values(|w: Warranty| w@)
}

/// The view of an optional warranty.
pub open spec fn warranty_opt_view(o: Option<Warranty>) -> Option<WarrantyView> {
    match o {
        Some(w) => Some(w@),
        None => None,
    }
}

/// `w` is an active warranty made from `input`, expiring at `expires_at`
/// (the storage chooses the id and timestamps).
pub open spec fn warranty_made_from(w: WarrantyView, input: CreateWarrantyInput, expires_at: Seq<char>) -> bool {
    &&& w.product_id == input.product_id@
    &&& w.customer_name == input.customer_name@
    &&& w.customer_contact == input.customer_contact.deep_view()
    &&& w.purchase_date == input.purchase_date@
    &&& w.warranty_days == input.warranty_days
    &&& w.expires_at == expires_at
    &&& w.status == "active"@
    &&& w.notes == input.notes.deep_view()
}

/// `after` is `before` with its status set (the storage may renew `updated_at`).
pub open spec fn warranty_status_set(before: WarrantyView, after: WarrantyView, status: Seq<char>) -> bool {
    after == WarrantyView { status, updated_at: after.updated_at, ..before }
}

/// Message reporting that no warranty has the given id.
pub open spec fn warranty_not_found(id: Seq<char>) -> Seq<char> {
    "Garantia com id '"@ + id + "' não encontrada"@
}

/// `Garantia com id '{id}' não encontrada`.
pub fn warranty_not_found_message(id: &str) -> (r: String)
    ensures
        r@ == warranty_not_found(id@),
{
    enclose("Garantia com id '", id, "' não encontrada")
}

} // verus!
