//! Returns of products.
//!
//! A return may carry a refund, a money amount that no rule reads: its type
//! is the parameter `A` (the application uses `f64`).

use vstd::prelude::*;

use crate::domain::text::enclose;

verus! {

/// Return of a product, with its refund of type `A`.
#[derive(Debug)]
pub struct Return<A> {
    pub id: String,
    pub product_id: String,
    pub warranty_id: Option<String>,
    pub reason: String,
    pub status: String,
    pub refund_amount: Option<A>,
    pub created_at: String,
    pub updated_at: String,
}

/// A return as a mathematical value.
pub struct ReturnView<A> {
    pub id: Seq<char>,
    pub product_id: Seq<char>,
    pub warranty_id: Option<Seq<char>>,
    pub reason: Seq<char>,
    pub status: Seq<char>,
    pub refund_amount: Option<A>,
    pub created_at: Seq<char>,
    pub updated_at: Seq<char>,
}

impl<A> View for Return<A> {
    type V = ReturnView<A>;

    open spec fn view(&self) -> ReturnView<A> {
        ReturnView {
            id: self.id@,
            product_id: self.product_id@,
            warranty_id: self.warranty_id.deep_view(),
            reason: self.reason@,
            status: self.status@,
            refund_amount: self.refund_amount,
            created_at: self.created_at@,
            updated_at: self.updated_at@,
        }
    }
}

impl<A: Copy> Clone for Return<A> {
    fn clone(&self) -> (r: Self)
        ensures
            r@ == self@,
    {
        Return {
            id: self.id.clone(),
            product_id: self.product_id.clone(),
            warranty_id: self.warranty_id.clone(),
            reason: self.reason.clone(),
            status: self.status.clone(),
            refund_amount: self.refund_amount,
            created_at: self.created_at.clone(),
            updated_at: self.updated_at.clone(),
        }
    }
}

/// Data for opening a return.
#[derive(Debug)]
pub struct CreateReturnInput<A> {
    pub product_id: String,
    pub warranty_id: Option<String>,
    pub reason: String,
    pub refund_amount: Option<A>,
}

/// Data for changing the status of a return (and, when given, its refund).
#[derive(Debug)]
pub struct UpdateReturnStatusInput<A> {
    pub status: String,
    pub refund_amount: Option<A>,
}

/// The statuses a return may have.
pub const VALID_RETURN_STATUSES: [&'static str; 4] = ["requested", "approved", "rejected", "completed"];

/// The statuses a return may have, as text.
pub open spec fn return_statuses() -> Seq<&'static str> {
    seq!["requested", "approved", "rejected", "completed"]
}

/// Selects the returns with the given id.
pub open spec fn return_id_is<A>(id: Seq<char>) -> spec_fn(ReturnView<A>) -> bool {
    |r: ReturnView<A>| r.id == id
}

/// The views of a sequence of returns.
pub open spec fn return_views<A>(s: Seq<Return<A>>) -> Seq<ReturnView<A>> {
    s.map_values(|r: Return<A>| r@)
}

/// The view of an optional return.
pub open spec fn return_opt_view<A>(o: Option<Return<A>>) -> Option<ReturnView<A>> {
    match o {
        Some(r) => Some(r@),
        None => None,
    }
}

/// `r` is a return opened from `input`: "requested", with the given refund
/// (the storage chooses the id and timestamps).
pub open spec fn return_made_from<A>(r: ReturnView<A>, input: CreateReturnInput<A>) -> bool {
    &&& r.product_id == input.product_id@
    &&& r.warranty_id == input.warranty_id.deep_view()
    &&& r.reason == input.reason@
    &&& r.status == "requested"@
    &&& r.refund_amount == input.refund_amount
}

/// `after` is `before` with the status of `input` and, when `input` gives
/// one, its refund (the storage may renew `updated_at`).
pub open spec fn return_status_set<A>(before: ReturnView<A>, after: ReturnView<A>, input: UpdateReturnStatusInput<A>) -> bool {
    after == ReturnView {
        status: input.status@,
        refund_amount: match input.refund_amount {
            Some(a) => Some(a),
            None => before.refund_amount,
        },
        updated_at: after.updated_at,
        ..before
    }
}

/// Message reporting that no return has the given id.
pub open spec fn return_not_found(id: Seq<char>) -> Seq<char> {
    "Devolução com id '"@ + id + "' não encontrada"@
}

/// `Devolução com id '{id}' não encontrada`.
pub fn return_not_found_message(id: &str) -> (r: String)
    ensures
        r@ == return_not_found(id@),
{
    enclose("Devolução com id '", id, "' não encontrada")
}

} // verus!
