//! Port through which the use cases reach stored categories and the links
//! between products and categories.

use vstd::prelude::*;

use crate::domain::entity::category::{
    Category, CategoryView, CreateCategoryInput, LinkView, UpdateCategoryInput, category_id_is,
    category_made_from, category_opt_view, category_updated, category_views, link_is, category_not_found,
};
use crate::domain::error::{DomainError, is_not_found};
use crate::domain::lookup::{any_match, first_match, is_first_match, without};

verus! {

/// Storage of categories and of product-category links.
///
/// Categories are seen as a sequence in storage order, links as a sequence of
/// (product id, category id) pairs. An operation may always fail; when the
/// storage is `healthy` it does not fail for reasons of its own.
pub trait CategoryRepository {
    /// The stored categories, in storage order (unspecified where the implementation does not say).
    open spec fn stored_categories(&self) -> Seq<CategoryView> {
        vstd::pervasive::arbitrary()
    }

    /// The stored links, as (product id, category id) (unspecified where the implementation does not say).
    open spec fn stored_links(&self) -> Seq<LinkView> {
        vstd::pervasive::arbitrary()
    }

    /// The storage answers every request (not assumed of a storage that does not say so).
    open spec fn healthy(&self) -> bool {
        false
    }

    /// The stored categories in the order the storage lists them (unspecified where the implementation does not say).
    open spec fn listed_categories(&self) -> Seq<CategoryView> {
        vstd::pervasive::arbitrary()
    }

    /// All stored categories, in the order the storage lists them (`listed_categories`).
    fn list(&self) -> (r: Result<Vec<Category>, DomainError>)
        ensures
            self.healthy() ==> r is Ok,
            r matches Ok(v) ==> category_views(v@).to_multiset() == self.stored_categories().to_multiset(),
            r matches Ok(v) ==> category_views(v@) == self.listed_categories(),
    ;

    /// The first stored category with the given id.
    fn find_by_id(&self, id: &str) -> (r: Result<Option<Category>, DomainError>)
        ensures
            self.healthy() ==> r is Ok,
            r matches Ok(o) ==> category_opt_view(o) == first_match(self.stored_categories(), category_id_is(id@)),
    ;

    /// Stores a new category made from `input`.
    fn create(&mut self, input: &CreateCategoryInput) -> (r: Result<Category, DomainError>)
        ensures
            old(self).healthy() ==> r is Ok,
            r matches Ok(c) ==> {
                &&& category_made_from(c@, *input)
                &&& final(self).stored_categories() == old(self).stored_categories().push(c@)
                &&& final(self).stored_links() == old(self).stored_links()
                &&& final(self).healthy() == old(self).healthy()
            },
    ;

    /// Applies `input` to the first stored category with the given id.
    fn update(&mut self, id: &str, input: &UpdateCategoryInput) -> (r: Result<Category, DomainError>)
        ensures
            old(self).healthy() && any_match(old(self).stored_categories(), category_id_is(id@)) ==> r is Ok,
            !any_match(old(self).stored_categories(), category_id_is(id@)) ==> r is Err,
            r matches Ok(c) ==> exists|i: int| {
                &&& is_first_match(old(self).stored_categories(), category_id_is(id@), i)
                &&& category_updated(old(self).stored_categories()[i], c@, *input)
                &&& final(self).stored_categories() == old(self).stored_categories().update(i, c@)
            },
            r is Ok ==> final(self).stored_links() == old(self).stored_links(),
            r is Ok ==> final(self).healthy() == old(self).healthy(),
    ;

    /// Removes every stored category with the given id; fails when there is none.
    fn delete(&mut self, id: &str) -> (r: Result<(), DomainError>)
        ensures
            old(self).healthy() && any_match(old(self).stored_categories(), category_id_is(id@)) ==> r is Ok,
            !any_match(old(self).stored_categories(), category_id_is(id@)) ==> r is Err,
            old(self).healthy() && !any_match(old(self).stored_categories(), category_id_is(id@)) ==> is_not_found(r, category_not_found(id@)),
            r is Ok ==> final(self).stored_categories() == without(old(self).stored_categories(), category_id_is(id@)),
            r is Ok ==> final(self).stored_links() == old(self).stored_links(),
            r is Ok ==> final(self).healthy() == old(self).healthy(),
    ;

    /// Whether a category with the given id is stored.
    fn exists_by_id(&self, id: &str) -> (r: Result<bool, DomainError>)
        ensures
            self.healthy() ==> r is Ok,
            r matches Ok(b) ==> b == any_match(self.stored_categories(), category_id_is(id@)),
    ;

    /// Links a product to a category: afterwards the link is stored, and no
    /// other link was added or removed.
    fn link_product(&mut self, product_id: &str, category_id: &str) -> (r: Result<(), DomainError>)
        ensures
            old(self).healthy() ==> r is Ok,
            r is Ok ==> {
                &&& final(self).stored_links().contains((product_id@, category_id@))
                &&& forall|l: LinkView| old(self).stored_links().contains(l) ==> final(self).stored_links().contains(l)
                &&& forall|l: LinkView| #[trigger] final(self).stored_links().contains(l)
                    ==> l == (product_id@, category_id@) || old(self).stored_links().contains(l)
                &&& final(self).stored_categories() == old(self).stored_categories()
                &&& final(self).healthy() == old(self).healthy()
            },
    ;

    /// Removes the link between a product and a category, if stored.
    fn unlink_product(&mut self, product_id: &str, category_id: &str) -> (r: Result<(), DomainError>)
        ensures
            old(self).healthy() ==> r is Ok,
            r is Ok ==> {
                &&& final(self).stored_links() == without(old(self).stored_links(), link_is((product_id@, category_id@)))
                &&& final(self).stored_categories() == old(self).stored_categories()
                &&& final(self).healthy() == old(self).healthy()
            },
    ;
}

} // verus!
