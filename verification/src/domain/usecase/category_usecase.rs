//! Use cases on categories and on the links between products and categories.

use vstd::prelude::*;

use crate::domain::entity::category::{
    Category, CreateCategoryInput, LinkView, UpdateCategoryInput, category_id_is,
    category_made_from, category_not_found, category_not_found_message, category_updated,
    category_views, link_is,
};
use crate::domain::entity::product::{product_id_is, product_not_found, product_not_found_message};
use crate::domain::error::{DomainError, is_not_found};
use crate::domain::lookup::{
    any_match, first_match, is_first_match, lemma_first_match_some_iff, lemma_without_keeps_elements,
    lemma_without_removes, without,
};
use crate::domain::port::category_repository::CategoryRepository;
use crate::domain::port::mocks::MockCategoryRepository;
use crate::domain::port::product_repository::ProductRepository;

verus! {

/// Law: unlinking a product from a category (`unlink_product`) leaves no
/// link between the two and keeps every other stored link, adding none.
pub proof fn law_unlink_removes_exactly_that_link(links: Seq<LinkView>, pair: LinkView)
    ensures
        !without(links, link_is(pair)).contains(pair),
        forall|l: LinkView| links.contains(l) && l != pair ==> #[trigger] without(links, link_is(pair)).contains(l),
        forall|l: LinkView| #[trigger] without(links, link_is(pair)).contains(l) ==> links.contains(l) && l != pair,
{
    let kept = without(links, link_is(pair));
    lemma_without_removes(links, link_is(pair));
    if kept.contains(pair) {
        let i = choose|i: int| 0 <= i < kept.len() && kept[i] == pair;
        assert(link_is(pair)(kept[i]));
        assert(any_match(kept, link_is(pair)));
    }
    assert forall|l: LinkView| links.contains(l) && l != pair implies #[trigger] kept.contains(l) by {
        let i = choose|i: int| 0 <= i < links.len() && links[i] == l;
        links.lemma_filter_contains(|x: LinkView| !link_is(pair)(x), i);
    }
    assert forall|l: LinkView| #[trigger] kept.contains(l) implies links.contains(l) && l != pair by {
        lemma_without_keeps_elements(links, link_is(pair), l);
    }
}

/// Operations on categories; products are looked up to link them.
pub struct CategoryUseCase<C: CategoryRepository, P: ProductRepository> {
    repo: C,
    product_repo: P,
}

impl<C: CategoryRepository, P: ProductRepository> CategoryUseCase<C, P> {
    /// The category storage the use case works on.
    pub closed spec fn repository(&self) -> C {
        self.repo
    }

    /// The product storage the use case consults.
    pub closed spec fn product_repository(&self) -> P {
        self.product_repo
    }

    pub fn new(repo: C, product_repo: P) -> (r: Self)
        ensures
            r.repository() == repo,
            r.product_repository() == product_repo,
    {
        CategoryUseCase { repo, product_repo }
    }

    /// The category storage, for inspection.
    pub fn category_store(&self) -> (r: &C)
        ensures
            *r == self.repository(),
    {
        &self.repo
    }

    /// All stored categories.
    pub fn list(&self) -> (r: Result<Vec<Category>, DomainError>)
        ensures
            self.repository().healthy() ==> r is Ok,
            r matches Ok(v) ==> category_views(v@).to_multiset()
                == self.repository().stored_categories().to_multiset(),
            r matches Ok(v) ==> category_views(v@) == self.repository().listed_categories(),
    {
        self.repo.list()
    }

    /// The category with the given id; `NotFound` when there is none.
    pub fn get(&self, id: &str) -> (r: Result<Category, DomainError>)
        ensures
            r matches Ok(c) ==> Some(c@) == first_match(
                self.repository().stored_categories(),
                category_id_is(id@),
            ),
            !any_match(self.repository().stored_categories(), category_id_is(id@)) ==> r is Err,
            self.repository().healthy() ==> {
                &&& any_match(self.repository().stored_categories(), category_id_is(id@)) ==> r is Ok
                &&& !any_match(self.repository().stored_categories(), category_id_is(id@))
                    ==> is_not_found(r, category_not_found(id@))
            },
    {
        proof {
            lemma_first_match_some_iff(self.repo.stored_categories(), category_id_is(id@));
        }
        match self.repo.find_by_id(id)? {
            Some(c) => Ok(c),
            None => Err(DomainError::NotFound(category_not_found_message(id))),
        }
    }

    /// Stores a new category.
    pub fn create(&mut self, input: CreateCategoryInput) -> (r: Result<Category, DomainError>)
        ensures
            old(self).repository().healthy() ==> r is Ok,
            r matches Ok(c) ==> {
                &&& category_made_from(c@, input)
                &&& final(self).repository().stored_categories()
                    == old(self).repository().stored_categories().push(c@)
                &&& final(self).repository().stored_links() == old(self).repository().stored_links()
            },
            final(self).product_repository() == old(self).product_repository(),
    {
        self.repo.create(&input)
    }

    /// Applies `input` to the category with the given id; `NotFound` when there is none.
    pub fn update(&mut self, id: &str, input: UpdateCategoryInput) -> (r: Result<Category, DomainError>)
        ensures
            !any_match(old(self).repository().stored_categories(), category_id_is(id@)) ==> {
                &&& r is Err
                &&& final(self).repository() == old(self).repository()
            },
            old(self).repository().healthy() ==> {
                &&& any_match(old(self).repository().stored_categories(), category_id_is(id@)) ==> r is Ok
                &&& !any_match(old(self).repository().stored_categories(), category_id_is(id@))
                    ==> is_not_found(r, category_not_found(id@))
            },
            r matches Ok(c) ==> exists|i: int| {
                &&& is_first_match(old(self).repository().stored_categories(), category_id_is(id@), i)
                &&& category_updated(old(self).repository().stored_categories()[i], c@, input)
                &&& final(self).repository().stored_categories()
                    == old(self).repository().stored_categories().update(i, c@)
            },
            final(self).product_repository() == old(self).product_repository(),
    {
        proof {
            lemma_first_match_some_iff(self.repo.stored_categories(), category_id_is(id@));
        }
        match self.repo.find_by_id(id)? {
            Some(_) => {},
            None => {
                return Err(DomainError::NotFound(category_not_found_message(id)));
            },
        }
        self.repo.update(id, &input)
    }

    /// Removes the category with the given id.
    pub fn delete(&mut self, id: &str) -> (r: Result<(), DomainError>)
        ensures
            old(self).repository().healthy()
                && any_match(old(self).repository().stored_categories(), category_id_is(id@)) ==> r is Ok,
            !any_match(old(self).repository().stored_categories(), category_id_is(id@)) ==> r is Err,
            old(self).repository().healthy() && !any_match(old(self).repository().stored_categories(), category_id_is(id@))
                ==> is_not_found(r, category_not_found(id@)),
            r is Ok ==> final(self).repository().stored_categories()
                == without(old(self).repository().stored_categories(), category_id_is(id@)),
            final(self).product_repository() == old(self).product_repository(),
    {
        self.repo.delete(id)
    }

    /// Links a product to a category; both must exist (`NotFound` otherwise,
    /// the product being checked first).
    pub fn link_product(&mut self, product_id: &str, category_id: &str) -> (r: Result<(), DomainError>)
        ensures
            !any_match(old(self).product_repository().stored_products(), product_id_is(product_id@))
                || !any_match(old(self).repository().stored_categories(), category_id_is(category_id@))
                ==> {
                &&& r is Err
                &&& final(self).repository() == old(self).repository()
            },
            old(self).product_repository().healthy()
                && !any_match(old(self).product_repository().stored_products(), product_id_is(product_id@))
                ==> is_not_found(r, product_not_found(product_id@)),
            old(self).product_repository().healthy() && old(self).repository().healthy() ==> {
                &&& any_match(old(self).product_repository().stored_products(), product_id_is(product_id@))
                    && !any_match(old(self).repository().stored_categories(), category_id_is(category_id@))
                    ==> is_not_found(r, category_not_found(category_id@))
                &&& any_match(old(self).product_repository().stored_products(), product_id_is(product_id@))
                    && any_match(old(self).repository().stored_categories(), category_id_is(category_id@))
                    ==> r is Ok
            },
            r is Ok ==> {
                &&& final(self).repository().stored_links().contains((product_id@, category_id@))
                &&& forall|l: LinkView| old(self).repository().stored_links().contains(l)
                    ==> final(self).repository().stored_links().contains(l)
                &&& forall|l: LinkView| #[trigger] final(self).repository().stored_links().contains(l)
                    ==> l == (product_id@, category_id@) || old(self).repository().stored_links().contains(l)
                &&& final(self).repository().stored_categories() == old(self).repository().stored_categories()
            },
            final(self).product_repository() == old(self).product_repository(),
    {
        if !self.product_repo.exists_by_id(product_id)? {
            return Err(DomainError::NotFound(product_not_found_message(product_id)));
        }
        if !self.repo.exists_by_id(category_id)? {
            return Err(DomainError::NotFound(category_not_found_message(category_id)));
        }
        self.repo.link_product(product_id, category_id)
    }

    /// Removes the link between a product and a category, if stored.
    pub fn unlink_product(&mut self, product_id: &str, category_id: &str) -> (r: Result<(), DomainError>)
        ensures
            old(self).repository().healthy() ==> r is Ok,
            r is Ok ==> {
                &&& final(self).repository().stored_links()
                    == without(old(self).repository().stored_links(), link_is((product_id@, category_id@)))
                &&& final(self).repository().stored_categories() == old(self).repository().stored_categories()
            },
            final(self).product_repository() == old(self).product_repository(),
    {
        self.repo.unlink_product(product_id, category_id)
    }
}

/// Law: `list` gives the categories exactly as the storage lists them: as
/// many, and each at its place, so none is left out, added or moved.
pub proof fn law_list_keeps_the_storage_order<C: CategoryRepository, P: ProductRepository>(
    uc: CategoryUseCase<C, P>,
    r: Result<Vec<Category>, DomainError>,
    i: int,
)
    requires
        call_ensures(CategoryUseCase::<C, P>::list, (&uc,), r),
    ensures
        r matches Ok(v) ==> v@.len() == uc.repository().listed_categories().len(),
        r matches Ok(v) ==> (0 <= i < v@.len() ==> v@[i]@ == uc.repository().listed_categories()[i]),
{
    if r is Ok {
        let v = r->Ok_0;
        assert(category_views(v@).len() == v@.len());
        if 0 <= i < v@.len() {
            assert(category_views(v@)[i] == v@[i]@);
        }
    }
}

/// Law: with the in-memory storage, `list` gives the categories in the order
/// they are stored (creation order), each at its place.
pub proof fn law_in_memory_list_is_the_stored_order<P: ProductRepository>(
    uc: CategoryUseCase<MockCategoryRepository, P>,
    r: Result<Vec<Category>, DomainError>,
)
    requires
        call_ensures(CategoryUseCase::<MockCategoryRepository, P>::list, (&uc,), r),
    ensures
        r matches Ok(v) ==> category_views(v@) == uc.repository().stored_categories(),
{
}

} // verus!
