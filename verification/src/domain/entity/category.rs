//! Product categories (a category may have a parent category).

use vstd::prelude::*;

use crate::domain::text::enclose;

verus! {

/// A product category; `parent_id` names the parent of a subcategory.
#[derive(Debug)]
pub struct Category {
    pub id: String,
    pub name: String,
    pub description: Option<String>,
    pub parent_id: Option<String>,
    pub created_at: String,
    pub updated_at: String,
}

/// A category as a mathematical value.
pub struct CategoryView {
    pub id: Seq<char>,
    pub name: Seq<char>,
    pub description: Option<Seq<char>>,
    pub parent_id: Option<Seq<char>>,
    pub created_at: Seq<char>,
    pub updated_at: Seq<char>,
}

impl View for Category {
    type V = CategoryView;

    open spec fn view(&self) -> CategoryView {
        CategoryView {
            id: self.id@,
            name: self.name@,
            description: self.description.deep_view(),
            parent_id: self.parent_id.deep_view(),
            created_at: self.created_at@,
            updated_at: self.updated_at@,
        }
    }
}

impl Clone for Category {
    fn clone(&self) -> (r: Self)
        ensures
            r@ == self@,
    {
        Category {
            id: self.id.clone(),
            name: self.name.clone(),
            description: self.description.clone(),
            parent_id: self.parent_id.clone(),
            created_at: self.created_at.clone(),
            updated_at: self.updated_at.clone(),
        }
    }
}

/// Data for creating a category.
#[derive(Debug)]
pub struct CreateCategoryInput {
    pub name: String,
    pub description: Option<String>,
    pub parent_id: Option<String>,
}

/// Data for updating a category: each field given replaces the stored one.
#[derive(Debug)]
pub struct UpdateCategoryInput {
    pub name: Option<String>,
    pub description: Option<String>,
    pub parent_id: Option<String>,
}

/// A link between a product (first) and a category (second).
pub type LinkView = (Seq<char>, Seq<char>);

/// Selects the categories with the given id.
pub open spec fn category_id_is(id: Seq<char>) -> spec_fn(CategoryView) -> bool {
    |c: CategoryView| c.id == id
}

/// Selects the given link.
pub open spec fn link_is(link: LinkView) -> spec_fn(LinkView) -> bool {
    |l: LinkView| l == link
}

/// The views of a sequence of categories.
pub open spec fn category_views(s: Seq<Category>) -> Seq<CategoryView> {
    s.map_values(|c: Category| c@)
}

/// The view of an optional category.
pub open spec fn category_opt_view(o: Option<Category>) -> Option<CategoryView> {
    match o {
        Some(c) => Some(c@),
        None => None,
    }
}

/// `c` is a category made from `input` (the storage chooses the id and timestamps).
pub open spec fn category_made_from(c: CategoryView, input: CreateCategoryInput) -> bool {
    &&& c.name == input.name@
    &&& c.description == input.description.deep_view()
    &&& c.parent_id == input.parent_id.deep_view()
}

/// `after` is `before` with `input` applied: a given field replaces the stored
/// one (the storage may renew `updated_at`).
pub open spec fn category_updated(before: CategoryView, after: CategoryView, input: UpdateCategoryInput) -> bool {
    &&& after.id == before.id
    &&& after.name == match input.name.deep_view() {
        Some(v) => v,
        None => before.name,
    }
    &&& after.description == match input.description.deep_view() {
        Some(v) => Some(v),
        None => before.description,
    }
    &&& after.parent_id == match input.parent_id.deep_view() {
        Some(v) => Some(v),
        None => before.parent_id,
    }
    &&& after.created_at == before.created_at
}

/// Message reporting that no category has the given id.
pub open spec fn category_not_found(id: Seq<char>) -> Seq<char> {
    "Categoria com id '"@ + id + "' não encontrada"@
}

/// `Categoria com id '{id}' não encontrada`.
pub fn category_not_found_message(id: &str) -> (r: String)
    ensures
        r@ == category_not_found(id@),
{
    enclose("Categoria com id '", id, "' não encontrada")
}

} // verus!
