//! In-memory adapters of the ports, used to exercise the use cases.
//!
//! Each one keeps its records in a `Vec` in insertion order and answers every
//! request from it; the product storage can be told to fail every request.

use vstd::prelude::*;

use crate::domain::entity::product::{
    CreateProductInput, Product, ProductView, UpdateProductInput, product_id_is,
    product_made_from, product_opt_view, product_sku_is, product_status_set, product_updated,
    product_views, product_not_found, product_not_found_message,
};
use crate::domain::error::{DomainError, is_internal, is_not_found};
use crate::domain::lookup::{
    any_match, first_match, is_first_match, lemma_first_match_at, lemma_no_match,
    lemma_without_len, lemma_without_push, without,
};
use crate::domain::port::product_repository::ProductRepository;
use crate::domain::entity::report::{
    ReportFilter, ReturnReportItem, ReturnReportItemView, SalesReportItem, SalesReportItemView,
    StockReportItem, StockReportItemView, return_item_views, sales_item_views, stock_item_views,
};
use crate::domain::port::report_repository::ReportRepository;
use crate::domain::entity::category::{
    Category, CategoryView, CreateCategoryInput, LinkView, UpdateCategoryInput, category_id_is,
    category_made_from, category_not_found, category_not_found_message, category_opt_view,
    category_updated, category_views, link_is,
};
use crate::domain::port::category_repository::CategoryRepository;
use crate::domain::entity::stock::{
    CreateStockInput, CreateStockMovementInput, LowStockProduct, LowStockProductView, Stock, StockMovement,
    StockMovementView, StockView, insufficient_stock, insufficient_stock_message,
    low_stock_views, movement_made_from, movement_views, quantity_of, quantity_set, stock_made_from, stock_of,
    stock_opt_view, stock_views,
};
use crate::domain::error::is_bad_request;
use crate::domain::port::stock_repository::StockRepository;
use crate::domain::port::unit_of_work::{CommittedView, UnitOfWork, UnitOfWorkFactory};
use crate::domain::entity::warranty::{
    CreateWarrantyInput, Warranty, WarrantyView, warranty_id_is, warranty_made_from,
    warranty_not_found, warranty_not_found_message, warranty_opt_view, warranty_status_set,
    warranty_views,
};
use crate::domain::port::warranty_repository::WarrantyRepository;
use crate::domain::entity::return_model::{
    CreateReturnInput, Return, ReturnView, UpdateReturnStatusInput, return_id_is, return_not_found,
    return_not_found_message, return_views,
};
use crate::domain::port::return_repository::ReturnRepository;
use crate::domain::entity::sale::{CreateSaleInput, Sale, SaleView, sale_views};
use crate::domain::port::sale_repository::SaleRepository;
use crate::domain::entity::price::{
    CreatePriceInput, Price, PriceView, UpdatePriceInput, price_id_is, price_not_found, price_not_found_message,
    price_of_other_product, price_updated, price_views, prices_of,
};
use crate::domain::port::price_repository::PriceRepository;

verus! {

/// Timestamp given to every record the in-memory adapters create.
pub open spec fn mock_timestamp() -> Seq<char> {
    "2026-01-01 00:00:00"@
}

/// Message of the failures the in-memory product storage simulates.
pub open spec fn simulated_failure() -> Seq<char> {
    "Erro simulado"@
}

/// Position of the first product with the given id.
fn position_of_product_id(products: &Vec<Product>, id: &str) -> (r: Option<usize>)
    ensures
        r matches Some(i) ==> is_first_match(product_views(products@), product_id_is(id@), i as int),
        r is None ==> forall|j: int|
            0 <= j < products@.len() ==> !product_id_is(id@)(#[trigger] product_views(products@)[j]),
{
    let key = id.to_owned();
    let mut i: usize = 0;
    while i < products.len()
        invariant
            i <= products@.len(),
            key@ == id@,
            forall|j: int| 0 <= j < i ==> !product_id_is(id@)(#[trigger] product_views(products@)[j]),
        decreases products@.len() - i,
    {
        if products[i].id == key {
            return Some(i);
        }
        i = i + 1;
    }
    None
}

/// Position of the first product with the given SKU.
fn position_of_product_sku(products: &Vec<Product>, sku: &str) -> (r: Option<usize>)
    ensures
        r matches Some(i) ==> is_first_match(product_views(products@), product_sku_is(sku@), i as int),
        r is None ==> forall|j: int|
            0 <= j < products@.len() ==> !product_sku_is(sku@)(#[trigger] product_views(products@)[j]),
{
    let key = sku.to_owned();
    let mut i: usize = 0;
    while i < products.len()
        invariant
            i <= products@.len(),
            key@ == sku@,
            forall|j: int| 0 <= j < i ==> !product_sku_is(sku@)(#[trigger] product_views(products@)[j]),
        decreases products@.len() - i,
    {
        if products[i].sku == key {
            return Some(i);
        }
        i = i + 1;
    }
    None
}

/// Copy of a sequence of products.
fn clone_products(products: &Vec<Product>) -> (r: Vec<Product>)
    ensures
        product_views(r@) == product_views(products@),
{
    let mut out: Vec<Product> = Vec::new();
    let mut i: usize = 0;
    while i < products.len()
        invariant
            i <= products@.len(),
            product_views(out@) =~= product_views(products@).take(i as int),
        decreases products@.len() - i,
    {
        let ghost before = out@;
        out.push(products[i].clone());
        proof {
            assert(product_views(out@) =~= product_views(before).push(products@[i as int]@));
            assert(product_views(products@).take(i + 1) =~= product_views(products@).take(
                i as int,
            ).push(products@[i as int]@));
        }
        i = i + 1;
    }
    proof {
        assert(product_views(products@).take(products@.len() as int) =~= product_views(products@));
    }
    out
}

// ============================================================
// Mock Product Repository
// ============================================================

/// In-memory product storage that can be told to fail.
pub struct MockProductRepository {
    pub products: Vec<Product>,
    pub should_error: bool,
}

impl MockProductRepository {
    /// An empty storage that answers every request.
    pub fn new() -> (r: Self)
        ensures
            r.stored_products() == Seq::<ProductView>::empty(),
            r.healthy(),
    {
        MockProductRepository { products: Vec::new(), should_error: false }
    }

    /// Replaces the stored products.
    pub fn with_products(&mut self, products: Vec<Product>)
        ensures
            final(self).stored_products() == product_views(products@),
            final(self).should_error == old(self).should_error,
    {
        self.products = products;
    }

    /// Makes every later request fail (`true`) or succeed (`false`).
    pub fn set_should_error(&mut self, val: bool)
        ensures
            final(self).stored_products() == old(self).stored_products(),
            final(self).should_error == val,
    {
        self.should_error = val;
    }

    /// The simulated failure, when failures are switched on.
    fn check_error(&self) -> (r: Result<(), DomainError>)
        ensures
            self.should_error ==> is_internal(r, simulated_failure()),
            !self.should_error ==> r is Ok,
    {
        if self.should_error {
            Err(DomainError::Internal(String::from_str("Erro simulado")))
        } else {
            Ok(())
        }
    }
}

impl ProductRepository for MockProductRepository {
    /// The products are listed in the order they are stored.
    open spec fn listed_products(&self) -> Seq<ProductView> {
        self.stored_products()
    }

    open spec fn stored_products(&self) -> Seq<ProductView> {
        product_views(self.products@)
    }

    open spec fn healthy(&self) -> bool {
        !self.should_error
    }

    fn list(&self) -> (r: Result<Vec<Product>, DomainError>)
        ensures
            self.should_error ==> is_internal(r, simulated_failure()),
            r matches Ok(v) ==> product_views(v@) == self.stored_products(),
    {
        self.check_error()?;
        Ok(clone_products(&self.products))
    }

    fn find_by_id(&self, id: &str) -> (r: Result<Option<Product>, DomainError>)
        ensures
            self.should_error ==> is_internal(r, simulated_failure()),
    {
        self.check_error()?;
        match position_of_product_id(&self.products, id) {
            Some(i) => {
                proof {
                    lemma_first_match_at(self.stored_products(), product_id_is(id@), i as int);
                }
                Ok(Some(self.products[i].clone()))
            },
            None => {
                proof {
                    lemma_no_match(self.stored_products(), product_id_is(id@));
                }
                Ok(None)
            },
        }
    }

    fn find_by_sku(&self, sku: &str) -> (r: Result<Option<Product>, DomainError>)
        ensures
            self.should_error ==> is_internal(r, simulated_failure()),
    {
        self.check_error()?;
        match position_of_product_sku(&self.products, sku) {
            Some(i) => {
                proof {
                    lemma_first_match_at(self.stored_products(), product_sku_is(sku@), i as int);
                }
                Ok(Some(self.products[i].clone()))
            },
            None => {
                proof {
                    lemma_no_match(self.stored_products(), product_sku_is(sku@));
                }
                Ok(None)
            },
        }
    }

    fn create(&mut self, input: &CreateProductInput) -> (r: Result<Product, DomainError>)
        ensures
            old(self).should_error ==> is_internal(r, simulated_failure()) && *final(self) == *old(self),
            r matches Ok(p) ==> {
                &&& p.id@ == "mock-id"@
                &&& p.created_at@ == mock_timestamp()
                &&& p.updated_at@ == mock_timestamp()
            },
    {
        self.check_error()?;
        let product = Product {
            id: String::from_str("mock-id"),
            name: input.name.clone(),
            description: input.description.clone(),
            sku: input.sku.clone(),
            brand: input.brand.clone(),
            status: String::from_str("available"),
            created_at: String::from_str("2026-01-01 00:00:00"),
            updated_at: String::from_str("2026-01-01 00:00:00"),
        };
        proof {
            reveal_strlit("available");
        }
        self.products.push(product.clone());
        proof {
            assert(product_views(self.products@) =~= product_views(old(self).products@).push(product@));
        }
        Ok(product)
    }

    fn update(&mut self, id: &str, input: &UpdateProductInput) -> (r: Result<Product, DomainError>)
        ensures
            old(self).should_error ==> is_internal(r, simulated_failure()) && *final(self) == *old(self),
            !old(self).should_error && !any_match(old(self).stored_products(), product_id_is(id@))
                ==> is_not_found(r, product_not_found(id@)) && *final(self) == *old(self),
            r matches Ok(p) ==> exists|i: int|
                is_first_match(old(self).stored_products(), product_id_is(id@), i)
                && p@.updated_at == old(self).stored_products()[i].updated_at,
    {
        self.check_error()?;
        match position_of_product_id(&self.products, id) {
            None => {
                proof {
                    lemma_no_match(self.stored_products(), product_id_is(id@));
                }
                Err(DomainError::NotFound(product_not_found_message(id)))
            },
            Some(i) => {
                let mut product = self.products[i].clone();
                match &input.name {
                    Some(name) => { product.name = name.clone(); },
                    None => {},
                }
                match &input.description {
                    Some(desc) => { product.description = Some(desc.clone()); },
                    None => {},
                }
                match &input.brand {
                    Some(brand) => { product.brand = Some(brand.clone()); },
                    None => {},
                }
                self.products.set(i, product.clone());
                proof {
                    assert(product_views(self.products@) =~= product_views(old(self).products@).update(i as int, product@));
                }
                Ok(product)
            },
        }
    }

    fn update_status(&mut self, id: &str, status: &str) -> (r: Result<Product, DomainError>)
        ensures
            old(self).should_error ==> is_internal(r, simulated_failure()) && *final(self) == *old(self),
            !old(self).should_error && !any_match(old(self).stored_products(), product_id_is(id@))
                ==> is_not_found(r, product_not_found(id@)) && *final(self) == *old(self),
            r matches Ok(p) ==> exists|i: int|
                is_first_match(old(self).stored_products(), product_id_is(id@), i)
                && p@.updated_at == old(self).stored_products()[i].updated_at,
    {
        self.check_error()?;
        match position_of_product_id(&self.products, id) {
            None => {
                proof {
                    lemma_no_match(self.stored_products(), product_id_is(id@));
                }
                Err(DomainError::NotFound(product_not_found_message(id)))
            },
            Some(i) => {
                let mut product = self.products[i].clone();
                product.status = status.to_owned();
                self.products.set(i, product.clone());
                proof {
                    assert(product_views(self.products@) =~= product_views(old(self).products@).update(i as int, product@));
                }
                Ok(product)
            },
        }
    }

    fn delete(&mut self, id: &str) -> (r: Result<(), DomainError>)
        ensures
            old(self).should_error ==> is_internal(r, simulated_failure()) && *final(self) == *old(self),
            !old(self).should_error && !any_match(old(self).stored_products(), product_id_is(id@))
                ==> is_not_found(r, product_not_found(id@)),
            r is Err ==> final(self).stored_products() == old(self).stored_products(),
    {
        self.check_error()?;
        let key = id.to_owned();
        let ghost s = self.stored_products();
        let ghost p = product_id_is(id@);
        let mut kept: Vec<Product> = Vec::new();
        let mut i: usize = 0;
        while i < self.products.len()
            invariant
                i <= self.products@.len(),
                key@ == id@,
                s == product_views(self.products@),
                p == product_id_is(id@),
                product_views(kept@) == without(s.take(i as int), p),
            decreases self.products@.len() - i,
        {
            proof {
                assert(s.take(i + 1) =~= s.take(i as int).push(s[i as int]));
                lemma_without_push(s.take(i as int), p, s[i as int]);
            }
            if self.products[i].id != key {
                let ghost before = kept@;
                kept.push(self.products[i].clone());
                proof {
                    assert(product_views(kept@) =~= product_views(before).push(s[i as int]));
                }
            }
            i = i + 1;
        }
        proof {
            assert(s.take(s.len() as int) =~= s);
            lemma_without_len(s, p);
        }
        if kept.len() == self.products.len() {
            return Err(DomainError::NotFound(product_not_found_message(id)));
        }
        self.products = kept;
        Ok(())
    }

    fn exists_by_id(&self, id: &str) -> (r: Result<bool, DomainError>)
        ensures
            self.should_error ==> is_internal(r, simulated_failure()),
    {
        self.check_error()?;
        match position_of_product_id(&self.products, id) {
            Some(i) => {
                proof {
                    lemma_first_match_at(self.stored_products(), product_id_is(id@), i as int);
                }
                Ok(true)
            },
            None => {
                proof {
                    lemma_no_match(self.stored_products(), product_id_is(id@));
                }
                Ok(false)
            },
        }
    }
}

// ============================================================
// Mock Category Repository
// ============================================================

/// Position of the first category with the given id.
fn position_of_category_id(categories: &Vec<Category>, id: &str) -> (r: Option<usize>)
    ensures
        r matches Some(i) ==> is_first_match(category_views(categories@), category_id_is(id@), i as int),
        r is None ==> forall|j: int|
            0 <= j < categories@.len() ==> !category_id_is(id@)(#[trigger] category_views(categories@)[j]),
{
    let key = id.to_owned();
    let mut i: usize = 0;
    while i < categories.len()
        invariant
            i <= categories@.len(),
            key@ == id@,
            forall|j: int| 0 <= j < i ==> !category_id_is(id@)(#[trigger] category_views(categories@)[j]),
        decreases categories@.len() - i,
    {
        if categories[i].id == key {
            return Some(i);
        }
        i = i + 1;
    }
    None
}

/// Copy of a sequence of categories.
fn clone_categories(categories: &Vec<Category>) -> (r: Vec<Category>)
    ensures
        category_views(r@) == category_views(categories@),
{
    let mut out: Vec<Category> = Vec::new();
    let mut i: usize = 0;
    while i < categories.len()
        invariant
            i <= categories@.len(),
            category_views(out@) =~= category_views(categories@).take(i as int),
        decreases categories@.len() - i,
    {
        let ghost before = out@;
        out.push(categories[i].clone());
        proof {
            assert(category_views(out@) =~= category_views(before).push(categories@[i as int]@));
            assert(category_views(categories@).take(i + 1) =~= category_views(categories@).take(
                i as int,
            ).push(categories@[i as int]@));
        }
        i = i + 1;
    }
    proof {
        assert(category_views(categories@).take(categories@.len() as int) =~= category_views(categories@));
    }
    out
}

/// The views of stored links.
pub open spec fn link_views(s: Seq<(String, String)>) -> Seq<LinkView> {
    s.map_values(|l: (String, String)| (l.0@, l.1@))
}

/// In-memory category storage; it answers every request.
pub struct MockCategoryRepository {
    pub categories: Vec<Category>,
    /// Links as (product id, category id).
    pub links: Vec<(String, String)>,
}

impl MockCategoryRepository {
    /// An empty storage.
    pub fn new() -> (r: Self)
        ensures
            r.stored_categories() == Seq::<CategoryView>::empty(),
            r.stored_links() == Seq::<LinkView>::empty(),
    {
        MockCategoryRepository { categories: Vec::new(), links: Vec::new() }
    }

    /// Replaces the stored categories.
    pub fn with_categories(&mut self, categories: Vec<Category>)
        ensures
            final(self).stored_categories() == category_views(categories@),
            final(self).stored_links() == old(self).stored_links(),
    {
        self.categories = categories;
    }
}

impl CategoryRepository for MockCategoryRepository {
    /// The categories are listed in the order they are stored.
    open spec fn listed_categories(&self) -> Seq<CategoryView> {
        self.stored_categories()
    }

    open spec fn stored_categories(&self) -> Seq<CategoryView> {
        category_views(self.categories@)
    }

    open spec fn stored_links(&self) -> Seq<LinkView> {
        link_views(self.links@)
    }

    open spec fn healthy(&self) -> bool {
        true
    }

    fn list(&self) -> (r: Result<Vec<Category>, DomainError>)
        ensures
            r matches Ok(v) ==> category_views(v@) == self.stored_categories(),
    {
        Ok(clone_categories(&self.categories))
    }

    fn find_by_id(&self, id: &str) -> (r: Result<Option<Category>, DomainError>) {
        match position_of_category_id(&self.categories, id) {
            Some(i) => {
                proof {
                    lemma_first_match_at(self.stored_categories(), category_id_is(id@), i as int);
                }
                Ok(Some(self.categories[i].clone()))
            },
            None => {
                proof {
                    lemma_no_match(self.stored_categories(), category_id_is(id@));
                }
                Ok(None)
            },
        }
    }

    fn create(&mut self, input: &CreateCategoryInput) -> (r: Result<Category, DomainError>)
        ensures
            r matches Ok(c) ==> {
                &&& c.id@ == "mock-cat-id"@
                &&& c.created_at@ == mock_timestamp()
                &&& c.updated_at@ == mock_timestamp()
            },
    {
        let cat = Category {
            id: String::from_str("mock-cat-id"),
            name: input.name.clone(),
            description: input.description.clone(),
            parent_id: input.parent_id.clone(),
            created_at: String::from_str("2026-01-01 00:00:00"),
            updated_at: String::from_str("2026-01-01 00:00:00"),
        };
        self.categories.push(cat.clone());
        proof {
            assert(category_views(self.categories@) =~= category_views(old(self).categories@).push(cat@));
        }
        Ok(cat)
    }

    fn update(&mut self, id: &str, input: &UpdateCategoryInput) -> (r: Result<Category, DomainError>)
        ensures
            !any_match(old(self).stored_categories(), category_id_is(id@))
                ==> is_not_found(r, category_not_found(id@)) && *final(self) == *old(self),
            r matches Ok(c) ==> exists|i: int|
                is_first_match(old(self).stored_categories(), category_id_is(id@), i)
                && c@.updated_at == old(self).stored_categories()[i].updated_at,
    {
        match position_of_category_id(&self.categories, id) {
            None => {
                proof {
                    lemma_no_match(self.stored_categories(), category_id_is(id@));
                }
                Err(DomainError::NotFound(category_not_found_message(id)))
            },
            Some(i) => {
                let mut cat = self.categories[i].clone();
                match &input.name {
                    Some(name) => { cat.name = name.clone(); },
                    None => {},
                }
                match &input.description {
                    Some(desc) => { cat.description = Some(desc.clone()); },
                    None => {},
                }
                match &input.parent_id {
                    Some(pid) => { cat.parent_id = Some(pid.clone()); },
                    None => {},
                }
                self.categories.set(i, cat.clone());
                proof {
                    assert(category_views(self.categories@) =~= category_views(old(self).categories@).update(i as int, cat@));
                }
                Ok(cat)
            },
        }
    }

    fn delete(&mut self, id: &str) -> (r: Result<(), DomainError>)
        ensures
            !any_match(old(self).stored_categories(), category_id_is(id@))
                ==> is_not_found(r, category_not_found(id@)),
            r is Err ==> *final(self) == *old(self),
    {
        let key = id.to_owned();
        let ghost s = self.stored_categories();
        let ghost p = category_id_is(id@);
        let mut kept: Vec<Category> = Vec::new();
        let mut i: usize = 0;
        while i < self.categories.len()
            invariant
                i <= self.categories@.len(),
                key@ == id@,
                s == category_views(self.categories@),
                p == category_id_is(id@),
                category_views(kept@) == without(s.take(i as int), p),
            decreases self.categories@.len() - i,
        {
            proof {
                assert(s.take(i + 1) =~= s.take(i as int).push(s[i as int]));
                lemma_without_push(s.take(i as int), p, s[i as int]);
            }
            if self.categories[i].id != key {
                let ghost before = kept@;
                kept.push(self.categories[i].clone());
                proof {
                    assert(category_views(kept@) =~= category_views(before).push(s[i as int]));
                }
            }
            i = i + 1;
        }
        proof {
            assert(s.take(s.len() as int) =~= s);
            lemma_without_len(s, p);
        }
        if kept.len() == self.categories.len() {
            return Err(DomainError::NotFound(category_not_found_message(id)));
        }
        self.categories = kept;
        Ok(())
    }

    fn exists_by_id(&self, id: &str) -> (r: Result<bool, DomainError>) {
        match position_of_category_id(&self.categories, id) {
            Some(i) => {
                proof {
                    lemma_first_match_at(self.stored_categories(), category_id_is(id@), i as int);
                }
                Ok(true)
            },
            None => {
                proof {
                    lemma_no_match(self.stored_categories(), category_id_is(id@));
                }
                Ok(false)
            },
        }
    }

    fn link_product(&mut self, product_id: &str, category_id: &str) -> (r: Result<(), DomainError>)
        ensures
            final(self).stored_links() == old(self).stored_links().push((product_id@, category_id@)),
    {
        self.links.push((product_id.to_owned(), category_id.to_owned()));
        proof {
            let l = (product_id@, category_id@);
            assert(self.stored_links() =~= old(self).stored_links().push(l));
            assert(self.stored_links()[self.stored_links().len() - 1] == l);
            assert forall|x: LinkView| old(self).stored_links().contains(x) implies self.stored_links().contains(x) by {
                let k = choose|k: int| 0 <= k < old(self).stored_links().len() && old(self).stored_links()[k] == x;
                assert(self.stored_links()[k] == x);
            }
            assert forall|x: LinkView| #[trigger] self.stored_links().contains(x)
                implies x == l || old(self).stored_links().contains(x) by {
                let k = choose|k: int| 0 <= k < self.stored_links().len() && self.stored_links()[k] == x;
                if k < old(self).stored_links().len() {
                    assert(old(self).stored_links()[k] == x);
                }
            }
        }
        Ok(())
    }

    fn unlink_product(&mut self, product_id: &str, category_id: &str) -> (r: Result<(), DomainError>) {
        let pk = product_id.to_owned();
        let ck = category_id.to_owned();
        let ghost s = self.stored_links();
        let ghost p = link_is((product_id@, category_id@));
        let mut kept: Vec<(String, String)> = Vec::new();
        let mut i: usize = 0;
        while i < self.links.len()
            invariant
                i <= self.links@.len(),
                pk@ == product_id@,
                ck@ == category_id@,
                s == link_views(self.links@),
                p == link_is((product_id@, category_id@)),
                link_views(kept@) == without(s.take(i as int), p),
            decreases self.links@.len() - i,
        {
            proof {
                assert(s.take(i + 1) =~= s.take(i as int).push(s[i as int]));
                lemma_without_push(s.take(i as int), p, s[i as int]);
            }
            if !(self.links[i].0 == pk && self.links[i].1 == ck) {
                let ghost before = kept@;
                let pair = (self.links[i].0.clone(), self.links[i].1.clone());
                kept.push(pair);
                proof {
                    assert(link_views(kept@) =~= link_views(before).push(s[i as int]));
                }
            }
            i = i + 1;
        }
        proof {
            assert(s.take(s.len() as int) =~= s);
        }
        self.links = kept;
        Ok(())
    }
}

// ============================================================
// Mock Stock Repository
// ============================================================

/// Position of the first stock record of the given product.
fn position_of_stock(stocks: &Vec<Stock>, product_id: &str) -> (r: Option<usize>)
    ensures
        r matches Some(i) ==> is_first_match(stock_views(stocks@), stock_of(product_id@), i as int),
        r is None ==> forall|j: int|
            0 <= j < stocks@.len() ==> !stock_of(product_id@)(#[trigger] stock_views(stocks@)[j]),
{
    let key = product_id.to_owned();
    let mut i: usize = 0;
    while i < stocks.len()
        invariant
            i <= stocks@.len(),
            key@ == product_id@,
            forall|j: int| 0 <= j < i ==> !stock_of(product_id@)(#[trigger] stock_views(stocks@)[j]),
        decreases stocks@.len() - i,
    {
        if stocks[i].product_id == key {
            return Some(i);
        }
        i = i + 1;
    }
    None
}

/// A stock record of the product with quantity 0, minimum 0 and no location.
fn zero_stock(product_id: &str) -> (r: Stock)
    ensures
        r@.product_id == product_id@,
        r@.quantity == 0,
        r@.min_quantity == 0,
        r@.location == None::<Seq<char>>,
        r@.id == "mock-stock-id"@,
        r@.updated_at == mock_timestamp(),
{
    Stock {
        id: String::from_str("mock-stock-id"),
        product_id: product_id.to_owned(),
        quantity: 0,
        min_quantity: 0,
        location: None,
        updated_at: String::from_str("2026-01-01 00:00:00"),
    }
}

/// Setting the quantity at the position `ensure_stock` gave sets the
/// product's quantity.
proof fn lemma_quantity_set_at(
    before: Seq<StockView>,
    mid: Seq<StockView>,
    after: Seq<StockView>,
    product_id: Seq<char>,
    i: int,
    q: i32,
)
    requires
        is_first_match(mid, stock_of(product_id), i),
        any_match(before, stock_of(product_id)) ==> mid == before,
        !any_match(before, stock_of(product_id)) ==> {
            &&& i == before.len()
            &&& mid == before.push(mid[i])
            &&& mid[i].min_quantity == 0
            &&& mid[i].location == None::<Seq<char>>
        },
        after == mid.update(i, StockView { quantity: q, ..mid[i] }),
    ensures
        quantity_set(before, after, product_id, q),
{
    if any_match(before, stock_of(product_id)) {
        assert(after == before.update(
            i,
            StockView { quantity: q, updated_at: after[i].updated_at, ..before[i] },
        ));
    } else {
        let z = after[i];
        assert(after =~= before.push(z));
    }
}

/// In-memory storage of stock records and movements; it answers every request.
pub struct MockStockRepository {
    pub stocks: Vec<Stock>,
    pub movements: Vec<StockMovement>,
}

impl MockStockRepository {
    /// An empty storage.
    pub fn new() -> (r: Self)
        ensures
            r.stored_stocks() == Seq::<StockView>::empty(),
            r.stored_movements() == Seq::<StockMovementView>::empty(),
    {
        MockStockRepository { stocks: Vec::new(), movements: Vec::new() }
    }

    /// Adds a stock record.
    pub fn add_stock(&mut self, stock: Stock)
        ensures
            final(self).stored_stocks() == old(self).stored_stocks().push(stock@),
            final(self).stored_movements() == old(self).stored_movements(),
    {
        self.stocks.push(stock);
        proof {
            assert(stock_views(self.stocks@) =~= stock_views(old(self).stocks@).push(stock@));
        }
    }

    /// Position of the product's first stock record, adding a record with
    /// quantity 0 when it has none.
    fn ensure_stock(&mut self, product_id: &str) -> (r: usize)
        ensures
            is_first_match(final(self).stored_stocks(), stock_of(product_id@), r as int),
            final(self).stored_stocks()[r as int].quantity == quantity_of(old(self).stored_stocks(), product_id@),
            any_match(old(self).stored_stocks(), stock_of(product_id@))
                ==> final(self).stored_stocks() == old(self).stored_stocks(),
            !any_match(old(self).stored_stocks(), stock_of(product_id@)) ==> {
                &&& r == old(self).stored_stocks().len()
                &&& final(self).stored_stocks() == old(self).stored_stocks().push(final(self).stored_stocks()[r as int])
                &&& final(self).stored_stocks()[r as int].min_quantity == 0
                &&& final(self).stored_stocks()[r as int].location == None::<Seq<char>>
            },
            final(self).stored_movements() == old(self).stored_movements(),
    {
        match position_of_stock(&self.stocks, product_id) {
            Some(i) => {
                proof {
                    lemma_first_match_at(self.stored_stocks(), stock_of(product_id@), i as int);
                }
                i
            },
            None => {
                proof {
                    lemma_no_match(self.stored_stocks(), stock_of(product_id@));
                }
                let z = zero_stock(product_id);
                self.stocks.push(z);
                proof {
                    assert(stock_views(self.stocks@) =~= stock_views(old(self).stocks@).push(z@));
                }
                self.stocks.len() - 1
            },
        }
    }

    /// Sets the quantity of the record at position `i`.
    fn set_quantity_at(&mut self, i: usize, quantity: i32)
        requires
            i < old(self).stocks@.len(),
        ensures
            final(self).stored_stocks() == old(self).stored_stocks().update(
                i as int,
                StockView { quantity: quantity, ..old(self).stored_stocks()[i as int] },
            ),
            final(self).stored_movements() == old(self).stored_movements(),
    {
        let mut s = self.stocks[i].clone();
        s.quantity = quantity;
        self.stocks.set(i, s);
        proof {
            assert(stock_views(self.stocks@) =~= stock_views(old(self).stocks@).update(
                i as int,
                StockView { quantity: quantity, ..old(self).stored_stocks()[i as int] },
            ));
        }
    }
}

impl StockRepository for MockStockRepository {
    /// The movements are listed in the order they are stored.
    open spec fn listed_movements(&self) -> Seq<StockMovementView> {
        self.stored_movements()
    }

    open spec fn stored_stocks(&self) -> Seq<StockView> {
        stock_views(self.stocks@)
    }

    open spec fn stored_movements(&self) -> Seq<StockMovementView> {
        movement_views(self.movements@)
    }

    /// The in-memory storage reports no low-stock product.
    open spec fn low_stock_rows(&self) -> Seq<LowStockProductView> {
        Seq::empty()
    }

    open spec fn healthy(&self) -> bool {
        true
    }

    fn find_by_product(&self, product_id: &str) -> (r: Result<Option<Stock>, DomainError>) {
        match position_of_stock(&self.stocks, product_id) {
            Some(i) => {
                proof {
                    lemma_first_match_at(self.stored_stocks(), stock_of(product_id@), i as int);
                }
                Ok(Some(self.stocks[i].clone()))
            },
            None => {
                proof {
                    lemma_no_match(self.stored_stocks(), stock_of(product_id@));
                }
                Ok(None)
            },
        }
    }

    fn create(&mut self, input: &CreateStockInput) -> (r: Result<Stock, DomainError>)
        ensures
            r matches Ok(s) ==> s.id@ == "mock-stock-id"@ && s.updated_at@ == mock_timestamp(),
    {
        let stock = Stock {
            id: String::from_str("mock-stock-id"),
            product_id: input.product_id.clone(),
            quantity: match input.quantity {
                Some(q) => q,
                None => 0,
            },
            min_quantity: match input.min_quantity {
                Some(q) => q,
                None => 0,
            },
            location: input.location.clone(),
            updated_at: String::from_str("2026-01-01 00:00:00"),
        };
        self.add_stock(stock.clone());
        Ok(stock)
    }

    fn update_quantity(&mut self, product_id: &str, quantity: i32) -> (r: Result<(), DomainError>)
        ensures
            !any_match(old(self).stored_stocks(), stock_of(product_id@))
                ==> is_not_found(r, "Estoque não encontrado"@) && *final(self) == *old(self),
    {
        match position_of_stock(&self.stocks, product_id) {
            Some(i) => {
                proof {
                    lemma_first_match_at(self.stored_stocks(), stock_of(product_id@), i as int);
                }
                self.set_quantity_at(i, quantity);
                Ok(())
            },
            None => {
                proof {
                    lemma_no_match(self.stored_stocks(), stock_of(product_id@));
                }
                Err(DomainError::NotFound(String::from_str("Estoque não encontrado")))
            },
        }
    }

    fn create_or_get(&mut self, product_id: &str) -> (r: Result<i32, DomainError>) {
        let i = self.ensure_stock(product_id);
        Ok(self.stocks[i].quantity)
    }

    fn create_movement(&mut self, input: &CreateStockMovementInput) -> (r: Result<StockMovement, DomainError>)
        ensures
            r matches Ok(m) ==> m.id@ == "mock-movement-id"@ && m.created_at@ == mock_timestamp(),
    {
        let movement = StockMovement {
            id: String::from_str("mock-movement-id"),
            product_id: input.product_id.clone(),
            movement_type: input.movement_type.clone(),
            quantity: input.quantity,
            reason: input.reason.clone(),
            reference: input.reference.clone(),
            created_at: String::from_str("2026-01-01 00:00:00"),
        };
        self.movements.push(movement.clone());
        proof {
            assert(movement_views(self.movements@) =~= movement_views(old(self).movements@).push(movement@));
        }
        Ok(movement)
    }

    fn list_movements(&self) -> (r: Result<Vec<StockMovement>, DomainError>)
        ensures
            r matches Ok(v) ==> movement_views(v@) == self.stored_movements(),
    {
        Ok(clone_movements(&self.movements))
    }

    fn list_low_stock(&self) -> (r: Result<Vec<LowStockProduct>, DomainError>)
        ensures
            r matches Ok(v) ==> v@.len() == 0,
    {
        let v: Vec<LowStockProduct> = Vec::new();
        proof {
            assert(low_stock_views(v@) =~= Seq::<LowStockProductView>::empty());
        }
        Ok(v)
    }

    fn atomic_increment(&mut self, product_id: &str, delta: i32) -> (r: Result<i32, DomainError>) {
        let ghost before = self.stored_stocks();
        let i = self.ensure_stock(product_id);
        let ghost mid = self.stored_stocks();
        let q = self.stocks[i].quantity + delta;
        self.set_quantity_at(i, q);
        proof {
            lemma_quantity_set_at(before, mid, self.stored_stocks(), product_id@, i as int, q);
        }
        Ok(q)
    }

    fn atomic_decrement(&mut self, product_id: &str, delta: i32) -> (r: Result<i32, DomainError>) {
        let ghost before = self.stored_stocks();
        let i = self.ensure_stock(product_id);
        let ghost mid = self.stored_stocks();
        let current = self.stocks[i].quantity;
        if current < delta {
            return Err(DomainError::BadRequest(insufficient_stock_message(current, delta)));
        }
        let q = current - delta;
        self.set_quantity_at(i, q);
        proof {
            lemma_quantity_set_at(before, mid, self.stored_stocks(), product_id@, i as int, q);
        }
        Ok(q)
    }
}

/// Copy of a sequence of stock records.
fn clone_stocks(stocks: &Vec<Stock>) -> (r: Vec<Stock>)
    ensures
        stock_views(r@) == stock_views(stocks@),
{
    let mut out: Vec<Stock> = Vec::new();
    let mut i: usize = 0;
    while i < stocks.len()
        invariant
            i <= stocks@.len(),
            stock_views(out@) =~= stock_views(stocks@).take(i as int),
        decreases stocks@.len() - i,
    {
        let ghost before = out@;
        out.push(stocks[i].clone());
        proof {
            assert(stock_views(out@) =~= stock_views(before).push(stocks@[i as int]@));
            assert(stock_views(stocks@).take(i + 1) =~= stock_views(stocks@).take(i as int).push(
                stocks@[i as int]@,
            ));
        }
        i = i + 1;
    }
    proof {
        assert(stock_views(stocks@).take(stocks@.len() as int) =~= stock_views(stocks@));
    }
    out
}

// ============================================================
// Mock Sale Repository
// ============================================================

/// In-memory sale storage; it answers every request.
pub struct MockSaleRepository<A> {
    pub sales: Vec<Sale<A>>,
}

impl<A: Copy> MockSaleRepository<A> {
    /// An empty storage.
    pub fn new() -> (r: Self)
        ensures
            r.stored_sales() == Seq::<SaleView<A>>::empty(),
    {
        MockSaleRepository { sales: Vec::new() }
    }
}

impl<A: Copy> SaleRepository for MockSaleRepository<A> {
    type Amount = A;

    open spec fn stored_sales(&self) -> Seq<SaleView<A>> {
        sale_views(self.sales@)
    }

    open spec fn healthy(&self) -> bool {
        true
    }

    fn create(&mut self, input: &CreateSaleInput<A>, total_price: A) -> (r: Result<Sale<A>, DomainError>)
        ensures
            r matches Ok(s) ==> {
                &&& s.id@ == "mock-sale-id"@
                &&& s.sale_date@ == mock_timestamp()
                &&& s.created_at@ == mock_timestamp()
            },
    {
        let sale = Sale {
            id: String::from_str("mock-sale-id"),
            product_id: input.product_id.clone(),
            quantity: input.quantity,
            unit_price: input.unit_price,
            total_price,
            sale_date: String::from_str("2026-01-01 00:00:00"),
            customer_name: input.customer_name.clone(),
            created_at: String::from_str("2026-01-01 00:00:00"),
        };
        self.sales.push(sale.clone());
        proof {
            assert(sale_views(self.sales@) =~= sale_views(old(self).sales@).push(sale@));
        }
        Ok(sale)
    }
}

// ============================================================
// Mock UnitOfWork
// ============================================================

/// Copy of a sequence of stock movements.
fn clone_movements(movements: &Vec<StockMovement>) -> (r: Vec<StockMovement>)
    ensures
        movement_views(r@) == movement_views(movements@),
{
    let mut out: Vec<StockMovement> = Vec::new();
    let mut i: usize = 0;
    while i < movements.len()
        invariant
            i <= movements@.len(),
            movement_views(out@) =~= movement_views(movements@).take(i as int),
        decreases movements@.len() - i,
    {
        let ghost before = out@;
        out.push(movements[i].clone());
        proof {
            assert(movement_views(out@) =~= movement_views(before).push(movements@[i as int]@));
            assert(movement_views(movements@).take(i + 1) =~= movement_views(movements@).take(
                i as int,
            ).push(movements@[i as int]@));
        }
        i = i + 1;
    }
    proof {
        assert(movement_views(movements@).take(movements@.len() as int) =~= movement_views(movements@));
    }
    out
}

/// A transaction over in-memory storages.
pub struct MockUnitOfWork<A> {
    pub product_repo: MockProductRepository,
    pub stock_repo: MockStockRepository,
    pub sale_repo: MockSaleRepository<A>,
}

impl<A: Copy> MockUnitOfWork<A> {
    pub fn new(
        product_repo: MockProductRepository,
        stock_repo: MockStockRepository,
        sale_repo: MockSaleRepository<A>,
    ) -> (r: Self)
        ensures
            r.product_repo == product_repo,
            r.stock_repo == stock_repo,
            r.sale_repo == sale_repo,
    {
        MockUnitOfWork { product_repo, stock_repo, sale_repo }
    }
}

impl<A: Copy> UnitOfWork for MockUnitOfWork<A> {
    type Products = MockProductRepository;

    type Stocks = MockStockRepository;

    type Sales = MockSaleRepository<A>;

    open spec fn product_repo(&self) -> MockProductRepository {
        self.product_repo
    }

    open spec fn stock_repo(&self) -> MockStockRepository {
        self.stock_repo
    }

    open spec fn sale_repo(&self) -> MockSaleRepository<A> {
        self.sale_repo
    }

    fn products(&mut self) -> (r: &mut MockProductRepository) {
        &mut self.product_repo
    }

    fn stocks(&mut self) -> (r: &mut MockStockRepository) {
        &mut self.stock_repo
    }

    fn sales(&mut self) -> (r: &mut MockSaleRepository<A>) {
        &mut self.sale_repo
    }
}

/// Opens transactions over copies of in-memory storages: each transaction
/// starts from the factory's products and stock records, with no movement,
/// no sale and with failures switched off. Committing a transaction keeps it
/// as `last_commit` and marks `committed`; rolling it back marks
/// `rolled_back`; the factory's own storages are never changed.
pub struct MockUnitOfWorkFactory<A> {
    pub product_repo: MockProductRepository,
    pub stock_repo: MockStockRepository,
    pub sale_repo: MockSaleRepository<A>,
    pub committed: bool,
    pub rolled_back: bool,
    pub last_commit: Option<MockUnitOfWork<A>>,
}

impl<A: Copy> MockUnitOfWorkFactory<A> {
    pub fn new(
        product_repo: MockProductRepository,
        stock_repo: MockStockRepository,
        sale_repo: MockSaleRepository<A>,
    ) -> (r: Self)
        ensures
            r.product_repo == product_repo,
            r.stock_repo == stock_repo,
            r.sale_repo == sale_repo,
            !r.committed,
            !r.rolled_back,
            r.last_commit is None,
    {
        MockUnitOfWorkFactory {
            product_repo,
            stock_repo,
            sale_repo,
            committed: false,
            rolled_back: false,
            last_commit: None,
        }
    }
}

impl<A: Copy> UnitOfWorkFactory for MockUnitOfWorkFactory<A> {
    type Work = MockUnitOfWork<A>;

    open spec fn stored_products(&self) -> Seq<ProductView> {
        self.product_repo.stored_products()
    }

    open spec fn stored_stocks(&self) -> Seq<StockView> {
        self.stock_repo.stored_stocks()
    }

    open spec fn stored_movements(&self) -> Seq<StockMovementView> {
        Seq::empty()
    }

    open spec fn stored_sales(&self) -> Seq<SaleView<A>> {
        Seq::empty()
    }

    open spec fn last_commit(&self) -> Option<CommittedView<A>> {
        match self.last_commit {
            Some(w) => Some(
                CommittedView {
                    products: w.product_repo.stored_products(),
                    stocks: w.stock_repo.stored_stocks(),
                    movements: w.stock_repo.stored_movements(),
                    sales: w.sale_repo.stored_sales(),
                },
            ),
            None => None,
        }
    }

    open spec fn healthy(&self) -> bool {
        true
    }

    fn begin(&self) -> (r: Result<MockUnitOfWork<A>, DomainError>)
        ensures
            r matches Ok(w) ==> !w.product_repo.should_error,
    {
        let products = MockProductRepository {
            products: clone_products(&self.product_repo.products),
            should_error: false,
        };
        let stocks = MockStockRepository { stocks: clone_stocks(&self.stock_repo.stocks), movements: Vec::new() };
        proof {
            assert(stocks.stored_movements() =~= Seq::<StockMovementView>::empty());
        }
        Ok(MockUnitOfWork::new(products, stocks, MockSaleRepository::new()))
    }

    fn commit(&mut self, work: MockUnitOfWork<A>) -> (r: Result<(), DomainError>)
        ensures
            final(self).committed,
            final(self).rolled_back == old(self).rolled_back,
            final(self).product_repo == old(self).product_repo,
            final(self).stock_repo == old(self).stock_repo,
            final(self).sale_repo == old(self).sale_repo,
    {
        self.last_commit = Some(work);
        self.committed = true;
        Ok(())
    }

    fn rollback(&mut self, work: MockUnitOfWork<A>) -> (r: Result<(), DomainError>)
        ensures
            final(self).rolled_back,
            final(self).committed == old(self).committed,
            final(self).product_repo == old(self).product_repo,
            final(self).stock_repo == old(self).stock_repo,
            final(self).sale_repo == old(self).sale_repo,
    {
        self.rolled_back = true;
        Ok(())
    }
}

// ============================================================
// Mock Warranty Repository
// ============================================================

/// Position of the first warranty with the given id.
fn position_of_warranty(warranties: &Vec<Warranty>, id: &str) -> (r: Option<usize>)
    ensures
        r matches Some(i) ==> is_first_match(warranty_views(warranties@), warranty_id_is(id@), i as int),
        r is None ==> forall|j: int|
            0 <= j < warranties@.len() ==> !warranty_id_is(id@)(#[trigger] warranty_views(warranties@)[j]),
{
    let key = id.to_owned();
    let mut i: usize = 0;
    while i < warranties.len()
        invariant
            i <= warranties@.len(),
            key@ == id@,
            forall|j: int| 0 <= j < i ==> !warranty_id_is(id@)(#[trigger] warranty_views(warranties@)[j]),
        decreases warranties@.len() - i,
    {
        if warranties[i].id == key {
            return Some(i);
        }
        i = i + 1;
    }
    None
}

/// In-memory warranty storage; it answers every request.
pub struct MockWarrantyRepository {
    pub warranties: Vec<Warranty>,
}

impl MockWarrantyRepository {
    /// An empty storage.
    pub fn new() -> (r: Self)
        ensures
            r.stored_warranties() == Seq::<WarrantyView>::empty(),
    {
        MockWarrantyRepository { warranties: Vec::new() }
    }

    /// Adds a warranty.
    pub fn add_warranty(&mut self, warranty: Warranty)
        ensures
            final(self).stored_warranties() == old(self).stored_warranties().push(warranty@),
    {
        self.warranties.push(warranty);
        proof {
            assert(warranty_views(self.warranties@) =~= warranty_views(old(self).warranties@).push(warranty@));
        }
    }
}

impl WarrantyRepository for MockWarrantyRepository {
    /// The warranties are listed in the order they are stored.
    open spec fn listed_warranties(&self) -> Seq<WarrantyView> {
        self.stored_warranties()
    }

    open spec fn stored_warranties(&self) -> Seq<WarrantyView> {
        warranty_views(self.warranties@)
    }

    open spec fn healthy(&self) -> bool {
        true
    }

    fn list(&self) -> (r: Result<Vec<Warranty>, DomainError>)
        ensures
            r matches Ok(v) ==> warranty_views(v@) == self.stored_warranties(),
    {
        let mut out: Vec<Warranty> = Vec::new();
        let mut i: usize = 0;
        while i < self.warranties.len()
            invariant
                i <= self.warranties@.len(),
                warranty_views(out@) =~= warranty_views(self.warranties@).take(i as int),
            decreases self.warranties@.len() - i,
        {
            let ghost before = out@;
            out.push(self.warranties[i].clone());
            proof {
                assert(warranty_views(out@) =~= warranty_views(before).push(self.warranties@[i as int]@));
                assert(warranty_views(self.warranties@).take(i + 1) =~= warranty_views(self.warranties@).take(
                    i as int,
                ).push(self.warranties@[i as int]@));
            }
            i = i + 1;
        }
        proof {
            assert(warranty_views(self.warranties@).take(self.warranties@.len() as int) =~= warranty_views(self.warranties@));
        }
        Ok(out)
    }

    fn find_by_id(&self, id: &str) -> (r: Result<Option<Warranty>, DomainError>) {
        match position_of_warranty(&self.warranties, id) {
            Some(i) => {
                proof {
                    lemma_first_match_at(self.stored_warranties(), warranty_id_is(id@), i as int);
                }
                Ok(Some(self.warranties[i].clone()))
            },
            None => {
                proof {
                    lemma_no_match(self.stored_warranties(), warranty_id_is(id@));
                }
                Ok(None)
            },
        }
    }

    fn create(&mut self, input: &CreateWarrantyInput, expires_at: &str) -> (r: Result<Warranty, DomainError>)
        ensures
            r matches Ok(w) ==> {
                &&& w.id@ == "mock-warranty-id"@
                &&& w.created_at@ == mock_timestamp()
                &&& w.updated_at@ == mock_timestamp()
            },
    {
        let warranty = Warranty {
            id: String::from_str("mock-warranty-id"),
            product_id: input.product_id.clone(),
            customer_name: input.customer_name.clone(),
            customer_contact: input.customer_contact.clone(),
            purchase_date: input.purchase_date.clone(),
            warranty_days: input.warranty_days,
            expires_at: expires_at.to_owned(),
            status: String::from_str("active"),
            notes: input.notes.clone(),
            created_at: String::from_str("2026-01-01 00:00:00"),
            updated_at: String::from_str("2026-01-01 00:00:00"),
        };
        self.add_warranty(warranty.clone());
        Ok(warranty)
    }

    fn update_status(&mut self, id: &str, status: &str) -> (r: Result<Warranty, DomainError>)
        ensures
            !any_match(old(self).stored_warranties(), warranty_id_is(id@))
                ==> is_not_found(r, warranty_not_found(id@)) && *final(self) == *old(self),
            r matches Ok(w) ==> exists|i: int|
                is_first_match(old(self).stored_warranties(), warranty_id_is(id@), i)
                && w@.updated_at == old(self).stored_warranties()[i].updated_at,
    {
        match position_of_warranty(&self.warranties, id) {
            None => {
                proof {
                    lemma_no_match(self.stored_warranties(), warranty_id_is(id@));
                }
                Err(DomainError::NotFound(warranty_not_found_message(id)))
            },
            Some(i) => {
                let mut w = self.warranties[i].clone();
                w.status = status.to_owned();
                self.warranties.set(i, w.clone());
                proof {
                    assert(warranty_views(self.warranties@) =~= warranty_views(old(self).warranties@).update(i as int, w@));
                }
                Ok(w)
            },
        }
    }
}

// ============================================================
// Mock Return Repository
// ============================================================

/// Position of the first return with the given id.
fn position_of_return<A>(records: &Vec<Return<A>>, id: &str) -> (r: Option<usize>)
    ensures
        r matches Some(i) ==> is_first_match(return_views(records@), return_id_is(id@), i as int),
        r is None ==> forall|j: int|
            0 <= j < records@.len() ==> !return_id_is(id@)(#[trigger] return_views(records@)[j]),
{
    let key = id.to_owned();
    let mut i: usize = 0;
    while i < records.len()
        invariant
            i <= records@.len(),
            key@ == id@,
            forall|j: int| 0 <= j < i ==> !return_id_is(id@)(#[trigger] return_views(records@)[j]),
        decreases records@.len() - i,
    {
        if records[i].id == key {
            return Some(i);
        }
        i = i + 1;
    }
    None
}

/// In-memory return storage; it answers every request.
pub struct MockReturnRepository<A> {
    pub records: Vec<Return<A>>,
}

impl<A: Copy> MockReturnRepository<A> {
    /// An empty storage.
    pub fn new() -> (r: Self)
        ensures
            r.stored_returns() == Seq::<ReturnView<A>>::empty(),
    {
        MockReturnRepository { records: Vec::new() }
    }

    /// Adds a return.
    pub fn add_return(&mut self, ret: Return<A>)
        ensures
            final(self).stored_returns() == old(self).stored_returns().push(ret@),
    {
        self.records.push(ret);
        proof {
            assert(return_views(self.records@) =~= return_views(old(self).records@).push(ret@));
        }
    }
}

impl<A: Copy> ReturnRepository for MockReturnRepository<A> {
    /// The returns are listed in the order they are stored.
    open spec fn listed_returns(&self) -> Seq<ReturnView<A>> {
        self.stored_returns()
    }

    type Amount = A;

    open spec fn stored_returns(&self) -> Seq<ReturnView<A>> {
        return_views(self.records@)
    }

    open spec fn healthy(&self) -> bool {
        true
    }

    fn list(&self) -> (r: Result<Vec<Return<A>>, DomainError>)
        ensures
            r matches Ok(v) ==> return_views(v@) == self.stored_returns(),
    {
        let mut out: Vec<Return<A>> = Vec::new();
        let mut i: usize = 0;
        while i < self.records.len()
            invariant
                i <= self.records@.len(),
                return_views(out@) =~= return_views(self.records@).take(i as int),
            decreases self.records@.len() - i,
        {
            let ghost before = out@;
            out.push(self.records[i].clone());
            proof {
                assert(return_views(out@) =~= return_views(before).push(self.records@[i as int]@));
                assert(return_views(self.records@).take(i + 1) =~= return_views(self.records@).take(i as int).push(
                    self.records@[i as int]@,
                ));
            }
            i = i + 1;
        }
        proof {
            assert(return_views(self.records@).take(self.records@.len() as int) =~= return_views(self.records@));
        }
        Ok(out)
    }

    fn find_by_id(&self, id: &str) -> (r: Result<Option<Return<A>>, DomainError>) {
        match position_of_return(&self.records, id) {
            Some(i) => {
                proof {
                    lemma_first_match_at(self.stored_returns(), return_id_is(id@), i as int);
                }
                Ok(Some(self.records[i].clone()))
            },
            None => {
                proof {
                    lemma_no_match(self.stored_returns(), return_id_is(id@));
                }
                Ok(None)
            },
        }
    }

    fn create(&mut self, input: &CreateReturnInput<A>) -> (r: Result<Return<A>, DomainError>)
        ensures
            r matches Ok(x) ==> {
                &&& x.id@ == "mock-return-id"@
                &&& x.created_at@ == mock_timestamp()
                &&& x.updated_at@ == mock_timestamp()
            },
    {
        let ret = Return {
            id: String::from_str("mock-return-id"),
            product_id: input.product_id.clone(),
            warranty_id: input.warranty_id.clone(),
            reason: input.reason.clone(),
            status: String::from_str("requested"),
            refund_amount: input.refund_amount,
            created_at: String::from_str("2026-01-01 00:00:00"),
            updated_at: String::from_str("2026-01-01 00:00:00"),
        };
        proof {
            reveal_strlit("requested");
        }
        self.add_return(ret.clone());
        Ok(ret)
    }

    fn update_status(&mut self, id: &str, input: &UpdateReturnStatusInput<A>) -> (r: Result<Return<A>, DomainError>)
        ensures
            !any_match(old(self).stored_returns(), return_id_is(id@))
                ==> is_not_found(r, return_not_found(id@)) && *final(self) == *old(self),
            r matches Ok(x) ==> exists|i: int|
                is_first_match(old(self).stored_returns(), return_id_is(id@), i)
                && x@.updated_at == old(self).stored_returns()[i].updated_at,
    {
        match position_of_return(&self.records, id) {
            None => {
                proof {
                    lemma_no_match(self.stored_returns(), return_id_is(id@));
                }
                Err(DomainError::NotFound(return_not_found_message(id)))
            },
            Some(i) => {
                let mut x = self.records[i].clone();
                x.status = input.status.clone();
                match input.refund_amount {
                    Some(a) => {
                        x.refund_amount = Some(a);
                    },
                    None => {},
                }
                self.records.set(i, x.clone());
                proof {
                    assert(return_views(self.records@) =~= return_views(old(self).records@).update(i as int, x@));
                }
                Ok(x)
            },
        }
    }
}

// ============================================================
// Mock Price Repository
// ============================================================

/// Position of the first price with the given id.
fn position_of_price<A>(prices: &Vec<Price<A>>, id: &str) -> (r: Option<usize>)
    ensures
        r matches Some(i) ==> is_first_match(price_views(prices@), price_id_is(id@), i as int),
        r is None ==> forall|j: int|
            0 <= j < prices@.len() ==> !price_id_is(id@)(#[trigger] price_views(prices@)[j]),
{
    let key = id.to_owned();
    let mut i: usize = 0;
    while i < prices.len()
        invariant
            i <= prices@.len(),
            key@ == id@,
            forall|j: int| 0 <= j < i ==> !price_id_is(id@)(#[trigger] price_views(prices@)[j]),
        decreases prices@.len() - i,
    {
        if prices[i].id == key {
            return Some(i);
        }
        i = i + 1;
    }
    None
}

/// `p` with `input` applied.
fn updated_price<A: Copy>(p: &Price<A>, input: &UpdatePriceInput<A>) -> (r: Price<A>)
    ensures
        price_updated(p@, r@, *input),
{
    let mut q = p.clone();
    match input.cost_price {
        Some(c) => {
            q.cost_price = c;
        },
        None => {},
    }
    match input.sale_price {
        Some(v) => {
            q.sale_price = v;
        },
        None => {},
    }
    match &input.effective_date {
        Some(d) => {
            q.effective_date = d.clone();
        },
        None => {},
    }
    q
}

/// In-memory price storage; it answers every request.
pub struct MockPriceRepository<A> {
    pub prices: Vec<Price<A>>,
}

impl<A: Copy> MockPriceRepository<A> {
    /// An empty storage.
    pub fn new() -> (r: Self)
        ensures
            r.stored_prices() == Seq::<PriceView<A>>::empty(),
    {
        MockPriceRepository { prices: Vec::new() }
    }
}

impl<A: Copy> PriceRepository for MockPriceRepository<A> {
    type Amount = A;

    open spec fn stored_prices(&self) -> Seq<PriceView<A>> {
        price_views(self.prices@)
    }

    open spec fn healthy(&self) -> bool {
        true
    }

    fn list_by_product(&self, product_id: &str) -> (r: Result<Vec<Price<A>>, DomainError>)
        ensures
            r matches Ok(v) ==> price_views(v@) == prices_of(self.stored_prices(), product_id@),
    {
        let key = product_id.to_owned();
        let ghost s = self.stored_prices();
        let ghost p = price_of_other_product::<A>(product_id@);
        let mut out: Vec<Price<A>> = Vec::new();
        let mut i: usize = 0;
        while i < self.prices.len()
            invariant
                i <= self.prices@.len(),
                key@ == product_id@,
                s == price_views(self.prices@),
                p == price_of_other_product::<A>(product_id@),
                price_views(out@) == without(s.take(i as int), p),
            decreases self.prices@.len() - i,
        {
            proof {
                assert(s.take(i + 1) =~= s.take(i as int).push(s[i as int]));
                lemma_without_push(s.take(i as int), p, s[i as int]);
            }
            if self.prices[i].product_id == key {
                let ghost before = out@;
                out.push(self.prices[i].clone());
                proof {
                    assert(price_views(out@) =~= price_views(before).push(s[i as int]));
                }
            }
            i = i + 1;
        }
        proof {
            assert(s.take(s.len() as int) =~= s);
        }
        Ok(out)
    }

    fn find_by_id(&self, id: &str) -> (r: Result<Option<Price<A>>, DomainError>) {
        match position_of_price(&self.prices, id) {
            Some(i) => {
                proof {
                    lemma_first_match_at(self.stored_prices(), price_id_is(id@), i as int);
                }
                Ok(Some(self.prices[i].clone()))
            },
            None => {
                proof {
                    lemma_no_match(self.stored_prices(), price_id_is(id@));
                }
                Ok(None)
            },
        }
    }

    fn create(&mut self, product_id: &str, input: &CreatePriceInput<A>) -> (r: Result<Price<A>, DomainError>)
        ensures
            r matches Ok(p) ==> p.id@ == "mock-price-id"@ && p.created_at@ == mock_timestamp(),
    {
        let price = Price {
            id: String::from_str("mock-price-id"),
            product_id: product_id.to_owned(),
            cost_price: input.cost_price,
            sale_price: input.sale_price,
            effective_date: input.effective_date.clone(),
            created_at: String::from_str("2026-01-01 00:00:00"),
        };
        self.prices.push(price.clone());
        proof {
            assert(price_views(self.prices@) =~= price_views(old(self).prices@).push(price@));
        }
        Ok(price)
    }

    fn update(&mut self, id: &str, input: &UpdatePriceInput<A>) -> (r: Result<Price<A>, DomainError>)
        ensures
            !any_match(old(self).stored_prices(), price_id_is(id@))
                ==> is_not_found(r, price_not_found(id@)) && *final(self) == *old(self),
    {
        match position_of_price(&self.prices, id) {
            None => {
                proof {
                    lemma_no_match(self.stored_prices(), price_id_is(id@));
                }
                Err(DomainError::NotFound(price_not_found_message(id)))
            },
            Some(i) => {
                let p = updated_price(&self.prices[i], input);
                self.prices.set(i, p.clone());
                proof {
                    assert(price_views(self.prices@) =~= price_views(old(self).prices@).update(i as int, p@));
                    lemma_first_match_at(old(self).stored_prices(), price_id_is(id@), i as int);
                }
                Ok(p)
            },
        }
    }

    fn delete(&mut self, id: &str) -> (r: Result<(), DomainError>)
        ensures
            !any_match(old(self).stored_prices(), price_id_is(id@)) ==> is_not_found(r, price_not_found(id@)),
            r is Err ==> *final(self) == *old(self),
    {
        let key = id.to_owned();
        let ghost s = self.stored_prices();
        let ghost p = price_id_is::<A>(id@);
        let mut kept: Vec<Price<A>> = Vec::new();
        let mut i: usize = 0;
        while i < self.prices.len()
            invariant
                i <= self.prices@.len(),
                key@ == id@,
                s == price_views(self.prices@),
                p == price_id_is::<A>(id@),
                price_views(kept@) == without(s.take(i as int), p),
            decreases self.prices@.len() - i,
        {
            proof {
                assert(s.take(i + 1) =~= s.take(i as int).push(s[i as int]));
                lemma_without_push(s.take(i as int), p, s[i as int]);
            }
            if self.prices[i].id != key {
                let ghost before = kept@;
                kept.push(self.prices[i].clone());
                proof {
                    assert(price_views(kept@) =~= price_views(before).push(s[i as int]));
                }
            }
            i = i + 1;
        }
        proof {
            assert(s.take(s.len() as int) =~= s);
            lemma_without_len(s, p);
        }
        if kept.len() == self.prices.len() {
            return Err(DomainError::NotFound(price_not_found_message(id)));
        }
        self.prices = kept;
        Ok(())
    }
}


// ============================================================
// Mock Report Repository
// ============================================================

/// Copy of a sequence of sales rows.
fn clone_sales_items<A: Copy>(items: &Vec<SalesReportItem<A>>) -> (r: Vec<SalesReportItem<A>>)
    ensures
        sales_item_views(r@) == sales_item_views(items@),
{
    let mut out: Vec<SalesReportItem<A>> = Vec::new();
    let mut i: usize = 0;
    while i < items.len()
        invariant
            i <= items@.len(),
            sales_item_views(out@) =~= sales_item_views(items@).take(i as int),
        decreases items@.len() - i,
    {
        let ghost before = out@;
        out.push(items[i].clone());
        proof {
            assert(sales_item_views(out@) =~= sales_item_views(before).push(items@[i as int]@));
            assert(sales_item_views(items@).take(i + 1) =~= sales_item_views(items@).take(
                i as int,
            ).push(items@[i as int]@));
        }
        i = i + 1;
    }
    proof {
        assert(sales_item_views(items@).take(items@.len() as int) =~= sales_item_views(items@));
    }
    out
}

/// Copy of a sequence of stock rows.
fn clone_stock_items(items: &Vec<StockReportItem>) -> (r: Vec<StockReportItem>)
    ensures
        stock_item_views(r@) == stock_item_views(items@),
{
    let mut out: Vec<StockReportItem> = Vec::new();
    let mut i: usize = 0;
    while i < items.len()
        invariant
            i <= items@.len(),
            stock_item_views(out@) =~= stock_item_views(items@).take(i as int),
        decreases items@.len() - i,
    {
        let ghost before = out@;
        out.push(items[i].clone());
        proof {
            assert(stock_item_views(out@) =~= stock_item_views(before).push(items@[i as int]@));
            assert(stock_item_views(items@).take(i + 1) =~= stock_item_views(items@).take(
                i as int,
            ).push(items@[i as int]@));
        }
        i = i + 1;
    }
    proof {
        assert(stock_item_views(items@).take(items@.len() as int) =~= stock_item_views(items@));
    }
    out
}

/// Copy of a sequence of returns rows.
fn clone_return_items<A: Copy>(items: &Vec<ReturnReportItem<A>>) -> (r: Vec<ReturnReportItem<A>>)
    ensures
        return_item_views(r@) == return_item_views(items@),
{
    let mut out: Vec<ReturnReportItem<A>> = Vec::new();
    let mut i: usize = 0;
    while i < items.len()
        invariant
            i <= items@.len(),
            return_item_views(out@) =~= return_item_views(items@).take(i as int),
        decreases items@.len() - i,
    {
        let ghost before = out@;
        out.push(items[i].clone());
        proof {
            assert(return_item_views(out@) =~= return_item_views(before).push(items@[i as int]@));
            assert(return_item_views(items@).take(i + 1) =~= return_item_views(items@).take(
                i as int,
            ).push(items@[i as int]@));
        }
        i = i + 1;
    }
    proof {
        assert(return_item_views(items@).take(items@.len() as int) =~= return_item_views(items@));
    }
    out
}

/// Report rows kept in memory; every date range gives all of them.
pub struct MockReportRepository<A> {
    pub sales_items: Vec<SalesReportItem<A>>,
    pub stock_items: Vec<StockReportItem>,
    pub return_items: Vec<ReturnReportItem<A>>,
}

impl<A: Copy> MockReportRepository<A> {
    /// A source with no rows.
    pub fn new() -> (r: Self)
        ensures
            r.sales_items@.len() == 0,
            r.stock_items@.len() == 0,
            r.return_items@.len() == 0,
    {
        MockReportRepository { sales_items: Vec::new(), stock_items: Vec::new(), return_items: Vec::new() }
    }
}

impl<A: Copy> ReportRepository for MockReportRepository<A> {
    type Amount = A;

    open spec fn sales_rows(&self, start: Option<Seq<char>>, end: Option<Seq<char>>) -> Seq<SalesReportItemView<A>> {
        sales_item_views(self.sales_items@)
    }

    open spec fn stock_rows(&self) -> Seq<StockReportItemView> {
        stock_item_views(self.stock_items@)
    }

    open spec fn return_rows(&self, start: Option<Seq<char>>, end: Option<Seq<char>>) -> Seq<ReturnReportItemView<A>> {
        return_item_views(self.return_items@)
    }

    open spec fn healthy(&self) -> bool {
        true
    }

    fn sales_report(&self, filter: &ReportFilter) -> (r: Result<Vec<SalesReportItem<A>>, DomainError>) {
        Ok(clone_sales_items(&self.sales_items))
    }

    fn stock_report(&self) -> (r: Result<Vec<StockReportItem>, DomainError>) {
        Ok(clone_stock_items(&self.stock_items))
    }

    fn returns_report(&self, filter: &ReportFilter) -> (r: Result<Vec<ReturnReportItem<A>>, DomainError>) {
        Ok(clone_return_items(&self.return_items))
    }
}

} // verus!
