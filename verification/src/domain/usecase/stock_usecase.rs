//! Use cases on stock: lookup, setting up a product's stock, recording
//! movements (each inside one transaction), and listings.

use vstd::prelude::*;

use crate::domain::entity::product::{ProductView, product_id_is, product_not_found, product_not_found_message};
use crate::domain::entity::stock::{
    CreateStockInput, CreateStockMovementInput, LowStockProduct, Stock, StockMovement,
    ascending_by_quantity, low_stock_views,
    VALID_MOVEMENT_TYPES, insufficient_stock, low_stock_reported, movement_made_from, movement_types, movement_views,
    quantity_of, stock_made_from, stock_not_found, stock_of,
};
use crate::domain::error::{DomainError, is_bad_request, is_not_found};
use crate::domain::lookup::{
    any_match, first_match, is_first_match, lemma_first_match_at, lemma_first_match_exists,
    lemma_first_match_some_iff, lemma_no_match,
};
use crate::domain::entity::stock::{StockView, quantity_set};
use crate::domain::port::product_repository::ProductRepository;
use crate::domain::port::stock_repository::StockRepository;
use crate::domain::port::mocks::MockStockRepository;
use crate::domain::port::unit_of_work::{UnitOfWork, UnitOfWorkFactory, same_store};
use crate::domain::text::{enclose, is_one_of, one_of};

verus! {

/// A movement of `input` that quantities held as `i32` can carry: an entry
/// into the stock of an existing product does not take the quantity past
/// the largest `i32`.
pub open spec fn movement_fits(
    stocks: Seq<StockView>,
    products: Seq<ProductView>,
    input: CreateStockMovementInput,
) -> bool {
    input.quantity > 0 && input.movement_type@ == "in"@ && any_match(products, product_id_is(input.product_id@))
        ==> quantity_of(stocks, input.product_id@) + input.quantity <= i32::MAX
}

/// A quantity is given and is negative.
pub open spec fn given_negative(q: Option<i32>) -> bool {
    q matches Some(v) && v < 0
}

/// Message refusing a negative initial quantity.
pub open spec fn negative_quantity() -> Seq<char> {
    "Quantidade não pode ser negativa"@
}

/// Message refusing a negative minimum quantity.
pub open spec fn negative_min_quantity() -> Seq<char> {
    "Quantidade mínima não pode ser negativa"@
}

/// Message refusing a movement of no items or fewer.
pub open spec fn non_positive_quantity() -> Seq<char> {
    "Quantidade deve ser maior que zero"@
}

/// Message refusing an unknown kind of movement.
pub open spec fn invalid_movement_type() -> Seq<char> {
    "Tipo de movimentação inválido. Use: in, out"@
}

/// No stock record holds a negative quantity.
pub open spec fn quantities_non_negative(s: Seq<StockView>) -> bool {
    forall|i: int| 0 <= i < s.len() ==> (#[trigger] s[i]).quantity >= 0
}

/// Law: once the quantity of a product is set, it is what reading the
/// product's stock gives.
pub proof fn law_quantity_set_reads_back(before: Seq<StockView>, after: Seq<StockView>, product_id: Seq<char>, q: i32)
    requires
        quantity_set(before, after, product_id, q),
    ensures
        quantity_of(after, product_id) == q,
{
    let p = stock_of(product_id);
    if any_match(before, p) {
        let i = choose|i: int| {
            &&& is_first_match(before, p, i)
            &&& after == before.update(i, StockView { quantity: q, updated_at: after[i].updated_at, ..before[i] })
        };
        assert forall|j: int| 0 <= j < i implies !p(#[trigger] after[j]) by {
            assert(after[j] == before[j]);
        }
        lemma_first_match_at(after, p, i);
    } else {
        let z = choose|z: StockView| {
            &&& z.product_id == product_id
            &&& z.quantity == q
            &&& z.min_quantity == 0
            &&& z.location == None::<Seq<char>>
            &&& after == before.push(z)
        };
        assert forall|j: int| 0 <= j < before.len() implies !p(#[trigger] after[j]) by {
            assert(after[j] == before[j]);
            if p(before[j]) {
                assert(any_match(before, p));
            }
        }
        lemma_first_match_at(after, p, before.len() as int);
    }
}

/// Law: setting the quantity of a product leaves the quantity of every
/// other product as it was.
pub proof fn law_quantity_set_leaves_others(
    before: Seq<StockView>,
    after: Seq<StockView>,
    product_id: Seq<char>,
    other: Seq<char>,
    q: i32,
)
    requires
        quantity_set(before, after, product_id, q),
        other != product_id,
    ensures
        quantity_of(after, other) == quantity_of(before, other),
{
    let p = stock_of(product_id);
    let o = stock_of(other);
    let changed: int = if any_match(before, p) {
        choose|i: int| {
            &&& is_first_match(before, p, i)
            &&& after == before.update(i, StockView { quantity: q, updated_at: after[i].updated_at, ..before[i] })
        }
    } else {
        before.len() as int
    };
    if !any_match(before, p) {
        let z = choose|z: StockView| {
            &&& z.product_id == product_id
            &&& z.quantity == q
            &&& z.min_quantity == 0
            &&& z.location == None::<Seq<char>>
            &&& after == before.push(z)
        };
        assert(after[changed] == z);
    }
    assert(after[changed].product_id == product_id);
    assert(!o(after[changed]));
    assert forall|j: int| 0 <= j < after.len() && j != changed implies #[trigger] after[j] == before[j] by {}
    if any_match(before, o) {
        lemma_first_match_exists(before, o);
        let k = crate::domain::lookup::first_match_index(before, o);
        assert(k != changed);
        assert forall|j: int| 0 <= j < k implies !o(#[trigger] after[j]) by {
            if j != changed {
                assert(after[j] == before[j]);
            }
        }
        assert(after[k] == before[k]);
        lemma_first_match_at(after, o, k);
    } else {
        assert forall|j: int| 0 <= j < after.len() implies !o(#[trigger] after[j]) by {
            if j != changed {
                assert(after[j] == before[j]);
                if o(before[j]) {
                    assert(any_match(before, o));
                }
            }
        }
        lemma_no_match(after, o);
        assert forall|j: int| 0 <= j < before.len() implies !o(#[trigger] before[j]) by {
            if o(before[j]) {
                assert(any_match(before, o));
            }
        }
        lemma_no_match(before, o);
    }
}

/// Law: an entry of `d` items followed by an exit of `d` items leaves the
/// product with the quantity it had before.
pub proof fn law_entry_then_exit_restores(
    s0: Seq<StockView>,
    s1: Seq<StockView>,
    s2: Seq<StockView>,
    product_id: Seq<char>,
    d: i32,
    q1: i32,
    q2: i32,
)
    requires
        q1 == quantity_of(s0, product_id) + d,
        quantity_set(s0, s1, product_id, q1),
        q2 == quantity_of(s1, product_id) - d,
        quantity_set(s1, s2, product_id, q2),
    ensures
        quantity_of(s2, product_id) == quantity_of(s0, product_id),
{
    law_quantity_set_reads_back(s0, s1, product_id, q1);
    law_quantity_set_reads_back(s1, s2, product_id, q2);
}

/// Law: an exit that the stock covers never leaves a negative quantity, so
/// stock that holds no negative quantity keeps holding none.
pub proof fn law_exit_keeps_stock_non_negative(
    before: Seq<StockView>,
    after: Seq<StockView>,
    product_id: Seq<char>,
    delta: i32,
    q: i32,
)
    requires
        quantities_non_negative(before),
        quantity_of(before, product_id) >= delta,
        q == quantity_of(before, product_id) - delta,
        quantity_set(before, after, product_id, q),
    ensures
        q >= 0,
        quantities_non_negative(after),
{
    let p = stock_of(product_id);
    if any_match(before, p) {
        let i = choose|i: int| {
            &&& is_first_match(before, p, i)
            &&& after == before.update(i, StockView { quantity: q, updated_at: after[i].updated_at, ..before[i] })
        };
        lemma_first_match_at(before, p, i);
        assert(quantity_of(before, product_id) == before[i].quantity);
        assert forall|j: int| 0 <= j < after.len() implies (#[trigger] after[j]).quantity >= 0 by {
            if j != i {
                assert(after[j] == before[j]);
            }
        }
    } else {
        assert forall|j: int| 0 <= j < before.len() implies !p(#[trigger] before[j]) by {
            if p(before[j]) {
                assert(any_match(before, p));
            }
        }
        lemma_no_match(before, p);
        let z = choose|z: StockView| {
            &&& z.product_id == product_id
            &&& z.quantity == q
            &&& z.min_quantity == 0
            &&& z.location == None::<Seq<char>>
            &&& after == before.push(z)
        };
        assert forall|j: int| 0 <= j < after.len() implies (#[trigger] after[j]).quantity >= 0 by {
            if j < before.len() {
                assert(after[j] == before[j]);
            }
        }
    }
}

/// Operations on stock.
pub struct StockUseCase<S: StockRepository, P: ProductRepository, F: UnitOfWorkFactory> {
    repo: S,
    product_repo: P,
    uow_factory: F,
}

impl<S: StockRepository, P: ProductRepository, F: UnitOfWorkFactory> StockUseCase<S, P, F> {
    /// The stock storage the use case works on.
    pub closed spec fn repository(&self) -> S {
        self.repo
    }

    /// The product storage the use case consults.
    pub closed spec fn product_repository(&self) -> P {
        self.product_repo
    }

    /// The source of the transactions in which movements are recorded.
    pub closed spec fn uow_factory(&self) -> F {
        self.uow_factory
    }

    pub fn new(repo: S, product_repo: P, uow_factory: F) -> (r: Self)
        ensures
            r.repository() == repo,
            r.product_repository() == product_repo,
            r.uow_factory() == uow_factory,
    {
        StockUseCase { repo, product_repo, uow_factory }
    }

    /// The source of the transactions, for inspection.
    pub fn uow_store(&self) -> (r: &F)
        ensures
            *r == self.uow_factory(),
    {
        &self.uow_factory
    }

    /// The first stock record of the product; `NotFound` when it has none.
    pub fn get_by_product(&self, product_id: &str) -> (r: Result<Stock, DomainError>)
        ensures
            r matches Ok(s) ==> Some(s@) == first_match(
                self.repository().stored_stocks(),
                stock_of(product_id@),
            ),
            !any_match(self.repository().stored_stocks(), stock_of(product_id@)) ==> r is Err,
            self.repository().healthy() ==> {
                &&& any_match(self.repository().stored_stocks(), stock_of(product_id@)) ==> r is Ok
                &&& !any_match(self.repository().stored_stocks(), stock_of(product_id@))
                    ==> is_not_found(r, stock_not_found(product_id@))
            },
    {
        proof {
            lemma_first_match_some_iff(self.repo.stored_stocks(), stock_of(product_id@));
        }
        match self.repo.find_by_product(product_id)? {
            Some(s) => Ok(s),
            None => Err(DomainError::NotFound(enclose("Estoque do produto '", product_id, "' não encontrado"))),
        }
    }

    /// Sets up the stock of an existing product; quantities given must not
    /// be negative.
    pub fn create(&mut self, input: CreateStockInput) -> (r: Result<Stock, DomainError>)
        ensures
            given_negative(input.quantity) ==> {
                &&& is_bad_request(r, negative_quantity())
                &&& final(self).repository() == old(self).repository()
            },
            !given_negative(input.quantity) && given_negative(input.min_quantity) ==> {
                &&& is_bad_request(r, negative_min_quantity())
                &&& final(self).repository() == old(self).repository()
            },
            !any_match(old(self).product_repository().stored_products(), product_id_is(input.product_id@)) ==> {
                &&& r is Err
                &&& final(self).repository() == old(self).repository()
            },
            !given_negative(input.quantity) && !given_negative(input.min_quantity)
                && old(self).product_repository().healthy() ==> {
                &&& !any_match(old(self).product_repository().stored_products(), product_id_is(input.product_id@))
                    ==> is_not_found(r, product_not_found(input.product_id@))
                &&& any_match(old(self).product_repository().stored_products(), product_id_is(input.product_id@))
                    && old(self).repository().healthy() ==> r is Ok
            },
            r matches Ok(s) ==> {
                &&& stock_made_from(s@, input)
                &&& final(self).repository().stored_stocks() == old(self).repository().stored_stocks().push(s@)
                &&& final(self).repository().stored_movements() == old(self).repository().stored_movements()
            },
            final(self).product_repository() == old(self).product_repository(),
            final(self).uow_factory() == old(self).uow_factory(),
    {
        match input.quantity {
            Some(q) => {
                if q < 0 {
                    return Err(DomainError::BadRequest(String::from_str("Quantidade não pode ser negativa")));
                }
            },
            None => {},
        }
        match input.min_quantity {
            Some(m) => {
                if m < 0 {
                    return Err(DomainError::BadRequest(String::from_str("Quantidade mínima não pode ser negativa")));
                }
            },
            None => {},
        }
        if !self.product_repo.exists_by_id(input.product_id.as_str())? {
            return Err(DomainError::NotFound(product_not_found_message(input.product_id.as_str())));
        }
        self.repo.create(&input)
    }

    /// What recording a movement of `input` does, from `before` to `after`,
    /// with result `r` (see `create_movement`).
    pub open spec fn movement_outcome(
        before: Self,
        after: Self,
        input: CreateStockMovementInput,
        r: Result<StockMovement, DomainError>,
    ) -> bool {
        let products = before.product_repository().stored_products();
        let store = before.uow_factory();
        let pid = input.product_id@;
        let q0 = quantity_of(store.stored_stocks(), pid);
        &&& input.quantity <= 0 ==> is_bad_request(r, non_positive_quantity())
        &&& input.quantity > 0 && !one_of(input.movement_type@, movement_types())
            ==> is_bad_request(r, invalid_movement_type())
        &&& input.quantity > 0 && one_of(input.movement_type@, movement_types()) ==> {
            &&& !any_match(products, product_id_is(pid)) ==> r is Err
            &&& before.product_repository().healthy() && !any_match(products, product_id_is(pid))
                ==> is_not_found(r, product_not_found(pid))
            &&& input.movement_type@ == "out"@ && q0 < input.quantity ==> r is Err
            &&& before.product_repository().healthy() && store.healthy() && any_match(products, product_id_is(pid)) ==> {
                &&& input.movement_type@ == "in"@ ==> r is Ok
                &&& input.movement_type@ == "out"@ && q0 >= input.quantity ==> r is Ok
                &&& input.movement_type@ == "out"@ && q0 < input.quantity
                    ==> is_bad_request(r, insufficient_stock(q0, input.quantity as int))
            }
        }
        &&& r matches Ok(m) ==> {
            &&& movement_made_from(m@, input)
            &&& input.quantity > 0
            &&& one_of(input.movement_type@, movement_types())
            &&& any_match(products, product_id_is(pid))
            &&& input.movement_type@ == "out"@ ==> q0 >= input.quantity
            &&& after.uow_factory().last_commit() matches Some(c) && {
                &&& input.movement_type@ == "in"@ ==> quantity_set(
                    store.stored_stocks(),
                    c.stocks,
                    pid,
                    (q0 + input.quantity) as i32,
                )
                &&& input.movement_type@ == "out"@ ==> quantity_set(
                    store.stored_stocks(),
                    c.stocks,
                    pid,
                    (q0 - input.quantity) as i32,
                )
                &&& c.movements == store.stored_movements().push(m@)
                &&& c.sales == store.stored_sales()
                &&& c.products == store.stored_products()
                &&& input.movement_type@ == "out"@ && quantities_non_negative(store.stored_stocks())
                    ==> quantities_non_negative(c.stocks)
            }
        }
        &&& r is Err ==> same_store(after.uow_factory(), store)
        &&& after.uow_factory().healthy() == store.healthy()
        &&& after.repository() == before.repository()
        &&& after.product_repository() == before.product_repository()
    }

    /// Law: an entry of `d` items into a product's stock that `create_movement`
    /// accepted, followed by an accepted exit of `d` items of the same
    /// product from what the entry committed, commits the product's quantity
    /// as it was before the entry.
    pub proof fn law_movement_undone_by_its_opposite(
        u0: Self,
        u1: Self,
        u2: Self,
        entry: CreateStockMovementInput,
        exit: CreateStockMovementInput,
        m1: StockMovement,
        m2: StockMovement,
    )
        requires
            movement_fits(u0.uow_factory().stored_stocks(), u0.product_repository().stored_products(), entry),
            Self::movement_outcome(u0, u1, entry, Ok(m1)),
            u1.uow_factory().last_commit() matches Some(c1) && u1.uow_factory().stored_stocks() == c1.stocks,
            Self::movement_outcome(u1, u2, exit, Ok(m2)),
            entry.movement_type@ == "in"@,
            exit.movement_type@ == "out"@,
            exit.product_id@ == entry.product_id@,
            exit.quantity == entry.quantity,
        ensures
            u2.uow_factory().last_commit() matches Some(c2) && quantity_of(c2.stocks, entry.product_id@)
                == quantity_of(u0.uow_factory().stored_stocks(), entry.product_id@),
    {
        let pid = entry.product_id@;
        let q0 = quantity_of(u0.uow_factory().stored_stocks(), pid);
        let c1 = u1.uow_factory().last_commit()->0;
        let c2 = u2.uow_factory().last_commit()->0;
        law_quantity_set_reads_back(u0.uow_factory().stored_stocks(), c1.stocks, pid, (q0 + entry.quantity) as i32);
        let q1 = quantity_of(u1.uow_factory().stored_stocks(), pid);
        law_quantity_set_reads_back(u1.uow_factory().stored_stocks(), c2.stocks, pid, (q1 - exit.quantity) as i32);
    }

    /// Records a movement of stock: the quantity must be positive, the kind
    /// "in" or "out", and the product must exist. Inside one transaction the
    /// stock is raised ("in") or lowered ("out", refused when there is not
    /// enough) and the movement is recorded; the transaction is rolled back
    /// when a step fails and committed otherwise, so the stock change and the
    /// movement are stored together or not at all.
    pub fn create_movement(&mut self, input: CreateStockMovementInput) -> (r: Result<StockMovement, DomainError>)
        requires
            movement_fits(
                old(self).uow_factory().stored_stocks(),
                old(self).product_repository().stored_products(),
                input,
            ),
        ensures
            Self::movement_outcome(*old(self), *final(self), input, r),
    {
        if input.quantity <= 0 {
            return Err(DomainError::BadRequest(String::from_str("Quantidade deve ser maior que zero")));
        }
        let types: &[&str] = &VALID_MOVEMENT_TYPES;
        proof {
            reveal_strlit("in");
            reveal_strlit("out");
            assert(types@ == movement_types());
        }
        if !is_one_of(input.movement_type.as_str(), types) {
            return Err(DomainError::BadRequest(String::from_str("Tipo de movimentação inválido. Use: in, out")));
        }
        proof {
            let k = choose|k: int| 0 <= k < types@.len() && (#[trigger] types@[k])@ == input.movement_type@;
            assert(k == 0 || k == 1);
            assert(input.movement_type@ == "in"@ || input.movement_type@ == "out"@);
            assert("in"@ != "out"@) by {
                assert("in"@.len() != "out"@.len());
            }
        }
        if !self.product_repo.exists_by_id(input.product_id.as_str())? {
            return Err(DomainError::NotFound(product_not_found_message(input.product_id.as_str())));
        }
        let mut uow = self.uow_factory.begin()?;
        let ghost stocks0 = uow.stock_repo().stored_stocks();
        let ghost q0 = quantity_of(stocks0, input.product_id@);
        let entry = String::from_str("in");
        if input.movement_type == entry {
            match uow.stocks().atomic_increment(input.product_id.as_str(), input.quantity) {
                Ok(_) => {},
                Err(e) => {
                    let _ = self.uow_factory.rollback(uow);
                    return Err(e);
                },
            }
        } else {
            match uow.stocks().atomic_decrement(input.product_id.as_str(), input.quantity) {
                Ok(_) => {},
                Err(e) => {
                    let _ = self.uow_factory.rollback(uow);
                    return Err(e);
                },
            }
            proof {
                if quantities_non_negative(stocks0) {
                    law_exit_keeps_stock_non_negative(
                        stocks0,
                        uow.stock_repo().stored_stocks(),
                        input.product_id@,
                        input.quantity,
                        (q0 - input.quantity) as i32,
                    );
                }
            }
        }
        let movement = match uow.stocks().create_movement(&input) {
            Ok(m) => m,
            Err(e) => {
                let _ = self.uow_factory.rollback(uow);
                return Err(e);
            },
        };
        self.uow_factory.commit(uow)?;
        Ok(movement)
    }

    /// Records a movement as `create_movement` does, unless it is an entry
    /// into the stock of an existing product that would take the stock past
    /// the largest `i32`; then nothing is recorded and the result is `None`.
    /// The stock is read first (`create_or_get`), in a transaction that is
    /// rolled back; a failure to check the product or to read the stock is
    /// the result.
    pub fn create_movement_within_range(&mut self, input: CreateStockMovementInput) -> (r: Option<
        Result<StockMovement, DomainError>,
    >)
        ensures
            r is None ==> {
                &&& !movement_fits(
                    old(self).uow_factory().stored_stocks(),
                    old(self).product_repository().stored_products(),
                    input,
                )
                &&& same_store(final(self).uow_factory(), old(self).uow_factory())
                &&& final(self).uow_factory().healthy() == old(self).uow_factory().healthy()
                &&& final(self).repository() == old(self).repository()
                &&& final(self).product_repository() == old(self).product_repository()
            },
            old(self).uow_factory().healthy() && old(self).product_repository().healthy() && !movement_fits(
                old(self).uow_factory().stored_stocks(),
                old(self).product_repository().stored_products(),
                input,
            ) ==> r is None,
            movement_fits(
                old(self).uow_factory().stored_stocks(),
                old(self).product_repository().stored_products(),
                input,
            ) ==> r is Some,
            r matches Some(x) ==> Self::movement_outcome(*old(self), *final(self), input, x),
    {
        if input.quantity <= 0 {
            return Some(self.create_movement(input));
        }
        let entry = String::from_str("in");
        if input.movement_type != entry {
            return Some(self.create_movement(input));
        }
        proof {
            reveal_strlit("in");
            reveal_strlit("out");
            assert("in"@ != "out"@) by {
                assert("in"@.len() != "out"@.len());
            }
        }
        match self.product_repo.exists_by_id(input.product_id.as_str()) {
            Ok(true) => {},
            Ok(false) => {
                return Some(self.create_movement(input));
            },
            Err(e) => {
                return Some(Err(e));
            },
        }
        let probe = self.uow_factory.begin();
        let mut probe = match probe {
            Ok(w) => w,
            Err(e) => {
                return Some(Err(e));
            },
        };
        let found = probe.stocks().create_or_get(input.product_id.as_str());
        let _ = self.uow_factory.rollback(probe);
        let current: i64 = match found {
            Ok(q) => q as i64,
            Err(e) => {
                return Some(Err(e));
            },
        };
        if current + (input.quantity as i64) > 2147483647i64 {
            return None;
        }
        Some(self.create_movement(input))
    }

    /// All recorded movements.
    pub fn list_movements(&self) -> (r: Result<Vec<StockMovement>, DomainError>)
        ensures
            self.repository().healthy() ==> r is Ok,
            r matches Ok(v) ==> movement_views(v@).to_multiset()
                == self.repository().stored_movements().to_multiset(),
            r matches Ok(v) ==> movement_views(v@) == self.repository().listed_movements(),
    {
        self.repo.list_movements()
    }

    /// Products whose stock is below their minimum, in ascending order
    /// of quantity: the list the storage reports.
    pub fn list_low_stock(&self) -> (r: Result<Vec<LowStockProduct>, DomainError>)
        ensures
            self.repository().healthy() ==> r is Ok,
            r matches Ok(v) ==> {
                &&& low_stock_views(v@) == self.repository().low_stock_rows()
                &&& low_stock_reported(self.repository().stored_stocks(), v@)
                &&& ascending_by_quantity(low_stock_views(v@))
            },
    {
        self.repo.list_low_stock()
    }
}

/// Law: `list_movements` gives the movements exactly as the storage lists them: as
/// many, and each at its place, so none is left out, added or moved.
pub proof fn law_list_movements_keeps_the_storage_order<S: StockRepository, P: ProductRepository, F: UnitOfWorkFactory>(
    uc: StockUseCase<S, P, F>,
    r: Result<Vec<StockMovement>, DomainError>,
    i: int,
)
    requires
        call_ensures(StockUseCase::<S, P, F>::list_movements, (&uc,), r),
    ensures
        r matches Ok(v) ==> v@.len() == uc.repository().listed_movements().len(),
        r matches Ok(v) ==> (0 <= i < v@.len() ==> v@[i]@ == uc.repository().listed_movements()[i]),
{
    if r is Ok {
        let v = r->Ok_0;
        assert(movement_views(v@).len() == v@.len());
        if 0 <= i < v@.len() {
            assert(movement_views(v@)[i] == v@[i]@);
        }
    }
}

/// Law: with the in-memory storage, `list_movements` gives the movements in the order
/// they are stored (recording order), each at its place.
pub proof fn law_in_memory_list_movements_is_the_stored_order<P: ProductRepository, F: UnitOfWorkFactory>(
    uc: StockUseCase<MockStockRepository, P, F>,
    r: Result<Vec<StockMovement>, DomainError>,
)
    requires
        call_ensures(StockUseCase::<MockStockRepository, P, F>::list_movements, (&uc,), r),
    ensures
        r matches Ok(v) ==> movement_views(v@) == uc.repository().stored_movements(),
{
}

} // verus!
