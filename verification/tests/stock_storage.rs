use gestor::domain::entity::stock::{CreateStockMovementInput, Stock};
use gestor::domain::error::DomainError;
use gestor::domain::port::mocks::MockStockRepository;
use gestor::domain::port::stock_repository::StockRepository;

fn stock(product_id: &str, qty: i32) -> Stock {
    Stock {
        id: format!("s-{}", product_id),
        product_id: product_id.to_string(),
        quantity: qty,
        min_quantity: 2,
        location: Some("A1".to_string()),
        updated_at: "2026-01-01 00:00:00".to_string(),
    }
}

fn quantity(repo: &MockStockRepository, product_id: &str) -> Option<i32> {
    repo.find_by_product(product_id).unwrap().map(|s| s.quantity)
}

#[test]
fn entry_then_exit_of_the_same_amount_restores_the_stock() {
    let mut repo = MockStockRepository::new();
    repo.add_stock(stock("p1", 10));
    assert_eq!(repo.atomic_increment("p1", 7).unwrap(), 17);
    assert_eq!(repo.atomic_decrement("p1", 7).unwrap(), 10);
    assert_eq!(quantity(&repo, "p1"), Some(10));
}

#[test]
fn setting_a_quantity_reads_back_and_leaves_other_products() {
    let mut repo = MockStockRepository::new();
    repo.add_stock(stock("p1", 10));
    repo.add_stock(stock("p2", 4));
    repo.update_quantity("p1", 3).unwrap();
    assert_eq!(quantity(&repo, "p1"), Some(3));
    assert_eq!(quantity(&repo, "p2"), Some(4));
    let kept = repo.find_by_product("p1").unwrap().unwrap();
    assert_eq!(kept.min_quantity, 2);
    assert_eq!(kept.location.as_deref(), Some("A1"));
}

#[test]
fn a_refused_exit_leaves_the_stock_unchanged() {
    let mut repo = MockStockRepository::new();
    repo.add_stock(stock("p1", 3));
    match repo.atomic_decrement("p1", 4) {
        Err(DomainError::BadRequest(msg)) => assert_eq!(msg, "Estoque insuficiente. Disponível: 3, Solicitado: 4"),
        other => panic!("unexpected {:?}", other),
    }
    assert_eq!(quantity(&repo, "p1"), Some(3));
    assert_eq!(repo.atomic_decrement("p1", 3).unwrap(), 0);
}

#[test]
fn a_product_without_a_record_gets_one_on_entry() {
    let mut repo = MockStockRepository::new();
    assert_eq!(quantity(&repo, "p9"), None);
    assert_eq!(repo.atomic_increment("p9", 2).unwrap(), 2);
    let s = repo.find_by_product("p9").unwrap().unwrap();
    assert_eq!((s.quantity, s.min_quantity, s.location), (2, 0, None));
    assert_eq!(repo.create_or_get("p9").unwrap(), 2);
    assert_eq!(repo.create_or_get("p8").unwrap(), 0);
}

#[test]
fn missing_record_cannot_have_its_quantity_set() {
    let mut repo = MockStockRepository::new();
    match repo.update_quantity("p1", 5) {
        Err(DomainError::NotFound(msg)) => assert_eq!(msg, "Estoque não encontrado"),
        other => panic!("unexpected {:?}", other),
    }
}

#[test]
fn recorded_movements_are_listed() {
    let mut repo = MockStockRepository::new();
    let input = CreateStockMovementInput {
        product_id: "p1".to_string(),
        movement_type: "out".to_string(),
        quantity: 2,
        reason: Some("Venda".to_string()),
        reference: Some("s1".to_string()),
    };
    let m = repo.create_movement(&input).unwrap();
    assert_eq!(m.id, "mock-movement-id");
    let listed = repo.list_movements().unwrap();
    assert_eq!(listed.len(), 1);
    assert_eq!(listed[0].reference.as_deref(), Some("s1"));
}

#[test]
fn a_refused_exit_of_a_product_without_a_record_adds_an_empty_one() {
    let mut repo = MockStockRepository::new();
    repo.add_stock(stock("p1", 3));
    match repo.atomic_decrement("p2", 1) {
        Err(DomainError::BadRequest(msg)) => assert_eq!(msg, "Estoque insuficiente. Disponível: 0, Solicitado: 1"),
        other => panic!("unexpected {:?}", other),
    }
    assert_eq!(repo.stocks.len(), 2);
    let s = repo.find_by_product("p2").unwrap().unwrap();
    assert_eq!((s.quantity, s.min_quantity, s.location), (0, 0, None));
    assert_eq!(quantity(&repo, "p1"), Some(3));
    assert!(repo.movements.is_empty());
}
