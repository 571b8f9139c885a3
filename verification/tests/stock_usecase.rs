use gestor::domain::entity::product::Product;
use gestor::domain::entity::stock::{CreateStockInput, CreateStockMovementInput, Stock};
use gestor::domain::error::DomainError;
use gestor::domain::port::mocks::{MockProductRepository, MockSaleRepository, MockStockRepository, MockUnitOfWorkFactory};
use gestor::domain::usecase::stock_usecase::StockUseCase;

type Uc = StockUseCase<MockStockRepository, MockProductRepository, MockUnitOfWorkFactory<f64>>;

fn sample_product(id: &str) -> Product {
    Product {
        id: id.to_string(),
        name: "Produto".to_string(),
        description: None,
        sku: format!("SKU-{}", id),
        brand: None,
        status: "available".to_string(),
        created_at: "2026-01-01 00:00:00".to_string(),
        updated_at: "2026-01-01 00:00:00".to_string(),
    }
}

fn sample_stock(product_id: &str, qty: i32) -> Stock {
    Stock {
        id: "stock-1".to_string(),
        product_id: product_id.to_string(),
        quantity: qty,
        min_quantity: 5,
        location: None,
        updated_at: "2026-01-01 00:00:00".to_string(),
    }
}

/// A use case whose own storages hold `stocks` and `products`; its
/// transactions start from empty storages.
fn make_uc(stocks: Vec<Stock>, products: Vec<Product>) -> Uc {
    let mut stock_repo = MockStockRepository::new();
    for s in stocks {
        stock_repo.stocks.push(s);
    }
    let mut prod_repo = MockProductRepository::new();
    prod_repo.with_products(products);
    let uow_factory = MockUnitOfWorkFactory::new(MockProductRepository::new(), MockStockRepository::new(), MockSaleRepository::new());
    StockUseCase::new(stock_repo, prod_repo, uow_factory)
}

/// A use case that knows `products`, whose transactions start from `stocks`.
fn make_uc_with_uow_data(products: Vec<Product>, stocks: Vec<Stock>) -> Uc {
    let mut prod_repo = MockProductRepository::new();
    prod_repo.with_products(products);
    let mut uow_stock_repo = MockStockRepository::new();
    for s in stocks {
        uow_stock_repo.stocks.push(s);
    }
    let uow_factory = MockUnitOfWorkFactory::new(MockProductRepository::new(), uow_stock_repo, MockSaleRepository::new());
    StockUseCase::new(MockStockRepository::new(), prod_repo, uow_factory)
}

#[test]
fn test_get_by_product_found() {
    let mut uc = make_uc(vec![sample_stock("p1", 100)], vec![]);
    let stock = uc.get_by_product("p1").unwrap();
    assert_eq!(stock.quantity, 100);
}

#[test]
fn test_get_by_product_not_found() {
    let mut uc = make_uc(vec![], vec![]);
    let err = uc.get_by_product("nonexistent").unwrap_err();
    match err {
        DomainError::NotFound(msg) => assert!(msg.contains("nonexistent")),
        _ => panic!("Esperava NotFound"),
    }
}

#[test]
fn test_create_stock_ok() {
    let mut uc = make_uc(vec![], vec![sample_product("p1")]);
    let input = CreateStockInput {
        product_id: "p1".to_string(),
        quantity: Some(50),
        min_quantity: Some(10),
        location: Some("Prateleira A1".to_string()),
    };
    let stock = uc.create(input).unwrap();
    assert_eq!(stock.quantity, 50);
}

#[test]
fn test_create_stock_product_not_found() {
    let mut uc = make_uc(vec![], vec![]);
    let input = CreateStockInput {
        product_id: "nonexistent".to_string(),
        quantity: Some(50),
        min_quantity: Some(10),
        location: None,
    };
    let err = uc.create(input).unwrap_err();
    match err {
        DomainError::NotFound(msg) => assert!(msg.contains("nonexistent")),
        _ => panic!("Esperava NotFound"),
    }
}

#[test]
fn test_create_stock_negative_quantity() {
    let mut uc = make_uc(vec![], vec![sample_product("p1")]);
    let input = CreateStockInput { product_id: "p1".to_string(), quantity: Some(-5), min_quantity: None, location: None };
    let err = uc.create(input).unwrap_err();
    match err {
        DomainError::BadRequest(msg) => assert!(msg.contains("negativa")),
        _ => panic!("Esperava BadRequest, got {:?}", err),
    }
}

#[test]
fn test_create_stock_negative_min_quantity() {
    let mut uc = make_uc(vec![], vec![sample_product("p1")]);
    let input = CreateStockInput { product_id: "p1".to_string(), quantity: None, min_quantity: Some(-3), location: None };
    let err = uc.create(input).unwrap_err();
    match err {
        DomainError::BadRequest(msg) => assert!(msg.contains("mínima")),
        _ => panic!("Esperava BadRequest, got {:?}", err),
    }
}

#[test]
fn test_create_movement_in_ok() {
    let mut uc = make_uc_with_uow_data(vec![sample_product("p1")], vec![sample_stock("p1", 10)]);
    let input = CreateStockMovementInput {
        product_id: "p1".to_string(),
        movement_type: "in".to_string(),
        quantity: 5,
        reason: Some("Reposição".to_string()),
        reference: None,
    };
    let movement = uc.create_movement(input).unwrap();
    assert_eq!(movement.movement_type, "in");
    assert_eq!(movement.quantity, 5);
}

#[test]
fn test_create_movement_out_ok() {
    let mut uc = make_uc_with_uow_data(vec![sample_product("p1")], vec![sample_stock("p1", 100)]);
    let input = CreateStockMovementInput {
        product_id: "p1".to_string(),
        movement_type: "out".to_string(),
        quantity: 10,
        reason: None,
        reference: None,
    };
    let movement = uc.create_movement(input).unwrap();
    assert_eq!(movement.movement_type, "out");
}

#[test]
fn test_create_movement_out_insufficient() {
    let mut uc = make_uc_with_uow_data(vec![sample_product("p1")], vec![sample_stock("p1", 5)]);
    let input = CreateStockMovementInput {
        product_id: "p1".to_string(),
        movement_type: "out".to_string(),
        quantity: 50,
        reason: None,
        reference: None,
    };
    let err = uc.create_movement(input).unwrap_err();
    match err {
        DomainError::BadRequest(msg) => assert!(msg.contains("insuficiente")),
        _ => panic!("Esperava BadRequest, got {:?}", err),
    }
}

#[test]
fn test_create_movement_invalid_quantity() {
    let mut uc = make_uc(vec![], vec![]);
    let input = CreateStockMovementInput {
        product_id: "p1".to_string(),
        movement_type: "in".to_string(),
        quantity: 0,
        reason: None,
        reference: None,
    };
    let err = uc.create_movement(input).unwrap_err();
    match err {
        DomainError::BadRequest(msg) => assert!(msg.contains("maior que zero")),
        _ => panic!("Esperava BadRequest"),
    }
}

#[test]
fn test_create_movement_invalid_type() {
    let mut uc = make_uc(vec![], vec![]);
    let input = CreateStockMovementInput {
        product_id: "p1".to_string(),
        movement_type: "invalid".to_string(),
        quantity: 5,
        reason: None,
        reference: None,
    };
    let err = uc.create_movement(input).unwrap_err();
    match err {
        DomainError::BadRequest(msg) => assert!(msg.contains("Tipo de movimentação")),
        _ => panic!("Esperava BadRequest"),
    }
}

#[test]
fn test_create_movement_product_not_found() {
    let mut uc = make_uc(vec![], vec![]);
    let input = CreateStockMovementInput {
        product_id: "nonexistent".to_string(),
        movement_type: "in".to_string(),
        quantity: 5,
        reason: None,
        reference: None,
    };
    let err = uc.create_movement(input).unwrap_err();
    match err {
        DomainError::NotFound(msg) => assert!(msg.contains("nonexistent")),
        _ => panic!("Esperava NotFound, got {:?}", err),
    }
}

#[test]
fn test_list_movements() {
    let mut uc = make_uc(vec![], vec![]);
    assert!(uc.list_movements().unwrap().is_empty());
}

#[test]
fn test_list_low_stock() {
    let mut uc = make_uc(vec![], vec![]);
    assert!(uc.list_low_stock().unwrap().is_empty());
}

// ---- further cases ----

#[test]
fn insufficient_stock_message_gives_both_quantities() {
    let mut uc = make_uc_with_uow_data(vec![sample_product("p1")], vec![sample_stock("p1", 5)]);
    let input = CreateStockMovementInput {
        product_id: "p1".to_string(),
        movement_type: "out".to_string(),
        quantity: 50,
        reason: None,
        reference: None,
    };
    match uc.create_movement(input).unwrap_err() {
        DomainError::BadRequest(msg) => assert_eq!(msg, "Estoque insuficiente. Disponível: 5, Solicitado: 50"),
        e => panic!("unexpected {:?}", e),
    }
}

#[test]
fn exit_of_the_whole_stock_is_accepted() {
    let mut uc = make_uc_with_uow_data(vec![sample_product("p1")], vec![sample_stock("p1", 7)]);
    let input = CreateStockMovementInput {
        product_id: "p1".to_string(),
        movement_type: "out".to_string(),
        quantity: 7,
        reason: Some("Venda".to_string()),
        reference: Some("s1".to_string()),
    };
    let m = uc.create_movement(input).unwrap();
    assert_eq!(m.quantity, 7);
    assert_eq!(m.product_id, "p1");
    assert_eq!(m.reason.as_deref(), Some("Venda"));
    assert_eq!(m.reference.as_deref(), Some("s1"));
}

#[test]
fn exit_from_a_product_without_stock_is_refused() {
    let mut uc = make_uc_with_uow_data(vec![sample_product("p1")], vec![]);
    let input = CreateStockMovementInput {
        product_id: "p1".to_string(),
        movement_type: "out".to_string(),
        quantity: 1,
        reason: None,
        reference: None,
    };
    match uc.create_movement(input).unwrap_err() {
        DomainError::BadRequest(msg) => assert_eq!(msg, "Estoque insuficiente. Disponível: 0, Solicitado: 1"),
        e => panic!("unexpected {:?}", e),
    }
}

#[test]
fn entry_for_a_product_without_stock_is_accepted() {
    let mut uc = make_uc_with_uow_data(vec![sample_product("p1")], vec![]);
    let input = CreateStockMovementInput {
        product_id: "p1".to_string(),
        movement_type: "in".to_string(),
        quantity: 3,
        reason: None,
        reference: None,
    };
    assert_eq!(uc.create_movement(input).unwrap().quantity, 3);
}

#[test]
fn negative_quantity_is_checked_before_the_kind() {
    let mut uc = make_uc(vec![], vec![]);
    let input = CreateStockMovementInput {
        product_id: "p1".to_string(),
        movement_type: "sideways".to_string(),
        quantity: -1,
        reason: None,
        reference: None,
    };
    match uc.create_movement(input).unwrap_err() {
        DomainError::BadRequest(msg) => assert_eq!(msg, "Quantidade deve ser maior que zero"),
        e => panic!("unexpected {:?}", e),
    }
}

#[test]
fn stock_not_found_message_is_exact() {
    let mut uc = make_uc(vec![], vec![]);
    match uc.get_by_product("p7").unwrap_err() {
        DomainError::NotFound(msg) => assert_eq!(msg, "Estoque do produto 'p7' não encontrado"),
        e => panic!("unexpected {:?}", e),
    }
}

#[test]
fn created_stock_defaults_and_is_read_back() {
    let mut uc = make_uc(vec![], vec![sample_product("p1")]);
    let input = CreateStockInput { product_id: "p1".to_string(), quantity: None, min_quantity: None, location: None };
    let s = uc.create(input).unwrap();
    assert_eq!(s.quantity, 0);
    assert_eq!(s.product_id, "p1");
    assert_eq!(uc.get_by_product("p1").unwrap().quantity, 0);
}

#[test]
fn negative_quantity_is_reported_before_negative_minimum() {
    let mut uc = make_uc(vec![], vec![]);
    let input = CreateStockInput { product_id: "p1".to_string(), quantity: Some(-1), min_quantity: Some(-1), location: None };
    match uc.create(input).unwrap_err() {
        DomainError::BadRequest(msg) => assert_eq!(msg, "Quantidade não pode ser negativa"),
        e => panic!("unexpected {:?}", e),
    }
}

#[test]
fn movements_recorded_in_the_storage_are_listed() {
    let mut stock_repo = MockStockRepository::new();
    stock_repo.movements.push(gestor::domain::entity::stock::StockMovement {
        id: "m1".to_string(),
        product_id: "p1".to_string(),
        movement_type: "in".to_string(),
        quantity: 4,
        reason: None,
        reference: None,
        created_at: "2026-01-01 00:00:00".to_string(),
    });
    let uow_factory: MockUnitOfWorkFactory<f64> = MockUnitOfWorkFactory::new(MockProductRepository::new(), MockStockRepository::new(), MockSaleRepository::new());
    let uc = StockUseCase::new(stock_repo, MockProductRepository::new(), uow_factory);
    let listed = uc.list_movements().unwrap();
    assert_eq!(listed.len(), 1);
    assert_eq!(listed[0].id, "m1");
    assert_eq!(listed[0].quantity, 4);
}

fn movement(kind: &str, quantity: i32) -> CreateStockMovementInput {
    CreateStockMovementInput {
        product_id: "p1".to_string(),
        movement_type: kind.to_string(),
        quantity,
        reason: None,
        reference: None,
    }
}

#[test]
fn committed_movements_carry_the_stock_change() {
    let mut uc = make_uc_with_uow_data(vec![sample_product("p1")], vec![sample_stock("p1", 10)]);
    let m = uc.create_movement(movement("in", 5)).unwrap();
    let work = uc.uow_store().last_commit.as_ref().unwrap();
    assert_eq!(work.stock_repo.stocks[0].quantity, 15);
    assert_eq!(work.stock_repo.movements.len(), 1);
    assert_eq!(work.stock_repo.movements[0].movement_type, m.movement_type);
    uc.create_movement(movement("out", 4)).unwrap();
    let work = uc.uow_store().last_commit.as_ref().unwrap();
    assert_eq!(work.stock_repo.stocks[0].quantity, 6);
    assert!(uc.uow_store().committed);
    assert_eq!(uc.uow_store().stock_repo.stocks[0].quantity, 10);
}

#[test]
fn refused_exit_commits_nothing() {
    let mut uc = make_uc_with_uow_data(vec![sample_product("p1")], vec![sample_stock("p1", 2)]);
    assert!(uc.create_movement(movement("out", 5)).is_err());
    assert!(uc.uow_store().last_commit.is_none());
    assert!(uc.uow_store().rolled_back);
    assert!(!uc.uow_store().committed);
    assert_eq!(uc.uow_store().stock_repo.stocks[0].quantity, 2);
}

#[test]
fn entry_past_the_largest_quantity_is_not_recorded() {
    let mut uc = make_uc_with_uow_data(vec![sample_product("p1")], vec![sample_stock("p1", i32::MAX - 1)]);
    assert!(uc.create_movement_within_range(movement("in", 2)).is_none());
    assert!(uc.uow_store().last_commit.is_none());
    let m = uc.create_movement_within_range(movement("in", 1)).unwrap().unwrap();
    assert_eq!(m.quantity, 1);
    let work = uc.uow_store().last_commit.as_ref().unwrap();
    assert_eq!(work.stock_repo.stocks[0].quantity, i32::MAX);
}

#[test]
fn entry_for_a_product_without_stock_passes_the_range_check() {
    let mut uc = make_uc_with_uow_data(vec![sample_product("p1")], vec![]);
    let m = uc.create_movement_within_range(movement("in", 3)).unwrap().unwrap();
    assert_eq!(m.quantity, 3);
    let work = uc.uow_store().last_commit.as_ref().unwrap();
    assert_eq!(work.stock_repo.stocks[0].quantity, 3);
}
