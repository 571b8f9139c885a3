use gestor::domain::entity::product::Product;
use gestor::domain::entity::sale::{CreateSaleInput, Sale};
use gestor::domain::entity::stock::Stock;
use gestor::domain::error::DomainError;
use gestor::domain::port::mocks::{MockProductRepository, MockSaleRepository, MockStockRepository, MockUnitOfWorkFactory};
use gestor::domain::usecase::sale_usecase::{sale_exit, SaleUseCase};

type Uc = SaleUseCase<MockUnitOfWorkFactory<f64>>;

fn sample_product(id: &str, status: &str) -> Product {
    Product {
        id: id.to_string(),
        name: "Produto".to_string(),
        description: None,
        sku: format!("SKU-{}", id),
        brand: None,
        status: status.to_string(),
        created_at: "2026-01-01 00:00:00".to_string(),
        updated_at: "2026-01-01 00:00:00".to_string(),
    }
}

fn sample_stock(product_id: &str, qty: i32) -> Stock {
    Stock {
        id: "stock-1".to_string(),
        product_id: product_id.to_string(),
        quantity: qty,
        min_quantity: 5,
        location: None,
        updated_at: "2026-01-01 00:00:00".to_string(),
    }
}

fn make_uc(products: Vec<Product>, stocks: Vec<Stock>) -> Uc {
    let mut prod_mock = MockProductRepository::new();
    prod_mock.with_products(products);
    let mut stock_mock = MockStockRepository::new();
    for s in stocks {
        stock_mock.stocks.push(s);
    }
    SaleUseCase::new(MockUnitOfWorkFactory::new(prod_mock, stock_mock, MockSaleRepository::new()))
}

/// Records a sale, working out whether the unit price is positive and the
/// total price as the application does.
fn sell(uc: &mut Uc, input: CreateSaleInput<f64>) -> Result<Sale<f64>, DomainError> {
    let positive = !(input.unit_price <= 0.0);
    let total = input.unit_price * input.quantity as f64;
    uc.create(input, positive, total)
}

fn order(product_id: &str, quantity: i32, unit_price: f64) -> CreateSaleInput<f64> {
    CreateSaleInput { product_id: product_id.to_string(), quantity, unit_price, customer_name: None }
}

#[test]
fn test_create_sale_ok() {
    let mut uc = make_uc(vec![sample_product("p1", "available")], vec![sample_stock("p1", 100)]);
    let input = CreateSaleInput {
        product_id: "p1".to_string(),
        quantity: 5,
        unit_price: 59.90,
        customer_name: Some("Maria Silva".to_string()),
    };
    let sale = sell(&mut uc, input).unwrap();
    assert_eq!(sale.quantity, 5);
    assert_eq!(sale.unit_price, 59.90);
    assert_eq!(sale.total_price, 299.5);
}

#[test]
fn test_create_sale_invalid_quantity() {
    let mut uc = make_uc(vec![], vec![]);
    let err = sell(&mut uc, order("p1", 0, 50.0)).unwrap_err();
    match err {
        DomainError::BadRequest(msg) => assert!(msg.contains("Quantidade")),
        _ => panic!("Esperava BadRequest"),
    }
}

#[test]
fn test_create_sale_invalid_price() {
    let mut uc = make_uc(vec![], vec![]);
    let err = sell(&mut uc, order("p1", 1, 0.0)).unwrap_err();
    match err {
        DomainError::BadRequest(msg) => assert!(msg.contains("Preço")),
        _ => panic!("Esperava BadRequest"),
    }
}

#[test]
fn test_create_sale_product_not_found() {
    let mut uc = make_uc(vec![], vec![]);
    let err = sell(&mut uc, order("nonexistent", 1, 50.0)).unwrap_err();
    match err {
        DomainError::NotFound(msg) => assert!(msg.contains("nonexistent")),
        _ => panic!("Esperava NotFound, got {:?}", err),
    }
}

#[test]
fn test_create_sale_unavailable_product() {
    let mut uc = make_uc(vec![sample_product("p1", "unavailable")], vec![sample_stock("p1", 100)]);
    let err = sell(&mut uc, order("p1", 1, 50.0)).unwrap_err();
    match err {
        DomainError::BadRequest(msg) => assert!(msg.contains("disponível")),
        _ => panic!("Esperava BadRequest, got {:?}", err),
    }
}

#[test]
fn test_create_sale_insufficient_stock() {
    let mut uc = make_uc(vec![sample_product("p1", "available")], vec![sample_stock("p1", 5)]);
    let err = sell(&mut uc, order("p1", 50, 50.0)).unwrap_err();
    match err {
        DomainError::BadRequest(msg) => assert!(msg.contains("insuficiente")),
        _ => panic!("Esperava BadRequest, got {:?}", err),
    }
}

// ---- further cases ----

#[test]
fn recorded_sale_keeps_the_order() {
    let mut uc = make_uc(vec![sample_product("p1", "available")], vec![sample_stock("p1", 10)]);
    let mut input = order("p1", 3, 10.0);
    input.customer_name = Some("Ana".to_string());
    let sale = sell(&mut uc, input).unwrap();
    assert_eq!(sale.id, "mock-sale-id");
    assert_eq!(sale.product_id, "p1");
    assert_eq!(sale.total_price, 30.0);
    assert_eq!(sale.customer_name.as_deref(), Some("Ana"));
}

#[test]
fn selling_the_whole_stock_is_accepted() {
    let mut uc = make_uc(vec![sample_product("p1", "available")], vec![sample_stock("p1", 2)]);
    assert_eq!(sell(&mut uc, order("p1", 2, 1.0)).unwrap().quantity, 2);
}

#[test]
fn refusal_messages_are_exact() {
    let mut uc = make_uc(vec![sample_product("p1", "unavailable")], vec![sample_stock("p2", 1)]);
    match sell(&mut uc, order("p1", 1, 1.0)) {
        Err(DomainError::BadRequest(msg)) => assert_eq!(msg, "Produto não está disponível para venda"),
        _ => panic!("expected BadRequest"),
    }
    match sell(&mut uc, order("p2", 1, 1.0)) {
        Err(DomainError::NotFound(msg)) => assert_eq!(msg, "Produto com id 'p2' não encontrado"),
        _ => panic!("expected NotFound"),
    }
    match sell(&mut uc, order("p1", -1, 0.0)) {
        Err(DomainError::BadRequest(msg)) => assert_eq!(msg, "Quantidade deve ser maior que zero"),
        _ => panic!("expected BadRequest"),
    }
    match sell(&mut uc, order("p1", 1, -2.0)) {
        Err(DomainError::BadRequest(msg)) => assert_eq!(msg, "Preço unitário deve ser maior que zero"),
        _ => panic!("expected BadRequest"),
    }
}

#[test]
fn sale_refusal_gives_both_quantities() {
    let mut uc = make_uc(vec![sample_product("p1", "available")], vec![]);
    match sell(&mut uc, order("p1", 3, 1.0)) {
        Err(DomainError::BadRequest(msg)) => assert_eq!(msg, "Estoque insuficiente. Disponível: 0, Solicitado: 3"),
        _ => panic!("expected BadRequest"),
    }
}

#[test]
fn the_exit_of_a_sale_references_it() {
    let m = sale_exit("p1", 4, "s9");
    assert_eq!(m.product_id, "p1");
    assert_eq!(m.movement_type, "out");
    assert_eq!(m.quantity, 4);
    assert_eq!(m.reason.as_deref(), Some("Venda"));
    assert_eq!(m.reference.as_deref(), Some("s9"));
}

#[test]
fn committed_sale_takes_the_items_and_records_the_exit() {
    let mut uc = make_uc(vec![sample_product("p1", "available")], vec![sample_stock("p1", 10)]);
    let sale = sell(&mut uc, order("p1", 4, 2.5)).unwrap();
    let store = uc.uow_store();
    assert!(store.committed);
    assert!(!store.rolled_back);
    let work = store.last_commit.as_ref().unwrap();
    assert_eq!(work.stock_repo.stocks[0].quantity, 6);
    assert_eq!(work.stock_repo.movements.len(), 1);
    let m = &work.stock_repo.movements[0];
    assert_eq!(m.product_id, "p1");
    assert_eq!(m.movement_type, "out");
    assert_eq!(m.quantity, 4);
    assert_eq!(m.reason.as_deref(), Some("Venda"));
    assert_eq!(m.reference.as_deref(), Some(sale.id.as_str()));
    assert_eq!(work.sale_repo.sales.len(), 1);
    assert_eq!(work.sale_repo.sales[0].total_price, 10.0);
}

#[test]
fn refused_sale_is_rolled_back_and_commits_nothing() {
    let mut uc = make_uc(vec![sample_product("p1", "available")], vec![sample_stock("p1", 3)]);
    assert!(sell(&mut uc, order("p1", 4, 1.0)).is_err());
    let store = uc.uow_store();
    assert!(!store.committed);
    assert!(store.rolled_back);
    assert!(store.last_commit.is_none());
    assert_eq!(store.stock_repo.stocks[0].quantity, 3);
}

#[test]
fn each_sale_starts_from_the_factory_stock() {
    let mut uc = make_uc(vec![sample_product("p1", "available")], vec![sample_stock("p1", 5)]);
    sell(&mut uc, order("p1", 3, 1.0)).unwrap();
    sell(&mut uc, order("p1", 3, 1.0)).unwrap();
    let store = uc.uow_store();
    assert_eq!(store.stock_repo.stocks[0].quantity, 5);
    let work = store.last_commit.as_ref().unwrap();
    assert_eq!(work.stock_repo.stocks[0].quantity, 2);
    assert_eq!(work.sale_repo.sales.len(), 1);
}
