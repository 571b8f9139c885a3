use gestor::domain::entity::product::Product;
use gestor::domain::entity::warranty::{CreateWarrantyInput, Warranty};
use gestor::domain::error::DomainError;
use gestor::domain::port::mocks::{MockProductRepository, MockWarrantyRepository};
use gestor::domain::usecase::warranty_usecase::WarrantyUseCase;

fn sample_product(id: &str) -> Product {
    Product {
        id: id.to_string(),
        name: "Produto".to_string(),
        description: None,
        sku: format!("SKU-{}", id),
        brand: None,
        status: "available".to_string(),
        created_at: "2026-01-01 00:00:00".to_string(),
        updated_at: "2026-01-01 00:00:00".to_string(),
    }
}

fn sample_warranty() -> Warranty {
    Warranty {
        id: "w1".to_string(),
        product_id: "p1".to_string(),
        customer_name: "Maria".to_string(),
        customer_contact: None,
        purchase_date: "2026-01-15".to_string(),
        warranty_days: 90,
        expires_at: "2026-04-15".to_string(),
        status: "active".to_string(),
        notes: None,
        created_at: "2026-01-01 00:00:00".to_string(),
        updated_at: "2026-01-01 00:00:00".to_string(),
    }
}

fn make_uc(
    warranties: Vec<Warranty>,
    products: Vec<Product>,
) -> WarrantyUseCase<MockWarrantyRepository, MockProductRepository> {
    let mut warranty_repo = MockWarrantyRepository::new();
    for w in warranties {
        warranty_repo.add_warranty(w);
    }
    let mut prod_repo = MockProductRepository::new();
    prod_repo.with_products(products);
    WarrantyUseCase::new(warranty_repo, prod_repo)
}

fn input(product_id: &str, customer: &str, date: &str, days: i32) -> CreateWarrantyInput {
    CreateWarrantyInput {
        product_id: product_id.to_string(),
        customer_name: customer.to_string(),
        customer_contact: None,
        purchase_date: date.to_string(),
        warranty_days: days,
        notes: None,
    }
}

#[test]
fn test_list_warranties() {
    let uc = make_uc(vec![], vec![]);
    assert!(uc.list().unwrap().is_empty());
}

#[test]
fn test_get_warranty_not_found() {
    let uc = make_uc(vec![], vec![]);
    let err = uc.get("nonexistent").unwrap_err();
    match err {
        DomainError::NotFound(msg) => assert!(msg.contains("nonexistent")),
        _ => panic!("Esperava NotFound"),
    }
}

#[test]
fn test_create_warranty_ok() {
    let mut uc = make_uc(vec![], vec![sample_product("p1")]);
    let warranty = uc.create(input("p1", "Maria Silva", "2026-01-15", 90)).unwrap();
    assert_eq!(warranty.customer_name, "Maria Silva");
    assert_eq!(warranty.status, "active");
    assert_eq!(warranty.expires_at, "2026-04-15");
}

#[test]
fn test_create_warranty_product_not_found() {
    let mut uc = make_uc(vec![], vec![]);
    let err = uc.create(input("nonexistent", "Maria", "2026-01-15", 90)).unwrap_err();
    match err {
        DomainError::NotFound(msg) => assert!(msg.contains("nonexistent")),
        _ => panic!("Esperava NotFound"),
    }
}

#[test]
fn test_create_warranty_invalid_date() {
    let mut uc = make_uc(vec![], vec![sample_product("p1")]);
    let err = uc.create(input("p1", "Maria", "data-invalida", 90)).unwrap_err();
    match err {
        DomainError::BadRequest(msg) => assert!(msg.contains("data")),
        _ => panic!("Esperava BadRequest, got {:?}", err),
    }
}

#[test]
fn test_create_warranty_zero_days() {
    let mut uc = make_uc(vec![], vec![sample_product("p1")]);
    let err = uc.create(input("p1", "Maria", "2026-01-15", 0)).unwrap_err();
    match err {
        DomainError::BadRequest(msg) => assert!(msg.contains("maior que zero")),
        _ => panic!("Esperava BadRequest"),
    }
}

#[test]
fn test_warranty_usecase_test_update_status_ok() {
    let mut uc = make_uc(vec![sample_warranty()], vec![]);
    let updated = uc.update_status("w1", "claimed").unwrap();
    assert_eq!(updated.status, "claimed");
}

#[test]
fn test_warranty_usecase_test_update_status_invalid() {
    let mut uc = make_uc(vec![], vec![]);
    let err = uc.update_status("w1", "invalid").unwrap_err();
    match err {
        DomainError::BadRequest(msg) => assert!(msg.contains("Status inválido")),
        _ => panic!("Esperava BadRequest"),
    }
}

// ---- further cases ----

#[test]
fn expiry_crosses_a_leap_day() {
    let mut uc = make_uc(vec![], vec![sample_product("p1")]);
    let w = uc.create(input("p1", "Ana", "2024-02-28", 2)).unwrap();
    assert_eq!(w.expires_at, "2024-03-01");
}

#[test]
fn expiry_crosses_the_year() {
    let mut uc = make_uc(vec![], vec![sample_product("p1")]);
    let w = uc.create(input("p1", "Ana", "2025-12-31", 1)).unwrap();
    assert_eq!(w.expires_at, "2026-01-01");
    assert_eq!(w.purchase_date, "2025-12-31");
    assert_eq!(w.warranty_days, 1);
}

#[test]
fn registered_warranty_keeps_the_input() {
    let mut uc = make_uc(vec![], vec![sample_product("p1")]);
    let mut i = input("p1", "Ana", "2026-03-10", 30);
    i.customer_contact = Some("ana@example.com".to_string());
    i.notes = Some("Caixa".to_string());
    let w = uc.create(i).unwrap();
    assert_eq!(w.product_id, "p1");
    assert_eq!(w.customer_contact.as_deref(), Some("ana@example.com"));
    assert_eq!(w.notes.as_deref(), Some("Caixa"));
    assert_eq!(w.expires_at, "2026-04-09");
    assert_eq!(uc.list().unwrap().len(), 1);
    assert_eq!(uc.get(&w.id).unwrap().customer_name, "Ana");
}

#[test]
fn impossible_calendar_date_is_refused() {
    let mut uc = make_uc(vec![], vec![sample_product("p1")]);
    match uc.create(input("p1", "Ana", "2026-02-30", 10)).unwrap_err() {
        DomainError::BadRequest(msg) => assert_eq!(msg, "Formato de data inválido. Use YYYY-MM-DD"),
        e => panic!("unexpected {:?}", e),
    }
    assert!(uc.list().unwrap().is_empty());
}

#[test]
fn zero_days_message_is_exact() {
    let mut uc = make_uc(vec![], vec![sample_product("p1")]);
    match uc.create(input("p1", "Ana", "nada", -3)).unwrap_err() {
        DomainError::BadRequest(msg) => assert_eq!(msg, "Dias de garantia deve ser maior que zero"),
        e => panic!("unexpected {:?}", e),
    }
}

#[test]
fn missing_product_is_reported_before_the_days() {
    let mut uc = make_uc(vec![], vec![]);
    match uc.create(input("p5", "Ana", "nada", 0)).unwrap_err() {
        DomainError::NotFound(msg) => assert_eq!(msg, "Produto com id 'p5' não encontrado"),
        e => panic!("unexpected {:?}", e),
    }
}

#[test]
fn invalid_warranty_status_message_lists_the_valid_ones() {
    let mut uc = make_uc(vec![sample_warranty()], vec![]);
    match uc.update_status("w1", "lost").unwrap_err() {
        DomainError::BadRequest(msg) => assert_eq!(msg, "Status inválido. Use: active, expired, claimed"),
        e => panic!("unexpected {:?}", e),
    }
}

#[test]
fn status_change_of_missing_warranty_is_not_found() {
    let mut uc = make_uc(vec![], vec![]);
    match uc.update_status("w9", "expired").unwrap_err() {
        DomainError::NotFound(msg) => assert_eq!(msg, "Garantia com id 'w9' não encontrada"),
        e => panic!("unexpected {:?}", e),
    }
}

#[test]
fn expiry_past_the_calendar_is_reported_as_none() {
    let mut uc = make_uc(vec![], vec![sample_product("p1")]);
    assert!(uc.create_within_calendar(input("p1", "Ana", "+262142-12-31", 2)).is_none());
    assert!(uc.list().unwrap().is_empty());
}

#[test]
fn expiry_within_the_calendar_registers() {
    let mut uc = make_uc(vec![], vec![sample_product("p1")]);
    let r = uc.create_within_calendar(input("p1", "Ana", "2026-01-15", 90)).unwrap();
    assert_eq!(r.unwrap().expires_at, "2026-04-15");
}

#[test]
fn past_calendar_expiry_of_a_missing_product_is_not_found() {
    let mut uc = make_uc(vec![], vec![]);
    let r = uc.create_within_calendar(input("p1", "Ana", "+262142-12-31", 2)).unwrap();
    assert!(matches!(r, Err(DomainError::NotFound(_))));
}

#[test]
fn registration_on_a_given_day_number() {
    let mut uc = make_uc(vec![], vec![sample_product("p1")]);
    let w = uc.create_on_day(input("p1", "Ana", "texto livre", 90), Some(739631)).unwrap();
    assert_eq!(w.expires_at, "2026-04-15");
    assert_eq!(w.purchase_date, "texto livre");
}

#[test]
fn registration_without_a_day_number_is_an_invalid_date() {
    let mut uc = make_uc(vec![], vec![sample_product("p1")]);
    match uc.create_on_day(input("p1", "Ana", "2026-01-15", 90), None).unwrap_err() {
        DomainError::BadRequest(msg) => assert_eq!(msg, "Formato de data inválido. Use YYYY-MM-DD"),
        e => panic!("unexpected {:?}", e),
    }
}

