use gestor::domain::entity::product::{CreateProductInput, Product, UpdateProductInput};
use gestor::domain::error::DomainError;
use gestor::domain::port::mocks::MockProductRepository;
use gestor::domain::usecase::product_usecase::ProductUseCase;

fn sample_product(id: &str, sku: &str, status: &str) -> Product {
    Product {
        id: id.to_string(),
        name: "Produto Teste".to_string(),
        description: None,
        sku: sku.to_string(),
        brand: None,
        status: status.to_string(),
        created_at: "2026-01-01 00:00:00".to_string(),
        updated_at: "2026-01-01 00:00:00".to_string(),
    }
}

fn make_uc(products: Vec<Product>) -> ProductUseCase<MockProductRepository> {
    let mut repo = MockProductRepository::new();
    repo.with_products(products);
    ProductUseCase::new(repo)
}

#[test]
fn test_list_products_ok() {
    let uc = make_uc(vec![
        sample_product("1", "SKU-1", "available"),
        sample_product("2", "SKU-2", "available"),
    ]);
    let result = uc.list().unwrap();
    assert_eq!(result.len(), 2);
}

#[test]
fn test_get_product_found() {
    let uc = make_uc(vec![sample_product("abc", "SKU-1", "available")]);
    let product = uc.get("abc").unwrap();
    assert_eq!(product.id, "abc");
}

#[test]
fn test_get_product_not_found() {
    let uc = make_uc(vec![]);
    let err = uc.get("nonexistent").unwrap_err();
    match err {
        DomainError::NotFound(msg) => assert!(msg.contains("nonexistent")),
        _ => panic!("Esperava NotFound"),
    }
}

#[test]
fn test_create_product_ok() {
    let mut uc = make_uc(vec![]);
    let input = CreateProductInput {
        name: "Colar".to_string(),
        description: None,
        sku: "COL-001".to_string(),
        brand: None,
    };
    let product = uc.create(input).unwrap();
    assert_eq!(product.name, "Colar");
    assert_eq!(product.sku, "COL-001");
    assert_eq!(product.status, "available");
}

#[test]
fn test_create_product_duplicate_sku() {
    let mut uc = make_uc(vec![sample_product("1", "COL-001", "available")]);
    let input = CreateProductInput {
        name: "Outro Colar".to_string(),
        description: None,
        sku: "COL-001".to_string(),
        brand: None,
    };
    let err = uc.create(input).unwrap_err();
    match err {
        DomainError::Conflict(msg) => assert!(msg.contains("COL-001")),
        _ => panic!("Esperava Conflict, got {:?}", err),
    }
}

#[test]
fn test_update_product_ok() {
    let mut uc = make_uc(vec![sample_product("1", "SKU-1", "available")]);
    let input = UpdateProductInput {
        name: Some("Nome Novo".to_string()),
        description: None,
        brand: None,
    };
    let updated = uc.update("1", input).unwrap();
    assert_eq!(updated.name, "Nome Novo");
}

#[test]
fn test_update_product_not_found() {
    let mut uc = make_uc(vec![]);
    let input = UpdateProductInput {
        name: Some("Novo".to_string()),
        description: None,
        brand: None,
    };
    let err = uc.update("nonexistent", input).unwrap_err();
    match err {
        DomainError::NotFound(msg) => assert!(msg.contains("nonexistent")),
        _ => panic!("Esperava NotFound"),
    }
}

#[test]
fn test_product_usecase_test_update_status_ok() {
    let mut uc = make_uc(vec![sample_product("1", "SKU-1", "available")]);
    let updated = uc.update_status("1", "unavailable").unwrap();
    assert_eq!(updated.status, "unavailable");
}

#[test]
fn test_product_usecase_test_update_status_invalid() {
    let mut uc = make_uc(vec![]);
    let err = uc.update_status("1", "invalid_status").unwrap_err();
    match err {
        DomainError::BadRequest(msg) => assert!(msg.contains("Status inválido")),
        _ => panic!("Esperava BadRequest"),
    }
}

#[test]
fn test_delete_product_ok() {
    let mut uc = make_uc(vec![sample_product("1", "SKU-1", "available")]);
    uc.delete("1").unwrap();
    assert!(uc.product_store().products.is_empty());
}

#[test]
fn test_delete_product_not_found() {
    let mut uc = make_uc(vec![]);
    let err = uc.delete("nonexistent").unwrap_err();
    match err {
        DomainError::NotFound(_) => {}
        _ => panic!("Esperava NotFound"),
    }
}

// ---- further cases ----

#[test]
fn get_not_found_message_is_exact() {
    let uc = make_uc(vec![]);
    match uc.get("x9").unwrap_err() {
        DomainError::NotFound(msg) => assert_eq!(msg, "Produto com id 'x9' não encontrado"),
        e => panic!("unexpected {:?}", e),
    }
}

#[test]
fn duplicate_sku_message_is_exact_and_nothing_is_stored() {
    let mut uc = make_uc(vec![sample_product("1", "COL-001", "available")]);
    let input = CreateProductInput {
        name: "Outro".to_string(),
        description: None,
        sku: "COL-001".to_string(),
        brand: None,
    };
    match uc.create(input).unwrap_err() {
        DomainError::Conflict(msg) => assert_eq!(msg, "SKU 'COL-001' já existe"),
        e => panic!("unexpected {:?}", e),
    }
    assert_eq!(uc.product_store().products.len(), 1);
}

#[test]
fn invalid_status_message_lists_the_valid_statuses() {
    let mut uc = make_uc(vec![sample_product("1", "SKU-1", "available")]);
    match uc.update_status("1", "sold").unwrap_err() {
        DomainError::BadRequest(msg) => {
            assert_eq!(msg, "Status inválido. Use: available, unavailable, discontinued")
        }
        e => panic!("unexpected {:?}", e),
    }
    assert_eq!(uc.product_store().products[0].status, "available");
}

#[test]
fn every_valid_status_is_accepted() {
    let mut uc = make_uc(vec![sample_product("1", "SKU-1", "available")]);
    for s in ["unavailable", "discontinued", "available"] {
        assert_eq!(uc.update_status("1", s).unwrap().status, s);
    }
}

#[test]
fn update_status_of_missing_product_is_not_found() {
    let mut uc = make_uc(vec![]);
    match uc.update_status("zz", "available").unwrap_err() {
        DomainError::NotFound(msg) => assert!(msg.contains("zz")),
        e => panic!("unexpected {:?}", e),
    }
}

#[test]
fn product_update_keeps_fields_not_given() {
    let mut p = sample_product("1", "SKU-1", "available");
    p.brand = Some("Marca".to_string());
    let mut uc = make_uc(vec![p]);
    let input = UpdateProductInput { name: None, description: Some("Nova".to_string()), brand: None };
    let updated = uc.update("1", input).unwrap();
    assert_eq!(updated.name, "Produto Teste");
    assert_eq!(updated.description.as_deref(), Some("Nova"));
    assert_eq!(updated.brand.as_deref(), Some("Marca"));
    assert_eq!(updated.sku, "SKU-1");
}

#[test]
fn created_product_is_found_under_its_sku_and_id() {
    let mut uc = make_uc(vec![sample_product("1", "SKU-1", "available")]);
    let input = CreateProductInput {
        name: "Brinco".to_string(),
        description: Some("Prata".to_string()),
        sku: "BRI-1".to_string(),
        brand: Some("Casa".to_string()),
    };
    let created = uc.create(input).unwrap();
    assert_eq!(created.description.as_deref(), Some("Prata"));
    assert_eq!(created.brand.as_deref(), Some("Casa"));
    let found = uc.get(&created.id).unwrap();
    assert_eq!(found.sku, "BRI-1");
    assert_eq!(uc.list().unwrap().len(), 2);
}

#[test]
fn failing_storage_reports_internal_error() {
    let mut repo = MockProductRepository::new();
    repo.with_products(vec![sample_product("1", "SKU-1", "available")]);
    repo.set_should_error(true);
    let uc = ProductUseCase::new(repo);
    match uc.list().unwrap_err() {
        DomainError::Internal(msg) => assert_eq!(msg, "Erro simulado"),
        e => panic!("unexpected {:?}", e),
    }
    assert!(matches!(uc.get("1"), Err(DomainError::Internal(_))));
}

#[test]
fn delete_removes_every_product_with_the_id_and_keeps_the_others() {
    let mut uc = make_uc(vec![
        sample_product("1", "SKU-1", "available"),
        sample_product("2", "SKU-2", "available"),
    ]);
    uc.delete("1").unwrap();
    let left = &uc.product_store().products;
    assert_eq!(left.len(), 1);
    assert_eq!(left[0].id, "2");
    assert!(matches!(uc.get("1"), Err(DomainError::NotFound(_))));
}
