use gestor::domain::entity::product::Product;
use gestor::domain::entity::return_model::{CreateReturnInput, Return, UpdateReturnStatusInput};
use gestor::domain::error::DomainError;
use gestor::domain::port::mocks::{MockProductRepository, MockReturnRepository};
use gestor::domain::usecase::return_usecase::ReturnUseCase;

type Uc = ReturnUseCase<MockReturnRepository<f64>, MockProductRepository>;

fn sample_product(id: &str) -> Product {
    Product {
        id: id.to_string(),
        name: "Produto".to_string(),
        description: None,
        sku: format!("SKU-{}", id),
        brand: None,
        status: "available".to_string(),
        created_at: "2026-01-01 00:00:00".to_string(),
        updated_at: "2026-01-01 00:00:00".to_string(),
    }
}

fn sample_return(id: &str) -> Return<f64> {
    Return {
        id: id.to_string(),
        product_id: "p1".to_string(),
        warranty_id: None,
        reason: "Defeito".to_string(),
        status: "requested".to_string(),
        refund_amount: None,
        created_at: "2026-01-01 00:00:00".to_string(),
        updated_at: "2026-01-01 00:00:00".to_string(),
    }
}

fn make_uc(returns: Vec<Return<f64>>, products: Vec<Product>) -> Uc {
    let mut ret_repo = MockReturnRepository::new();
    for r in returns {
        ret_repo.records.push(r);
    }
    let mut prod_repo = MockProductRepository::new();
    prod_repo.with_products(products);
    ReturnUseCase::new(ret_repo, prod_repo)
}

#[test]
fn test_list_returns() {
    let uc = make_uc(vec![sample_return("r1")], vec![]);
    let result = uc.list().unwrap();
    assert_eq!(result.len(), 1);
}

#[test]
fn test_get_return_found() {
    let uc = make_uc(vec![sample_return("r1")], vec![]);
    let ret = uc.get("r1").unwrap();
    assert_eq!(ret.id, "r1");
}

#[test]
fn test_get_return_not_found() {
    let uc = make_uc(vec![], vec![]);
    let err = uc.get("nonexistent").unwrap_err();
    match err {
        DomainError::NotFound(msg) => assert!(msg.contains("nonexistent")),
        _ => panic!("Esperava NotFound"),
    }
}

#[test]
fn test_create_return_ok() {
    let mut uc = make_uc(vec![], vec![sample_product("p1")]);
    let input = CreateReturnInput {
        product_id: "p1".to_string(),
        warranty_id: None,
        reason: "Produto com defeito".to_string(),
        refund_amount: Some(59.90),
    };
    let ret = uc.create(input).unwrap();
    assert_eq!(ret.status, "requested");
    assert_eq!(ret.reason, "Produto com defeito");
}

#[test]
fn test_create_return_product_not_found() {
    let mut uc = make_uc(vec![], vec![]);
    let input = CreateReturnInput {
        product_id: "nonexistent".to_string(),
        warranty_id: None,
        reason: "Teste".to_string(),
        refund_amount: None,
    };
    let err = uc.create(input).unwrap_err();
    match err {
        DomainError::NotFound(msg) => assert!(msg.contains("nonexistent")),
        _ => panic!("Esperava NotFound"),
    }
}

#[test]
fn test_return_usecase_test_update_status_ok() {
    let mut uc = make_uc(vec![sample_return("r1")], vec![]);
    let input = UpdateReturnStatusInput { status: "approved".to_string(), refund_amount: Some(100.0) };
    let updated = uc.update_status("r1", input).unwrap();
    assert_eq!(updated.status, "approved");
    assert_eq!(updated.refund_amount, Some(100.0));
}

#[test]
fn test_return_usecase_test_update_status_invalid() {
    let mut uc = make_uc(vec![], vec![]);
    let input = UpdateReturnStatusInput { status: "invalid".to_string(), refund_amount: None };
    let err = uc.update_status("r1", input).unwrap_err();
    match err {
        DomainError::BadRequest(msg) => assert!(msg.contains("Status inválido")),
        _ => panic!("Esperava BadRequest"),
    }
}

// ---- further cases ----

#[test]
fn a_status_change_without_refund_keeps_the_refund() {
    let mut r = sample_return("r1");
    r.refund_amount = Some(12.5);
    let mut uc = make_uc(vec![r], vec![]);
    let input = UpdateReturnStatusInput { status: "completed".to_string(), refund_amount: None };
    let updated = uc.update_status("r1", input).unwrap();
    assert_eq!(updated.status, "completed");
    assert_eq!(updated.refund_amount, Some(12.5));
    assert_eq!(uc.get("r1").unwrap().status, "completed");
}

#[test]
fn opened_return_keeps_the_input_and_is_listed() {
    let mut uc = make_uc(vec![], vec![sample_product("p1")]);
    let input = CreateReturnInput {
        product_id: "p1".to_string(),
        warranty_id: Some("w1".to_string()),
        reason: "Troca".to_string(),
        refund_amount: Some(10.0),
    };
    let ret = uc.create(input).unwrap();
    assert_eq!(ret.id, "mock-return-id");
    assert_eq!(ret.warranty_id.as_deref(), Some("w1"));
    assert_eq!(ret.refund_amount, Some(10.0));
    assert_eq!(uc.list().unwrap().len(), 1);
}

#[test]
fn return_messages_are_exact() {
    let mut uc = make_uc(vec![], vec![]);
    match uc.get("r7").unwrap_err() {
        DomainError::NotFound(msg) => assert_eq!(msg, "Devolução com id 'r7' não encontrada"),
        e => panic!("unexpected {:?}", e),
    }
    let input = UpdateReturnStatusInput { status: "approved".to_string(), refund_amount: None };
    match uc.update_status("r7", input).unwrap_err() {
        DomainError::NotFound(msg) => assert_eq!(msg, "Devolução com id 'r7' não encontrada"),
        e => panic!("unexpected {:?}", e),
    }
    let input = UpdateReturnStatusInput { status: "lost".to_string(), refund_amount: None };
    match uc.update_status("r7", input).unwrap_err() {
        DomainError::BadRequest(msg) => {
            assert_eq!(msg, "Status inválido. Use: requested, approved, rejected, completed")
        }
        e => panic!("unexpected {:?}", e),
    }
}
