use gestor::adapter::inbound::http::dto::{
    CreateCategoryDto, CreateProductDto, CreateStockDto, CreateStockMovementDto, CreateWarrantyDto,
    ReportFilterDto, UpdateCategoryDto, UpdateProductDto,
};
use gestor::adapter::inbound::http::error::HttpError;
use gestor::adapter::outbound::sqlite::helpers::{contains_text, map_err, DatabaseFailure};
use gestor::config::{parse_port, Config};
use gestor::domain::entity::category::category_not_found_message;
use gestor::domain::entity::price::price_not_found_message;
use gestor::domain::entity::product::product_not_found_message;
use gestor::domain::entity::report::ReportFilter;
use gestor::domain::entity::return_model::return_not_found_message;
use gestor::domain::entity::stock::insufficient_stock_message;
use gestor::domain::entity::warranty::warranty_not_found_message;
use gestor::domain::error::DomainError;
use gestor::domain::text::{enclose, i32_to_decimal, is_one_of, join};
use gestor::domain::usecase::product_usecase::invalid_status_message;
use gestor::domain::usecase::report_usecase::{check_report_filter, total_items_sold};
use gestor::domain::usecase::return_usecase::check_return_status;

// ---- text ----

#[test]
fn decimal_writing_of_integers() {
    assert_eq!(i32_to_decimal(0), "0");
    assert_eq!(i32_to_decimal(7), "7");
    assert_eq!(i32_to_decimal(10), "10");
    assert_eq!(i32_to_decimal(-45), "-45");
    assert_eq!(i32_to_decimal(i32::MAX), "2147483647");
    assert_eq!(i32_to_decimal(i32::MIN), "-2147483648");
}

#[test]
fn join_and_membership() {
    assert_eq!(join(&["a", "b", "c"], ", "), "a, b, c");
    assert_eq!(join(&["só"], ", "), "só");
    assert_eq!(join(&[], ", "), "");
    assert!(is_one_of("b", &["a", "b"]));
    assert!(!is_one_of("B", &["a", "b"]));
    assert!(!is_one_of("", &[]));
    assert_eq!(enclose("<", "x", ">"), "<x>");
}

#[test]
fn not_found_messages() {
    assert_eq!(product_not_found_message("p1"), "Produto com id 'p1' não encontrado");
    assert_eq!(category_not_found_message("c1"), "Categoria com id 'c1' não encontrada");
    assert_eq!(warranty_not_found_message("w1"), "Garantia com id 'w1' não encontrada");
    assert_eq!(return_not_found_message("r1"), "Devolução com id 'r1' não encontrada");
    assert_eq!(price_not_found_message("pr1"), "Preço com id 'pr1' não encontrado");
}

#[test]
fn insufficient_stock_message_writes_negative_quantities() {
    assert_eq!(insufficient_stock_message(-3, 4), "Estoque insuficiente. Disponível: -3, Solicitado: 4");
}

#[test]
fn invalid_status_message_joins_the_options() {
    assert_eq!(invalid_status_message(&["x", "y"]), "Status inválido. Use: x, y");
}

// ---- returns and reports ----

#[test]
fn every_return_status_is_accepted_and_others_are_refused() {
    for s in ["requested", "approved", "rejected", "completed"] {
        assert!(check_return_status(s).is_ok());
    }
    match check_return_status("closed") {
        Err(DomainError::BadRequest(msg)) => {
            assert_eq!(msg, "Status inválido. Use: requested, approved, rejected, completed")
        }
        _ => panic!("Esperava BadRequest"),
    }
}

#[test]
fn report_filters_with_both_dates_or_neither_are_accepted() {
    let both = ReportFilter { start_date: Some("2026-01-01".to_string()), end_date: Some("2026-12-31".to_string()) };
    assert!(check_report_filter(&both).is_ok());
    let neither = ReportFilter { start_date: None, end_date: None };
    assert!(check_report_filter(&neither).is_ok());
    let start_only = ReportFilter { start_date: Some("x".to_string()), end_date: None };
    match check_report_filter(&start_only) {
        Err(DomainError::BadRequest(msg)) => assert_eq!(msg, "Forneça ambas as datas (início e fim) ou nenhuma"),
        _ => panic!("Esperava BadRequest"),
    }
}

#[test]
fn items_sold_is_the_sum_of_the_rows() {
    assert_eq!(total_items_sold(&[]), 0);
    assert_eq!(total_items_sold(&[10]), 10);
    assert_eq!(total_items_sold(&[3, 4, -2]), 5);
    assert_eq!(total_items_sold(&[i32::MAX, i32::MAX]), 2 * i32::MAX as i64);
}

// ---- errors ----

#[test]
fn http_status_of_each_error() {
    assert_eq!(HttpError(DomainError::NotFound("a".to_string())).status_code(), 404);
    assert_eq!(HttpError(DomainError::BadRequest("a".to_string())).status_code(), 400);
    assert_eq!(HttpError(DomainError::Internal("a".to_string())).status_code(), 500);
    assert_eq!(HttpError(DomainError::Conflict("a".to_string())).status_code(), 409);
}

#[test]
fn internal_details_are_not_shown_to_clients() {
    assert_eq!(HttpError(DomainError::Internal("senha errada".to_string())).client_message(), "Erro interno do servidor");
    assert_eq!(HttpError(DomainError::Conflict("SKU 'X' já existe".to_string())).client_message(), "SKU 'X' já existe");
    assert_eq!(HttpError(DomainError::NotFound("n".to_string())).client_message(), "n");
    assert_eq!(HttpError(DomainError::BadRequest("b".to_string())).client_message(), "b");
    let e: HttpError = DomainError::NotFound("z".to_string()).into();
    assert_eq!(e.status_code(), 404);
}

#[test]
fn database_failures_become_domain_errors() {
    assert!(matches!(map_err(DatabaseFailure::RowNotFound), DomainError::NotFound(m) if m == "Recurso não encontrado"));
    assert!(matches!(
        map_err(DatabaseFailure::Database("UNIQUE constraint failed: products.sku".to_string())),
        DomainError::Conflict(m) if m == "Registro duplicado"
    ));
    assert!(matches!(
        map_err(DatabaseFailure::Database("no such table: x".to_string())),
        DomainError::Internal(m) if m == "Erro no banco de dados: no such table: x"
    ));
    assert!(matches!(
        map_err(DatabaseFailure::Other("pool timed out".to_string())),
        DomainError::Internal(m) if m == "Erro no banco de dados: pool timed out"
    ));
}

#[test]
fn substring_search() {
    assert!(contains_text("abc", ""));
    assert!(contains_text("abc", "abc"));
    assert!(contains_text("xxabcxx", "bc"));
    assert!(!contains_text("ab", "abc"));
    assert!(!contains_text("unique constraint", "UNIQUE constraint"));
    assert!(contains_text("ação", "çã"));
}

// ---- configuration ----

#[test]
fn settings_with_defaults() {
    let c = Config::from_settings(None, None).unwrap();
    assert_eq!(c.database_url, "sqlite:gestor.db");
    assert_eq!(c.server_port, 10020);
    let c = Config::from_settings(Some("sqlite::memory:".to_string()), Some("8080".to_string())).unwrap();
    assert_eq!(c.database_url, "sqlite::memory:");
    assert_eq!(c.server_port, 8080);
    assert!(Config::from_settings(None, Some("porta".to_string())).is_none());
}

#[test]
fn port_numbers_are_read_as_std_reads_them() {
    for text in ["0", "80", "+443", "65535", "00080", "65536", "-1", "", "+", " 80", "8o", "99999999999"] {
        assert_eq!(parse_port(text), text.parse::<u16>().ok(), "{}", text);
    }
}

// ---- request bodies ----

#[test]
fn request_bodies_become_inputs() {
    let p = CreateProductDto { name: "n".to_string(), description: None, sku: "s".to_string(), brand: Some("b".to_string()) }
        .into_input();
    assert_eq!((p.name.as_str(), p.sku.as_str(), p.brand.as_deref()), ("n", "s", Some("b")));
    let u = UpdateProductDto { name: None, description: Some("d".to_string()), brand: None }.into_input();
    assert_eq!(u.description.as_deref(), Some("d"));
    assert!(u.name.is_none());
    let c = CreateCategoryDto { name: "c".to_string(), description: None, parent_id: Some("p".to_string()) }.into_input();
    assert_eq!(c.parent_id.as_deref(), Some("p"));
    let uc = UpdateCategoryDto { name: Some("x".to_string()), description: None, parent_id: None }.into_input();
    assert_eq!(uc.name.as_deref(), Some("x"));
    let s = CreateStockDto { product_id: "p1".to_string(), quantity: Some(3), min_quantity: None, location: None }.into_input();
    assert_eq!((s.product_id.as_str(), s.quantity, s.min_quantity), ("p1", Some(3), None));
    let m = CreateStockMovementDto {
        product_id: "p1".to_string(),
        movement_type: "in".to_string(),
        quantity: 2,
        reason: Some("r".to_string()),
        reference: None,
    }
    .into_input();
    assert_eq!((m.movement_type.as_str(), m.quantity, m.reason.as_deref()), ("in", 2, Some("r")));
    let w = CreateWarrantyDto {
        product_id: "p1".to_string(),
        customer_name: "Ana".to_string(),
        customer_contact: None,
        purchase_date: "2026-01-15".to_string(),
        warranty_days: 90,
        notes: Some("n".to_string()),
    }
    .into_input();
    assert_eq!((w.purchase_date.as_str(), w.warranty_days, w.notes.as_deref()), ("2026-01-15", 90, Some("n")));
    let f = ReportFilterDto { start_date: Some("a".to_string()), end_date: None }.into_filter();
    assert_eq!((f.start_date.as_deref(), f.end_date.as_deref()), (Some("a"), None));
}
