use gestor::domain::entity::report::{ReportFilter, ReturnReportItem, SalesReportItem, StockReportItem};
use gestor::domain::error::DomainError;
use gestor::domain::port::mocks::MockReportRepository;
use gestor::domain::usecase::report_usecase::ReportUseCase;

fn revenue(items: &Vec<SalesReportItem<f64>>) -> f64 {
    items.iter().map(|i| i.total_revenue).sum()
}

fn sample_sales_item() -> SalesReportItem<f64> {
    SalesReportItem {
        product_id: "p1".to_string(),
        product_name: "Colar".to_string(),
        sku: "COL-001".to_string(),
        total_quantity: 10,
        total_revenue: 599.0,
    }
}

fn sample_stock_item() -> StockReportItem {
    StockReportItem {
        product_id: "p1".to_string(),
        product_name: "Colar".to_string(),
        sku: "COL-001".to_string(),
        quantity: 50,
        min_quantity: 10,
        status: "available".to_string(),
    }
}

fn sample_return_item() -> ReturnReportItem<f64> {
    ReturnReportItem {
        id: "r1".to_string(),
        product_id: "p1".to_string(),
        product_name: "Colar".to_string(),
        reason: "Defeito".to_string(),
        status: "approved".to_string(),
        refund_amount: Some(59.90),
        created_at: "2026-01-01 00:00:00".to_string(),
    }
}

fn make_uc(repo: MockReportRepository<f64>) -> ReportUseCase<MockReportRepository<f64>> {
    ReportUseCase::new(repo)
}

fn empty_uc() -> ReportUseCase<MockReportRepository<f64>> {
    make_uc(MockReportRepository::new())
}

#[test]
fn test_sales_report_ok() {
    let mut repo = MockReportRepository::new();
    repo.sales_items.push(sample_sales_item());
    let uc = make_uc(repo);
    let filter = ReportFilter { start_date: None, end_date: None };
    let report = uc.sales_report(filter, revenue).unwrap();
    assert_eq!(report.items.len(), 1);
    assert_eq!(report.total_revenue, 599.0);
    assert_eq!(report.total_items_sold, 10);
}

#[test]
fn test_sales_report_with_dates() {
    let mut repo = MockReportRepository::new();
    repo.sales_items.push(sample_sales_item());
    let uc = make_uc(repo);
    let filter = ReportFilter {
        start_date: Some("2026-01-01".to_string()),
        end_date: Some("2026-12-31".to_string()),
    };
    let report = uc.sales_report(filter, revenue).unwrap();
    assert_eq!(report.items.len(), 1);
}

#[test]
fn test_sales_report_partial_start_date() {
    let uc = empty_uc();
    let filter = ReportFilter {
        start_date: Some("2026-01-01".to_string()),
        end_date: None,
    };
    let err = uc.sales_report(filter, revenue).unwrap_err();
    match err {
        DomainError::BadRequest(msg) => assert!(msg.contains("ambas as datas")),
        _ => panic!("Esperava BadRequest"),
    }
}

#[test]
fn test_sales_report_partial_end_date() {
    let uc = empty_uc();
    let filter = ReportFilter {
        start_date: None,
        end_date: Some("2026-12-31".to_string()),
    };
    let err = uc.sales_report(filter, revenue).unwrap_err();
    match err {
        DomainError::BadRequest(msg) => assert!(msg.contains("ambas as datas")),
        _ => panic!("Esperava BadRequest"),
    }
}

#[test]
fn test_stock_report_ok() {
    let mut repo = MockReportRepository::new();
    repo.stock_items.push(sample_stock_item());
    let uc = make_uc(repo);
    let report = uc.stock_report().unwrap();
    assert_eq!(report.len(), 1);
    assert_eq!(report[0].quantity, 50);
}

#[test]
fn test_returns_report_ok() {
    let mut repo = MockReportRepository::new();
    repo.return_items.push(sample_return_item());
    let uc = make_uc(repo);
    let filter = ReportFilter { start_date: None, end_date: None };
    let report = uc.returns_report(filter).unwrap();
    assert_eq!(report.len(), 1);
}

#[test]
fn test_returns_report_partial_start_date() {
    let uc = empty_uc();
    let filter = ReportFilter {
        start_date: Some("2026-01-01".to_string()),
        end_date: None,
    };
    let err = uc.returns_report(filter).unwrap_err();
    match err {
        DomainError::BadRequest(msg) => assert!(msg.contains("ambas as datas")),
        _ => panic!("Esperava BadRequest"),
    }
}

#[test]
fn test_sales_report_empty() {
    let uc = empty_uc();
    let filter = ReportFilter { start_date: None, end_date: None };
    let report = uc.sales_report(filter, revenue).unwrap();
    assert!(report.items.is_empty());
    assert_eq!(report.total_revenue, 0.0);
    assert_eq!(report.total_items_sold, 0);
}

#[test]
fn test_stock_report_empty() {
    let uc = empty_uc();
    let report = uc.stock_report().unwrap();
    assert!(report.is_empty());
}

#[test]
fn sales_report_adds_up_several_rows() {
    let mut repo = MockReportRepository::new();
    repo.sales_items.push(sample_sales_item());
    let mut second = sample_sales_item();
    second.product_id = "p2".to_string();
    second.total_quantity = 5;
    second.total_revenue = 100.5;
    repo.sales_items.push(second);
    let uc = make_uc(repo);
    let report = uc.sales_report(ReportFilter { start_date: None, end_date: None }, revenue).unwrap();
    assert_eq!(report.items.len(), 2);
    assert_eq!(report.items[1].product_id, "p2");
    assert_eq!(report.total_items_sold, 15);
    assert_eq!(report.total_revenue, 699.5);
}

#[test]
fn returns_report_with_end_date_only_is_refused() {
    let mut repo = MockReportRepository::new();
    repo.return_items.push(sample_return_item());
    let uc = make_uc(repo);
    let filter = ReportFilter { start_date: None, end_date: Some("2026-12-31".to_string()) };
    match uc.returns_report(filter) {
        Err(DomainError::BadRequest(msg)) => assert_eq!(msg, "Forneça ambas as datas (início e fim) ou nenhuma"),
        _ => panic!("Esperava BadRequest"),
    }
}
