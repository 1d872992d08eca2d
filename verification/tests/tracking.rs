use stock_watch::signal::StockSignal;
use stock_watch::tracker::Product;

fn product() -> Product {
    Product::new(
        String::from("https://example.com/p/1"),
        String::from("Widget"),
    )
}

fn product_in_stock() -> Product {
    let mut p = product();
    p.observe(StockSignal::InStock);
    p
}

#[test]
fn in_stock_from_out_of_stock_notifies_and_stores_true() {
    let mut p = product();
    assert!(p.observe(StockSignal::InStock));
    assert!(p.last_status);
}

#[test]
fn in_stock_while_already_in_stock_stays_quiet() {
    let mut p = product_in_stock();
    assert!(!p.observe(StockSignal::InStock));
    assert!(p.last_status);
}

#[test]
fn out_of_stock_from_out_of_stock_stores_false_quietly() {
    let mut p = product();
    assert!(!p.observe(StockSignal::OutOfStock));
    assert!(!p.last_status);
}

#[test]
fn out_of_stock_from_in_stock_rearms_quietly() {
    let mut p = product_in_stock();
    assert!(!p.observe(StockSignal::OutOfStock));
    assert!(!p.last_status);
}

#[test]
fn unknown_keeps_false_status_quietly() {
    let mut p = product();
    assert!(!p.observe(StockSignal::Unknown));
    assert!(!p.last_status);
}

#[test]
fn unknown_keeps_true_status_quietly() {
    let mut p = product_in_stock();
    assert!(!p.observe(StockSignal::Unknown));
    assert!(p.last_status);
}

#[test]
fn repeated_in_stock_notifies_only_once() {
    let mut p = product();
    assert!(p.observe(StockSignal::InStock));
    for _ in 0..5 {
        assert!(!p.observe(StockSignal::InStock));
    }
    assert!(!p.observe(StockSignal::Unknown));
    assert!(!p.observe(StockSignal::InStock));
}

#[test]
fn five_cycle_scenario() {
    let mut p = product();
    assert!(!p.last_status);
    assert!(!p.observe(StockSignal::OutOfStock));
    assert!(!p.last_status);
    assert!(p.observe(StockSignal::InStock));
    assert!(p.last_status);
    assert!(!p.observe(StockSignal::InStock));
    assert!(p.last_status);
    assert!(!p.observe(StockSignal::OutOfStock));
    assert!(!p.last_status);
    assert!(p.observe(StockSignal::InStock));
    assert!(p.last_status);
}

#[test]
fn observe_keeps_identity() {
    let mut p = product();
    p.observe(StockSignal::InStock);
    assert_eq!(p.url, "https://example.com/p/1");
    assert_eq!(p.name, "Widget");
}
