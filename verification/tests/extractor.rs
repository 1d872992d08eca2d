use stock_watch::extract::{classify_button_state, classify_primary_text, extract};
use stock_watch::signal::StockSignal;

const PRIMARY_CLASSES: &str = "c-button c-button-disabled c-button-lg add-to-cart-button";

fn page_with_primary(text: &str) -> String {
    format!(
        "<html><body><button class=\"{}\">{}</button></body></html>",
        PRIMARY_CLASSES, text
    )
}

fn page_with_state(state: &str) -> String {
    format!(
        "<html><body><div data-button-state=\"{}\">Fulfillment</div></body></html>",
        state
    )
}

#[test]
fn primary_sold_out_lowercase() {
    let html = page_with_primary("sold out");
    assert_eq!(extract(&html), StockSignal::OutOfStock);
}

#[test]
fn primary_sold_out_mixed_case() {
    let html = page_with_primary("Sold Out");
    assert_eq!(extract(&html), StockSignal::OutOfStock);
}

#[test]
fn primary_sold_out_upper_case_with_padding() {
    let html = page_with_primary("   SOLD OUT   ");
    assert_eq!(extract(&html), StockSignal::OutOfStock);
}

#[test]
fn primary_sold_out_inside_longer_text() {
    let html = page_with_primary("Currently Sold Out Online");
    assert_eq!(extract(&html), StockSignal::OutOfStock);
}

#[test]
fn primary_other_text_means_in_stock() {
    let html = page_with_primary("Add to Cart");
    assert_eq!(extract(&html), StockSignal::InStock);
}

#[test]
fn primary_empty_text_means_in_stock() {
    let html = page_with_primary("");
    assert_eq!(extract(&html), StockSignal::InStock);
}

#[test]
fn primary_rule_beats_fallback() {
    let html = format!(
        "<html><body><button class=\"{}\">Sold Out</button>\
         <div data-button-state=\"ADD_TO_CART\">x</div></body></html>",
        PRIMARY_CLASSES
    );
    assert_eq!(extract(&html), StockSignal::OutOfStock);
}

#[test]
fn first_primary_button_in_document_order_wins() {
    let html = format!(
        "<html><body><button class=\"{}\">Sold Out</button>\
         <button class=\"{}\">Add to Cart</button></body></html>",
        PRIMARY_CLASSES, PRIMARY_CLASSES
    );
    assert_eq!(extract(&html), StockSignal::OutOfStock);
}

#[test]
fn button_missing_one_class_does_not_match_primary_rule() {
    let html =
        "<html><body><button class=\"c-button c-button-lg\">Sold Out</button></body></html>";
    assert_eq!(extract(html), StockSignal::Unknown);
}

#[test]
fn fallback_add_to_cart_means_in_stock() {
    let html = page_with_state("ADD_TO_CART");
    assert_eq!(extract(&html), StockSignal::InStock);
}

#[test]
fn fallback_sold_out_state_means_out_of_stock() {
    let html = page_with_state("SOLD_OUT");
    assert_eq!(extract(&html), StockSignal::OutOfStock);
}

#[test]
fn first_state_attribute_in_document_order_wins() {
    let html = "<html><body><span data-button-state=\"SOLD_OUT\">a</span>\
                <span data-button-state=\"ADD_TO_CART\">b</span></body></html>";
    assert_eq!(extract(html), StockSignal::OutOfStock);
}

#[test]
fn unrecognized_state_value_does_not_match_fallback() {
    let html = page_with_state("CHECK_STORES");
    assert_eq!(extract(&html), StockSignal::Unknown);
}

#[test]
fn page_matching_neither_selector_is_unknown() {
    let html = "<html><body><p>Nothing to see here</p></body></html>";
    assert_eq!(extract(html), StockSignal::Unknown);
}

#[test]
fn empty_page_is_unknown() {
    assert_eq!(extract(""), StockSignal::Unknown);
}

#[test]
fn classify_primary_text_folds_case_and_trims() {
    assert_eq!(classify_primary_text("  SoLd oUt  "), StockSignal::OutOfStock);
    assert_eq!(classify_primary_text("Coming Soon"), StockSignal::InStock);
    assert_eq!(classify_primary_text(""), StockSignal::InStock);
    assert_eq!(classify_primary_text("sold-out"), StockSignal::InStock);
}

#[test]
fn classify_button_state_only_addable_is_in_stock() {
    assert_eq!(classify_button_state("ADD_TO_CART"), StockSignal::InStock);
    assert_eq!(classify_button_state("SOLD_OUT"), StockSignal::OutOfStock);
    assert_eq!(classify_button_state("PRE_ORDER"), StockSignal::OutOfStock);
    assert_eq!(classify_button_state(""), StockSignal::OutOfStock);
    assert_eq!(classify_button_state("add_to_cart"), StockSignal::OutOfStock);
}
