use vstd::prelude::*;

use crate::signal::StockSignal;
use crate::text::{contains_fold, contains_seq, fold_chars, str_eq, trim, trim_spec};

verus! {

/// The visible text of the primary disabled add-to-cart button, if the page
/// has one: the first element in document order matching the site's
/// disabled-button class combination, its text nodes joined by single
/// spaces. Parsing is deterministic, so this is a function of the HTML text
/// alone; nothing further is assumed about its value.
pub uninterp spec fn primary_button_text(html: Seq<char>) -> Option<Seq<char>>;

/// The value of the button-state attribute on the first element in document
/// order whose button-state attribute reads ADD_TO_CART or SOLD_OUT, if any
/// element carries one of those. A function of the HTML text alone.
pub uninterp spec fn fulfillment_state(html: Seq<char>) -> Option<Seq<char>>;

/// Relies on scraper's Html::parse_document, Selector::parse and
/// Html::select: the selector is a fixed, valid CSS class combination, the
/// iterator yields matches in document order, and joining the first match's
/// text nodes depends on the parsed document alone.
#[verifier::external_body]
fn find_primary_button_text(html: &str) -> (r: Option<String>)
    ensures
        r is Some <==> primary_button_text(html@) is Some,
        r matches Some(t) ==> primary_button_text(html@) == Some(t@),
{
    let document = scraper::Html::parse_document(html);
    let selector = scraper::Selector::parse(
        "button.c-button.c-button-disabled.c-button-lg.add-to-cart-button",
    ).unwrap();
    document.select(&selector).next().map(|element| element.text().collect::<Vec<_>>().join(" "))
}

/// Relies on scraper's Html::parse_document, Selector::parse and
/// Html::select, as above, and on ElementRef::attr: every match of the
/// selector carries the attribute, whose value the call hands back.
#[verifier::external_body]
fn find_button_state(html: &str) -> (r: Option<String>)
    ensures
        r is Some <==> fulfillment_state(html@) is Some,
        r matches Some(s) ==> fulfillment_state(html@) == Some(s@),
{
    let document = scraper::Html::parse_document(html);
    let selector = scraper::Selector::parse(
        "[data-button-state='ADD_TO_CART'], [data-button-state='SOLD_OUT']",
    ).unwrap();
    document.select(&selector).next().map(|element| {
        element.attr("data-button-state").unwrap_or("").to_string()
    })
}

/// The disabled-button text reads as sold out: after trimming and ASCII
/// case folding it contains the marker "sold out".
pub open spec fn sold_out_text(t: Seq<char>) -> bool {
    contains_seq(fold_chars(trim_spec(t)), "sold out"@)
}

/// The signal the primary rule assigns to the button text it found.
pub open spec fn primary_signal_spec(t: Seq<char>) -> StockSignal {
    if sold_out_text(t) {
        StockSignal::OutOfStock
    } else {
        StockSignal::InStock
    }
}

/// The signal the fallback rule assigns to a button-state attribute value:
/// only the addable value counts as in stock.
pub open spec fn state_signal_spec(s: Seq<char>) -> StockSignal {
    if s == "ADD_TO_CART"@ {
        StockSignal::InStock
    } else {
        StockSignal::OutOfStock
    }
}

/// What `extract` returns for a page: the primary button text decides if
/// present; else the button-state attribute decides if present; else the
/// page structure is unrecognized and the signal is `Unknown`.
pub open spec fn extract_spec(html: Seq<char>) -> StockSignal {
    match primary_button_text(html) {
        Option::Some(t) => primary_signal_spec(t),
        Option::None => match fulfillment_state(html) {
            Option::Some(s) => state_signal_spec(s),
            Option::None => StockSignal::Unknown,
        },
    }
}

/// Judge the visible text of the primary disabled button: trimmed and
/// case-folded, text containing "sold out" means out of stock, any other
/// text (the empty text included) means in stock.
pub fn classify_primary_text(text: &str) -> (r: StockSignal)
    ensures
        r == primary_signal_spec(text@),
{
    let trimmed = trim(text);
    if contains_fold(trimmed, "sold out") {
        StockSignal::OutOfStock
    } else {
        StockSignal::InStock
    }
}

/// Judge a button-state attribute value: exactly ADD_TO_CART means in
/// stock; any other matched value, recognized or not, means out of stock.
pub fn classify_button_state(state: &str) -> (r: StockSignal)
    ensures
        r == state_signal_spec(state@),
{
    if str_eq(state, "ADD_TO_CART") {
        StockSignal::InStock
    } else {
        StockSignal::OutOfStock
    }
}

/// Read a stock signal out of one fetched page. The rules run in priority
/// order, first match wins: the disabled-button text is the most reliable
/// site-specific marker, the button-state attribute is the fallback, and a
/// page matching neither is reported `Unknown` rather than guessed at.
pub fn extract(html: &str) -> (r: StockSignal)
    ensures
        r == extract_spec(html@),
{
    match find_primary_button_text(html) {
        Option::Some(t) => classify_primary_text(t.as_str()),
        Option::None => match find_button_state(html) {
            Option::Some(s) => classify_button_state(s.as_str()),
            Option::None => StockSignal::Unknown,
        },
    }
}

/// If the page has a primary disabled add-to-cart button, its text alone
/// decides: sold-out text yields `OutOfStock`, any other text `InStock`.
pub proof fn lemma_primary_button_rule(html: Seq<char>)
    ensures
        primary_button_text(html) matches Some(t) ==> extract_spec(html) == (
        if sold_out_text(t) {
            StockSignal::OutOfStock
        } else {
            StockSignal::InStock
        }),
{
}

/// If no primary button is present but a button-state attribute is, its
/// value alone decides: ADD_TO_CART yields `InStock`, every other value
/// `OutOfStock`.
pub proof fn lemma_fulfillment_rule(html: Seq<char>)
    ensures
        primary_button_text(html) is None ==> (fulfillment_state(html) matches Some(s)
            ==> extract_spec(html) == (
        if s == "ADD_TO_CART"@ {
            StockSignal::InStock
        } else {
            StockSignal::OutOfStock
        })),
{
}

/// A page matching neither selector yields `Unknown`, never a guess.
pub proof fn lemma_unknown_rule(html: Seq<char>)
    ensures
        primary_button_text(html) is None && fulfillment_state(html) is None ==> extract_spec(
            html,
        ) == StockSignal::Unknown,
{
}

} // verus!
