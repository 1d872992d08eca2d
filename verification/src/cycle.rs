use vstd::prelude::*;

use vstd::string::StringExecFns;

use crate::extract::{extract, extract_spec};
use crate::tracker::{next_status, notifies, Product};

verus! {

/// The stored status after one poll of a product whose fetch produced
/// `page`: a fetched body is extracted and observed, a failed fetch leaves
/// the status alone (the next scheduled cycle is the retry).
pub open spec fn polled_status(last: bool, page: Option<Seq<char>>) -> bool {
    match page {
        Option::Some(h) => next_status(last, extract_spec(h)),
        Option::None => last,
    }
}

/// Whether one poll of a product notifies: only a fetched body whose
/// extracted signal is `InStock` while the stored status was still false.
/// A failed fetch never notifies and never re-arms the trigger.
pub open spec fn polled_notifies(last: bool, page: Option<Seq<char>>) -> bool {
    match page {
        Option::Some(h) => notifies(last, extract_spec(h)),
        Option::None => false,
    }
}

/// One product's share of a poll cycle, after the fetch: extract a signal
/// from the body, if the fetch produced one, and feed it to the tracker.
/// `page` is `None` when the fetch failed; the product is left untouched.
pub fn poll_product(product: &mut Product, page: Option<&str>) -> (notify: bool)
    ensures
        final(product).url == old(product).url,
        final(product).name == old(product).name,
        final(product).last_status == polled_status(
            old(product).last_status,
            page.deep_view(),
        ),
        notify == polled_notifies(old(product).last_status, page.deep_view()),
{
    match page {
        Option::Some(html) => {
            let signal = extract(html);
            product.observe(signal)
        },
        Option::None => false,
    }
}

/// What one poll cycle does to one product: identity kept, status advanced
/// by that product's own page alone, notify flag set by the edge trigger.
pub open spec fn cycle_step_ok(
    before: Product,
    after: Product,
    page: Option<Seq<char>>,
    notify: bool,
) -> bool {
    &&& after.url == before.url
    &&& after.name == before.name
    &&& after.last_status == polled_status(before.last_status, page)
    &&& notify == polled_notifies(before.last_status, page)
}

/// One full poll cycle over the product set, given each product's fetch
/// outcome for this cycle (`None` where the fetch failed). Every product is
/// processed, in the fixed load order; each product's new status and notify
/// flag depend on that product's own stored status and its own page alone,
/// so one product's failed fetch never disturbs the others.
pub fn run_cycle(products: &mut Vec<Product>, pages: &Vec<Option<String>>) -> (notified: Vec<
    bool,
>)
    requires
        old(products)@.len() == pages@.len(),
    ensures
        final(products)@.len() == old(products)@.len(),
        notified@.len() == old(products)@.len(),
        forall|k: int|
            0 <= k < old(products)@.len() ==> #[trigger] cycle_step_ok(
                old(products)@[k],
                final(products)@[k],
                pages.deep_view()[k],
                notified@[k],
            ),
{
    let ghost orig = products@;
    let mut notified: Vec<bool> = Vec::new();
    let n = products.len();
    let mut i: usize = 0;
    while i < n
        invariant
            n == orig.len(),
            pages@.len() == orig.len(),
            products@.len() == orig.len(),
            notified@.len() == i,
            i <= n,
            forall|k: int| i <= k < orig.len() ==> products@[k] == orig[k],
            forall|k: int|
                0 <= k < i ==> #[trigger] cycle_step_ok(
                    orig[k],
                    products@[k],
                    pages.deep_view()[k],
                    notified@[k],
                ),
        decreases n - i,
    {
        let page: Option<&str> = match pages[i].as_ref() {
            Option::Some(body) => Option::Some(body.as_str()),
            Option::None => Option::None,
        };
        proof {
            assert(page.deep_view() == pages.deep_view()[i as int]);
        }
        let ghost prev = products@;
        let notify = poll_product(&mut products[i], page);
        notified.push(notify);
        proof {
            assert(forall|k: int| 0 <= k < orig.len() && k != i ==> products@[k] == prev[k]);
            assert(cycle_step_ok(
                orig[i as int],
                products@[i as int],
                pages.deep_view()[i as int],
                notified@[i as int],
            ));
        }
        i += 1;
    }
    notified
}

/// The alert text sent when a product comes in stock: the loud
/// call-to-action followed by the product URL.
pub fn alert_message(url: &str) -> (r: String)
    ensures
        r@
            == "🚨 PRODUCT IN STOCK! GO BUY NOW: GO GO GO GO GO GO GO GO GO GO GO GO GO GO GO GO GO GO GO GO GO GO GO GO GO GO GO GO GO GO GO GO GO GO GO GO GO GO GO GO GO GO GO GO GO GO GO GO GO GO GO GO GO GO GO GO GO GO GO GO GO GO GO GO GO GO GO GO GO GO GO GO GO GO GO GO GO GO GO GO GO GO GO GO GO GO GO GO GO GO GO GO GO GO GO GO GO GO GO GO GO GO GO GO GO GO GO GO GO GO "@
            + url@,
{
    let mut message = String::from_str(
        "🚨 PRODUCT IN STOCK! GO BUY NOW: GO GO GO GO GO GO GO GO GO GO GO GO GO GO GO GO GO GO GO GO GO GO GO GO GO GO GO GO GO GO GO GO GO GO GO GO GO GO GO GO GO GO GO GO GO GO GO GO GO GO GO GO GO GO GO GO GO GO GO GO GO GO GO GO GO GO GO GO GO GO GO GO GO GO GO GO GO GO GO GO GO GO GO GO GO GO GO GO GO GO GO GO GO GO GO GO GO GO GO GO GO GO GO GO GO GO GO GO GO GO ",
    );
    message.append(url);
    message
}

} // verus!
