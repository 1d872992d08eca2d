use vstd::prelude::*;

use crate::signal::StockSignal;

verus! {

/// A tracked product: the page to poll, a human-readable label, and the
/// last successfully extracted availability. `url` and `name` never change
/// after construction; `last_status` is mutated only by `observe`.
pub struct Product {
    pub url: String,
    pub name: String,
    pub last_status: bool,
}

/// The status stored after one observation: `InStock` sets it, `OutOfStock`
/// clears it, and `Unknown` leaves it untouched (fail-open: a parse failure
/// never flips a product to available, and never re-arms the trigger).
pub open spec fn next_status(last: bool, signal: StockSignal) -> bool {
    match signal {
        StockSignal::InStock => true,
        StockSignal::OutOfStock => false,
        StockSignal::Unknown => last,
    }
}

/// An observation notifies exactly on the out-of-stock to in-stock edge:
/// the signal reads `InStock` while the stored status is still false.
pub open spec fn notifies(last: bool, signal: StockSignal) -> bool {
    signal is InStock && !last
}

impl Product {
    /// A freshly loaded product starts out as not in stock, so the very
    /// first `InStock` reading notifies.
    pub fn new(url: String, name: String) -> (p: Product)
        ensures
            p.url == url,
            p.name == name,
            !p.last_status,
    {
        Product { url, name, last_status: false }
    }

    /// Feed one freshly extracted signal into the tracker. Returns whether
    /// a notification is due: only on a transition from out-of-stock to
    /// in-stock, so a product that stays available notifies exactly once
    /// per availability window.
    pub fn observe(&mut self, signal: StockSignal) -> (notify: bool)
        ensures
            final(self).url == old(self).url,
            final(self).name == old(self).name,
            final(self).last_status == next_status(old(self).last_status, signal),
            notify == notifies(old(self).last_status, signal),
    {
        match signal {
            StockSignal::InStock => {
                let was_in_stock = self.last_status;
                self.last_status = true;
                !was_in_stock
            },
            StockSignal::OutOfStock => {
                self.last_status = false;
                false
            },
            StockSignal::Unknown => false,
        }
    }
}

/// How many observations of `signals`, fed in order into a tracker whose
/// stored status starts at `last`, report a notification.
pub open spec fn notify_count(last: bool, signals: Seq<StockSignal>) -> nat
    decreases signals.len(),
{
    if signals.len() == 0 {
        0
    } else {
        (if notifies(last, signals[0]) {
            1nat
        } else {
            0nat
        }) + notify_count(next_status(last, signals[0]), signals.drop_first())
    }
}

/// The full transition table, state by state: from either stored status,
/// `InStock` stores true and notifies only from false, `OutOfStock` stores
/// false and never notifies, `Unknown` keeps the status and never notifies.
pub proof fn lemma_transition_table()
    ensures
        next_status(false, StockSignal::InStock) && notifies(false, StockSignal::InStock),
        next_status(true, StockSignal::InStock) && !notifies(true, StockSignal::InStock),
        !next_status(false, StockSignal::OutOfStock) && !notifies(false, StockSignal::OutOfStock),
        !next_status(true, StockSignal::OutOfStock) && !notifies(true, StockSignal::OutOfStock),
        !next_status(false, StockSignal::Unknown) && !notifies(false, StockSignal::Unknown),
        next_status(true, StockSignal::Unknown) && !notifies(true, StockSignal::Unknown),
{
}

/// Notification is edge-triggered, not level-triggered: as long as no
/// `OutOfStock` reading intervenes, a run of observations notifies at most
/// once, and not at all if the product was already marked in stock.
pub proof fn lemma_notify_at_most_once(last: bool, signals: Seq<StockSignal>)
    requires
        forall|i: int| 0 <= i < signals.len() ==> signals[i] !is OutOfStock,
    ensures
        notify_count(last, signals) <= 1,
        last ==> notify_count(last, signals) == 0,
    decreases signals.len(),
{
    if signals.len() > 0 {
        assert(forall|i: int|
            0 <= i < signals.drop_first().len() ==> signals.drop_first()[i] == signals[i + 1]);
        lemma_notify_at_most_once(next_status(last, signals[0]), signals.drop_first());
    }
}

} // verus!
