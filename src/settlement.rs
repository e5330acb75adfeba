//! Applying a batch of settlement entries to the open orders, one entry at a
//! time: an entry that cannot apply is reported and the rest still apply.
use crate::msg::{SettlementEntry, UnsuccessfulOrder};
use crate::types::Order;
use crate::utils::SignedDecimal;
use vstd::prelude::*;

verus! {

/// Whether some order in `orders` has the id.
pub open spec fn has_order(orders: Seq<Order>, id: u64) -> bool {
    exists|k: int| 0 <= k < orders.len() && #[trigger] orders[k].id == id
}

/// The position of the first order with the id, when there is one.
pub open spec fn first_with_id(orders: Seq<Order>, id: u64) -> int
    decreases orders.len(),
{
    if orders.len() == 0 {
        0
    } else if orders[0].id == id {
        0
    } else {
        1 + first_with_id(orders.drop_first(), id)
    }
}

/// Whether the entry can apply: its order exists and has at least the
/// entry's quantity left.
pub open spec fn entry_applies(orders: Seq<Order>, e: SettlementEntry) -> bool {
    has_order(orders, e.order_id) && orders[first_with_id(orders, e.order_id)].remaining_quantity.value()
        >= e.quantity@
}

/// The orders after one entry: when it applies, its order's remaining
/// quantity goes down by the entry's quantity; otherwise nothing changes.
pub open spec fn settle_one(orders: Seq<Order>, e: SettlementEntry) -> Seq<Order> {
    if entry_applies(orders, e) {
        let k = first_with_id(orders, e.order_id);
        let o = orders[k];
        orders.update(
            k,
            Order {
                remaining_quantity: SignedDecimal::sub_spec(
                    o.remaining_quantity,
                    SignedDecimal { decimal: e.quantity, negative: false },
                ),
                ..o
            },
        )
    } else {
        orders
    }
}

/// The orders after the entries, applied in turn.
pub open spec fn settle_all(orders: Seq<Order>, entries: Seq<SettlementEntry>) -> Seq<Order>
    decreases entries.len(),
{
    if entries.len() == 0 {
        orders
    } else {
        settle_one(settle_all(orders, entries.drop_last()), entries.last())
    }
}

/// The ids of the entries that could not apply, in order.
pub open spec fn failed_ids(orders: Seq<Order>, entries: Seq<SettlementEntry>) -> Seq<u64>
    decreases entries.len(),
{
    if entries.len() == 0 {
        seq![]
    } else {
        let before = settle_all(orders, entries.drop_last());
        failed_ids(orders, entries.drop_last()) + if entry_applies(before, entries.last()) {
            seq![]
        } else {
            seq![entries.last().order_id]
        }
    }
}

/// Why an entry that cannot apply is reported.
pub open spec fn failure_reason(orders: Seq<Order>, e: SettlementEntry) -> Seq<char> {
    if has_order(orders, e.order_id) {
        "Insufficient remaining quantity"@
    } else {
        "Order not found"@
    }
}

/// The reasons reported for the entries that could not apply, in order.
pub open spec fn failed_reasons(orders: Seq<Order>, entries: Seq<SettlementEntry>) -> Seq<Seq<char>>
    decreases entries.len(),
{
    if entries.len() == 0 {
        seq![]
    } else {
        let before = settle_all(orders, entries.drop_last());
        failed_reasons(orders, entries.drop_last()) + if entry_applies(before, entries.last()) {
            seq![]
        } else {
            seq![failure_reason(before, entries.last())]
        }
    }
}

proof fn lemma_first_with_id(orders: Seq<Order>, id: u64)
    requires
        has_order(orders, id),
    ensures
        0 <= first_with_id(orders, id) < orders.len(),
        orders[first_with_id(orders, id)].id == id,
        forall|j: int| 0 <= j < first_with_id(orders, id) ==> #[trigger] orders[j].id != id,
    decreases orders.len(),
{
    if orders[0].id != id {
        let k = choose|k: int| 0 <= k < orders.len() && #[trigger] orders[k].id == id;
        assert(orders.drop_first()[k - 1].id == id);
        lemma_first_with_id(orders.drop_first(), id);
        assert forall|j: int| 0 <= j < first_with_id(orders, id) implies #[trigger] orders[j].id
            != id by {
            if j > 0 {
                assert(orders[j] == orders.drop_first()[j - 1]);
            }
        }
    }
}

/// Where the first order with the id stands, if any.
fn find_order(orders: &Vec<Order>, id: u64) -> (r: Option<usize>)
    ensures
        r is None ==> !has_order(orders@, id),
        r matches Some(k) ==> has_order(orders@, id) && k == first_with_id(orders@, id) && k
            < orders@.len(),
{
    let mut i: usize = 0;
    while i < orders.len()
        invariant
            i <= orders@.len(),
            forall|j: int| 0 <= j < i ==> #[trigger] orders@[j].id != id,
        decreases orders.len() - i,
    {
        if orders[i].id == id {
            proof {
                assert(has_order(orders@, id));
                lemma_first_with_id(orders@, id);
                let f = first_with_id(orders@, id);
                if f < i {
                    assert(orders@[f].id != id);
                }
                if f > i {
                    assert(orders@[i as int].id != id);
                }
            }
            return Some(i);
        }
        i = i + 1;
    }
    None
}

/// Applies the entries to the orders one after another. An entry whose order
/// does not exist, or has less left than the entry's quantity, changes
/// nothing and is reported with its id and the reason; the other entries
/// still apply.
pub fn apply_settlement_entries(orders: &mut Vec<Order>, entries: &Vec<SettlementEntry>) -> (r: Vec<
    UnsuccessfulOrder,
>)
    ensures
        final(orders)@ == settle_all(old(orders)@, entries@),
        r@.len() == failed_ids(old(orders)@, entries@).len(),
        r@.len() == failed_reasons(old(orders)@, entries@).len(),
        forall|i: int|
            0 <= i < r@.len() ==> #[trigger] r@[i].id == failed_ids(old(orders)@, entries@)[i],
        forall|i: int|
            0 <= i < r@.len() ==> #[trigger] r@[i].reason@ == failed_reasons(old(orders)@, entries@)[i],
{
    let ghost start = orders@;
    let mut failed: Vec<UnsuccessfulOrder> = Vec::new();
    let mut n: usize = 0;
    while n < entries.len()
        invariant
            n <= entries@.len(),
            orders@ == settle_all(start, entries@.subrange(0, n as int)),
            failed@.len() == failed_ids(start, entries@.subrange(0, n as int)).len(),
            failed@.len() == failed_reasons(start, entries@.subrange(0, n as int)).len(),
            forall|i: int|
                0 <= i < failed@.len() ==> #[trigger] failed@[i].id == failed_ids(
                    start,
                    entries@.subrange(0, n as int),
                )[i],
            forall|i: int|
                0 <= i < failed@.len() ==> #[trigger] failed@[i].reason@ == failed_reasons(
                    start,
                    entries@.subrange(0, n as int),
                )[i],
        decreases entries.len() - n,
    {
        let e = &entries[n];
        let ghost prefix = entries@.subrange(0, n as int);
        let ghost next = entries@.subrange(0, n + 1);
        assert(next.drop_last() =~= prefix);
        assert(next.last() == *e);
        match find_order(orders, e.order_id) {
            None => {
                let reason = String::from_str("Order not found");
                failed.push(UnsuccessfulOrder { id: e.order_id, reason });
            },
            Some(k) => {
                let remaining = orders[k].remaining_quantity;
                let quantity = SignedDecimal::new(e.quantity);
                if let std::cmp::Ordering::Less = remaining.cmp(&quantity) {
                    let reason = String::from_str("Insufficient remaining quantity");
                    failed.push(UnsuccessfulOrder { id: e.order_id, reason });
                } else {
                    let ghost before = orders@;
                    let mut o = orders.remove(k);
                    o.remaining_quantity = remaining.sub(quantity);
                    orders.insert(k, o);
                    proof {
                        assert(entry_applies(before, *e));
                        assert(orders@ =~= before.update(k as int, o));
                        assert(orders@ =~= settle_one(before, *e));
                    }
                }
            },
        }
        n = n + 1;
    }
    assert(entries@.subrange(0, n as int) =~= entries@);
    failed
}

} // verus!

verus! {

/// Settling keeps the number of orders and each order's id.
proof fn lemma_settle_keeps_ids(orders: Seq<Order>, entries: Seq<SettlementEntry>)
    ensures
        settle_all(orders, entries).len() == orders.len(),
        forall|k: int|
            0 <= k < orders.len() ==> #[trigger] settle_all(orders, entries)[k].id == orders[k].id,
    decreases entries.len(),
{
    if entries.len() > 0 {
        lemma_settle_keeps_ids(orders, entries.drop_last());
        let before = settle_all(orders, entries.drop_last());
        if entry_applies(before, entries.last()) {
            lemma_first_with_id(before, entries.last().order_id);
        }
    }
}

/// An id that no order has is still missing after any settling.
proof fn lemma_missing_stays_missing(orders: Seq<Order>, entries: Seq<SettlementEntry>, id: u64)
    requires
        !has_order(orders, id),
    ensures
        !has_order(settle_all(orders, entries), id),
{
    lemma_settle_keeps_ids(orders, entries);
    let s = settle_all(orders, entries);
    if has_order(s, id) {
        let k = choose|k: int| 0 <= k < s.len() && #[trigger] s[k].id == id;
        assert(orders[k].id == id);
    }
}

/// Dropping an entry whose order does not exist leaves the settled orders as
/// they are.
proof fn lemma_skip_missing(
    orders: Seq<Order>,
    pre: Seq<SettlementEntry>,
    e: SettlementEntry,
    post: Seq<SettlementEntry>,
)
    requires
        !has_order(orders, e.order_id),
    ensures
        settle_all(orders, pre + seq![e] + post) == settle_all(orders, pre + post),
    decreases post.len(),
{
    if post.len() == 0 {
        assert((pre + seq![e] + post).drop_last() =~= pre);
        assert(pre + post =~= pre);
        lemma_missing_stays_missing(orders, pre, e.order_id);
    } else {
        lemma_skip_missing(orders, pre, e, post.drop_last());
        assert((pre + seq![e] + post).drop_last() =~= pre + seq![e] + post.drop_last());
        assert((pre + post).drop_last() =~= pre + post.drop_last());
    }
}

/// The failures of a batch begin with the failures of any prefix of it.
proof fn lemma_failed_prefix(orders: Seq<Order>, entries: Seq<SettlementEntry>, n: int)
    requires
        0 <= n <= entries.len(),
    ensures
        failed_ids(orders, entries.subrange(0, n)).is_prefix_of(failed_ids(orders, entries)),
    decreases entries.len(),
{
    if n < entries.len() {
        assert(entries.drop_last().subrange(0, n) =~= entries.subrange(0, n));
        lemma_failed_prefix(orders, entries.drop_last(), n);
    } else {
        assert(entries.subrange(0, n) =~= entries);
    }
}

/// In a batch, an entry whose order does not exist is reported as failed,
/// and the orders come out as if that entry were not in the batch: every
/// other entry still applies.
pub proof fn lemma_missing_order_is_isolated(
    orders: Seq<Order>,
    entries: Seq<SettlementEntry>,
    i: int,
)
    requires
        0 <= i < entries.len(),
        !has_order(orders, entries[i].order_id),
    ensures
        settle_all(orders, entries) == settle_all(orders, entries.remove(i)),
        failed_ids(orders, entries.subrange(0, i + 1)).last() == entries[i].order_id,
        failed_ids(orders, entries.subrange(0, i + 1)).is_prefix_of(failed_ids(orders, entries)),
{
    let pre = entries.subrange(0, i);
    let post = entries.subrange(i + 1, entries.len() as int);
    assert(entries =~= pre + seq![entries[i]] + post);
    assert(entries.remove(i) =~= pre + post);
    lemma_skip_missing(orders, pre, entries[i], post);
    let upto = entries.subrange(0, i + 1);
    assert(upto.drop_last() =~= pre);
    lemma_missing_stays_missing(orders, pre, entries[i].order_id);
    lemma_failed_prefix(orders, entries, i + 1);
}

} // verus!
