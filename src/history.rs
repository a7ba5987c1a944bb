use vstd::prelude::*;
use crate::state::{receipt_step, vault_moved, PaymentRecord, PaymentState};

verus! {

/// The sum of a sequence of amounts.
pub open spec fn total(amounts: Seq<u64>) -> int
    decreases amounts.len(),
{
    if amounts.len() == 0 {
        0
    } else {
        total(amounts.drop_last()) + amounts.last()
    }
}

/// The ids that a run of receipts carries.
pub open spec fn receipt_ids(records: Seq<PaymentRecord>) -> Set<int> {
    records.map_values(|r: PaymentRecord| r.payment_id as int).to_set()
}

proof fn lemma_counts_follow_receipts(states: Seq<PaymentState>, records: Seq<PaymentRecord>, k: int)
    requires
        states.len() == records.len() + 1,
        states[0].total_payments == 0,
        forall|i: int|
            0 <= i < records.len() ==> receipt_step(states[i], states[i + 1], #[trigger] records[i]),
        0 <= k <= records.len(),
    ensures
        states[k].total_payments == k,
    decreases k,
{
    if k > 0 {
        lemma_counts_follow_receipts(states, records, k - 1);
        assert(receipt_step(states[k - 1], states[k], records[k - 1]));
    }
}

/// Over a run of successful payments from a freshly initialized state, the
/// counter equals the number of payments, the i-th receipt carries id i + 1,
/// and the receipts' ids are exactly 1 to the counter, none repeated.
pub proof fn lemma_receipt_ids_dense(states: Seq<PaymentState>, records: Seq<PaymentRecord>)
    requires
        states.len() == records.len() + 1,
        states[0].total_payments == 0,
        forall|i: int|
            0 <= i < records.len() ==> receipt_step(states[i], states[i + 1], #[trigger] records[i]),
    ensures
        states.last().total_payments == records.len(),
        forall|i: int| 0 <= i < records.len() ==> #[trigger] records[i].payment_id == i + 1,
        receipt_ids(records) == Set::new(
            |k: int| 1 <= k <= states.last().total_payments,
        ),
        forall|i: int, j: int|
            0 <= i < j < records.len() ==> #[trigger] records[i].payment_id
                != #[trigger] records[j].payment_id,
{
    let n = records.len() as int;
    lemma_counts_follow_receipts(states, records, n);
    assert forall|i: int| 0 <= i < n implies #[trigger] records[i].payment_id == i + 1 by {
        lemma_counts_follow_receipts(states, records, i + 1);
        assert(receipt_step(states[i], states[i + 1], records[i]));
    }
    let ids = records.map_values(|r: PaymentRecord| r.payment_id as int);
    assert forall|k: int| 1 <= k <= n implies #[trigger] receipt_ids(records).contains(k) by {
        assert(records[k - 1].payment_id == k);
        assert(ids[k - 1] == k);
    }
    assert forall|k: int| #[trigger] receipt_ids(records).contains(k) implies 1 <= k <= n by {
        let i = choose|i: int| 0 <= i < ids.len() && ids[i] == k;
        assert(records[i].payment_id == i + 1);
    }
    assert(receipt_ids(records) =~= Set::new(|k: int| 1 <= k <= states.last().total_payments));
}

/// Over any run of operations starting from an empty vault, where each step
/// moves the balance by what it received and what it withdrew, the vault
/// holds the sum received minus the sum withdrawn.
pub proof fn lemma_vault_balance(balances: Seq<u64>, received: Seq<u64>, withdrawn: Seq<u64>)
    requires
        balances.len() == received.len() + 1,
        withdrawn.len() == received.len(),
        balances[0] == 0,
        forall|i: int|
            0 <= i < received.len() ==> vault_moved(
                #[trigger] balances[i],
                balances[i + 1],
                received[i],
                withdrawn[i],
            ),
    ensures
        balances.last() == total(received) - total(withdrawn),
    decreases received.len(),
{
    let n = received.len() as int;
    if n > 0 {
        lemma_vault_balance(balances.drop_last(), received.drop_last(), withdrawn.drop_last());
        assert(vault_moved(balances[n - 1], balances[n], received[n - 1], withdrawn[n - 1]));
    }
}

} // verus!
