use vstd::prelude::*;

use crate::invoice::{
    after_payment, does_not_exist, lookup, new_invoice, owner_result, pay_result, status_result,
    valid_records, Invoice, InvoiceAlreadyPaid, InvoiceError, UnauthorizedAccess, STATUS_PAID,
    STATUS_PENDING,
};
use crate::primitives::{Address, U256};

verus! {

/// Identifiers are handed out in order: in a well-formed store the record at
/// position `i` has identifier `i + 1`, and a creation appends the record with
/// the next identifier, so that the store stays well formed. Hence the
/// identifiers returned by successive creations are exactly 1, 2, ..., N.
pub proof fn lemma_allocation_is_monotonic(
    recs: Seq<Invoice>,
    sender: Address,
    timestamp: u64,
    recipient: Address,
    amount: U256,
)
    requires
        valid_records(recs),
        recs.len() < u64::MAX,
    ensures
        forall|i: int| 0 <= i < recs.len() ==> (#[trigger] recs[i]).invoice_id.value() == i + 1,
        new_invoice(recs, sender, timestamp, recipient, amount).invoice_id.value() == recs.len()
            + 1,
        valid_records(recs.push(new_invoice(recs, sender, timestamp, recipient, amount))),
{
    assert forall|i: int| 0 <= i < recs.len() implies (#[trigger] recs[i]).invoice_id.value() == i
        + 1 by {
        assert(recs[i].invoice_id == U256::of_u64((i + 1) as u64));
    }
    let post = recs.push(new_invoice(recs, sender, timestamp, recipient, amount));
    assert forall|i: int| 0 <= i < post.len() implies {
        &&& (#[trigger] post[i]).invoice_id == U256::of_u64((i + 1) as u64)
        &&& post[i].is_active
        &&& (post[i].status == STATUS_PENDING || post[i].status == STATUS_PAID)
    } by {
        if i < recs.len() {
            assert(post[i] == recs[i]);
        }
    }
}

/// The records after one successful creation for each request of `reqs`, in
/// order, each request giving sender, timestamp, recipient and amount.
pub open spec fn after_creations(
    recs: Seq<Invoice>,
    reqs: Seq<(Address, u64, Address, U256)>,
) -> Seq<Invoice>
    decreases reqs.len(),
{
    if reqs.len() == 0 {
        recs
    } else {
        let prev = after_creations(recs, reqs.drop_last());
        let (sender, timestamp, recipient, amount) = reqs.last();
        prev.push(new_invoice(prev, sender, timestamp, recipient, amount))
    }
}

pub proof fn lemma_after_creations_len(recs: Seq<Invoice>, reqs: Seq<(Address, u64, Address, U256)>)
    ensures
        after_creations(recs, reqs).len() == recs.len() + reqs.len(),
    decreases reqs.len(),
{
    if reqs.len() > 0 {
        lemma_after_creations_len(recs, reqs.drop_last());
    }
}

/// Starting from an empty store, the `j`-th of N successful creations
/// (counting from 0) returns identifier `j + 1`: the identifiers returned are
/// exactly 1, 2, ..., N, in call order.
pub proof fn lemma_creations_return_one_to_n(reqs: Seq<(Address, u64, Address, U256)>)
    requires
        reqs.len() < u64::MAX,
    ensures
        forall|j: int|
            0 <= j < reqs.len() ==> {
                let prev = #[trigger] after_creations(Seq::<Invoice>::empty(), reqs.take(j));
                new_invoice(prev, reqs[j].0, reqs[j].1, reqs[j].2, reqs[j].3).invoice_id.value()
                    == j + 1
            },
{
    assert forall|j: int| 0 <= j < reqs.len() implies {
        let prev = #[trigger] after_creations(Seq::<Invoice>::empty(), reqs.take(j));
        new_invoice(prev, reqs[j].0, reqs[j].1, reqs[j].2, reqs[j].3).invoice_id.value() == j + 1
    } by {
        lemma_after_creations_len(Seq::<Invoice>::empty(), reqs.take(j));
    }
}

/// Sender, recipient, amount and timestamp are written once: a creation leaves
/// every earlier record as it was, and a payment changes the status of the
/// paid record alone.
pub proof fn lemma_written_fields_never_change(recs: Seq<Invoice>, id: U256, created: Invoice)
    requires
        valid_records(recs),
        lookup(recs, id) is Some,
    ensures
        forall|i: int| 0 <= i < recs.len() ==> (#[trigger] recs.push(created)[i]) == recs[i],
        after_payment(recs, id).len() == recs.len(),
        forall|i: int|
            0 <= i < recs.len() ==> {
                let (a, b) = (#[trigger] after_payment(recs, id)[i], recs[i]);
                &&& a.invoice_id == b.invoice_id
                &&& a.sender == b.sender
                &&& a.recipient == b.recipient
                &&& a.amount == b.amount
                &&& a.timestamp == b.timestamp
                &&& a.is_active == b.is_active
            },
{
}

/// A created invoice is pending.
pub proof fn lemma_created_invoice_is_pending(
    recs: Seq<Invoice>,
    sender: Address,
    timestamp: u64,
    recipient: Address,
    amount: U256,
)
    requires
        valid_records(recs),
        recs.len() < u64::MAX,
    ensures
        ({
            let inv = new_invoice(recs, sender, timestamp, recipient, amount);
            status_result(recs.push(inv), inv.invoice_id) == Ok::<u8, InvoiceError>(
                STATUS_PENDING,
            )
        }),
{
    let inv = new_invoice(recs, sender, timestamp, recipient, amount);
    assert(recs.push(inv)[recs.len() as int] == inv);
}

/// The status moves once, from pending to paid: a payment that succeeds finds
/// the invoice pending and leaves it paid, and a second payment of the same
/// invoice by the same caller fails with `InvoiceAlreadyPaid`.
pub proof fn lemma_single_transition(recs: Seq<Invoice>, caller: Address, id: U256)
    requires
        valid_records(recs),
        pay_result(recs, caller, id) is Ok,
    ensures
        status_result(recs, id) == Ok::<u8, InvoiceError>(STATUS_PENDING),
        valid_records(after_payment(recs, id)),
        status_result(after_payment(recs, id), id) == Ok::<u8, InvoiceError>(STATUS_PAID),
        pay_result(after_payment(recs, id), caller, id) == Err::<(), InvoiceError>(
            InvoiceError::InvoiceAlreadyPaid(InvoiceAlreadyPaid { invoice_id: id }),
        ),
{
    let post = after_payment(recs, id);
    assert forall|i: int| 0 <= i < post.len() implies {
        &&& (#[trigger] post[i]).invoice_id == U256::of_u64((i + 1) as u64)
        &&& post[i].is_active
        &&& (post[i].status == STATUS_PENDING || post[i].status == STATUS_PAID)
    } by {
        assert(recs[i].invoice_id == U256::of_u64((i + 1) as u64));
    }
}

/// Only the recipient may settle an invoice: any other caller is refused with
/// `UnauthorizedAccess`, naming the caller and the recipient.
pub proof fn lemma_only_recipient_can_pay(recs: Seq<Invoice>, caller: Address, id: U256)
    requires
        lookup(recs, id) is Some,
        caller != lookup(recs, id)->Some_0.recipient,
    ensures
        pay_result(recs, caller, id) == Err::<(), InvoiceError>(
            InvoiceError::UnauthorizedAccess(
                UnauthorizedAccess { caller, authorized: lookup(recs, id)->Some_0.recipient },
            ),
        ),
{
}

/// An identifier that no creation handed out names no invoice: every query
/// and command on it fails with `InvoiceDoesNotExist`.
pub proof fn lemma_unallocated_ids_are_rejected(
    recs: Seq<Invoice>,
    k: U256,
    caller: Address,
    address: Address,
)
    requires
        !(1 <= k.value() <= recs.len()),
    ensures
        lookup(recs, k) is None,
        pay_result(recs, caller, k) == Err::<(), InvoiceError>(does_not_exist(k)),
        status_result(recs, k) == Err::<u8, InvoiceError>(does_not_exist(k)),
        owner_result(recs, k, address) == Err::<bool, InvoiceError>(does_not_exist(k)),
{
}

} // verus!
