use vstd::prelude::*;

use crate::primitives::{Address, U256};

verus! {

/// Stored status code of an invoice awaiting payment.
pub const STATUS_PENDING: u8 = 0;

/// Stored status code of a settled invoice.
pub const STATUS_PAID: u8 = 1;

/// Status code reported for anything that is neither pending nor paid.
pub const STATUS_UNKNOWN: u8 = 255;

/// One invoice record: who issued it, who owes it, how much, when, and whether it is settled.
#[derive(Clone, Copy, Debug)]
pub struct Invoice {
    pub invoice_id: U256,
    pub sender: Address,
    pub recipient: Address,
    pub amount: U256,
    pub timestamp: U256,
    pub status: u8,
    pub is_active: bool,
}

#[derive(Clone, Copy, Debug, PartialEq, Eq)]
pub struct InvoiceDoesNotExist {
    pub invoice_id: U256,
}

#[derive(Clone, Copy, Debug, PartialEq, Eq)]
pub struct UnauthorizedAccess {
    pub caller: Address,
    pub authorized: Address,
}

#[derive(Clone, Copy, Debug, PartialEq, Eq)]
pub struct InvoiceAlreadyPaid {
    pub invoice_id: U256,
}

#[derive(Clone, Copy, Debug, PartialEq, Eq)]
pub struct InvalidAmount {
    pub amount: U256,
}

#[derive(Clone, Copy, Debug, PartialEq, Eq)]
pub struct InvalidAddress {
    pub addr: Address,
}

/// The business errors of the registry. `InvalidAmount` is declared for amount
/// validation but no operation currently reports it.
#[derive(Clone, Copy, Debug, PartialEq, Eq)]
pub enum InvoiceError {
    InvoiceDoesNotExist(InvoiceDoesNotExist),
    UnauthorizedAccess(UnauthorizedAccess),
    InvoiceAlreadyPaid(InvoiceAlreadyPaid),
    InvalidAmount(InvalidAmount),
    InvalidAddress(InvalidAddress),
}

/// Emitted once for each invoice created.
#[derive(Clone, Copy, Debug)]
pub struct InvoiceCreated {
    pub invoice_id: U256,
    pub sender: Address,
    pub recipient: Address,
    pub amount: U256,
    pub timestamp: U256,
}

/// Emitted once for each invoice settled.
#[derive(Clone, Copy, Debug)]
pub struct InvoicePaid {
    pub invoice_id: U256,
    pub payer: Address,
    pub amount: U256,
    pub timestamp: U256,
}

/// The event log entries that the registry's commands produce.
#[derive(Clone, Copy, Debug)]
pub enum InvoiceEvent {
    Created(InvoiceCreated),
    Paid(InvoicePaid),
}

/// Canonical status code of a stored status: pending and paid keep their
/// codes, anything else is reported as unknown.
pub open spec fn status_code(v: u8) -> u8 {
    if v == STATUS_PENDING {
        STATUS_PENDING
    } else if v == STATUS_PAID {
        STATUS_PAID
    } else {
        STATUS_UNKNOWN
    }
}

/// The records of a store are well formed: the record at position `i` has
/// identifier `i + 1`, is active, and is pending or paid.
pub open spec fn valid_records(recs: Seq<Invoice>) -> bool {
    &&& recs.len() <= u64::MAX
    &&& forall|i: int|
        0 <= i < recs.len() ==> {
            &&& (#[trigger] recs[i]).invoice_id == U256::of_u64((i + 1) as u64)
            &&& recs[i].is_active
            &&& (recs[i].status == STATUS_PENDING || recs[i].status == STATUS_PAID)
        }
}

/// The active record with identifier `id`, if there is one.
pub open spec fn lookup(recs: Seq<Invoice>, id: U256) -> Option<Invoice> {
    if 1 <= id.value() <= recs.len() && recs[id.value() - 1].is_active {
        Some(recs[id.value() - 1])
    } else {
        None
    }
}

pub open spec fn does_not_exist(id: U256) -> InvoiceError {
    InvoiceError::InvoiceDoesNotExist(InvoiceDoesNotExist { invoice_id: id })
}

/// The record that a creation appends to `recs`.
pub open spec fn new_invoice(
    recs: Seq<Invoice>,
    sender: Address,
    timestamp: u64,
    recipient: Address,
    amount: U256,
) -> Invoice {
    Invoice {
        invoice_id: U256::of_u64((recs.len() + 1) as u64),
        sender,
        recipient,
        amount,
        timestamp: U256::of_u64(timestamp),
        status: STATUS_PENDING,
        is_active: true,
    }
}

pub open spec fn created_event(inv: Invoice) -> InvoiceEvent {
    InvoiceEvent::Created(
        InvoiceCreated {
            invoice_id: inv.invoice_id,
            sender: inv.sender,
            recipient: inv.recipient,
            amount: inv.amount,
            timestamp: inv.timestamp,
        },
    )
}

/// Outcome of an attempt by `caller` to settle invoice `id`.
pub open spec fn pay_result(recs: Seq<Invoice>, caller: Address, id: U256) -> Result<
    (),
    InvoiceError,
> {
    match lookup(recs, id) {
        None => Err(does_not_exist(id)),
        Some(inv) => if caller != inv.recipient {
            Err(
                InvoiceError::UnauthorizedAccess(
                    UnauthorizedAccess { caller, authorized: inv.recipient },
                ),
            )
        } else if inv.status == STATUS_PAID {
            Err(InvoiceError::InvoiceAlreadyPaid(InvoiceAlreadyPaid { invoice_id: id }))
        } else {
            Ok(())
        },
    }
}

/// The records after invoice `id` is settled: its status becomes paid and
/// nothing else changes.
pub open spec fn after_payment(recs: Seq<Invoice>, id: U256) -> Seq<Invoice> {
    let inv = recs[id.value() - 1];
    recs.update(id.value() - 1, Invoice { status: STATUS_PAID, ..inv })
}

pub open spec fn paid_event(recs: Seq<Invoice>, caller: Address, id: U256, timestamp: u64) -> InvoiceEvent {
    InvoiceEvent::Paid(
        InvoicePaid {
            invoice_id: id,
            payer: caller,
            amount: recs[id.value() - 1].amount,
            timestamp: U256::of_u64(timestamp),
        },
    )
}

/// Outcome of asking for the status code of invoice `id`.
pub open spec fn status_result(recs: Seq<Invoice>, id: U256) -> Result<u8, InvoiceError> {
    match lookup(recs, id) {
        None => Err(does_not_exist(id)),
        Some(inv) => Ok(status_code(inv.status)),
    }
}

/// Outcome of asking whether `address` issued invoice `id`.
pub open spec fn owner_result(recs: Seq<Invoice>, id: U256, address: Address) -> Result<
    bool,
    InvoiceError,
> {
    match lookup(recs, id) {
        None => Err(does_not_exist(id)),
        Some(inv) => Ok(inv.sender == address),
    }
}

pub open spec fn involves(inv: Invoice, address: Address) -> bool {
    inv.sender == address || inv.recipient == address
}

/// Identifiers, in ascending order, of the active invoices that `address`
/// sent or receives.
pub open spec fn ids_for_address(recs: Seq<Invoice>, address: Address) -> Seq<U256>
    decreases recs.len(),
{
    if recs.len() == 0 {
        Seq::empty()
    } else {
        let rest = ids_for_address(recs.drop_last(), address);
        if recs.last().is_active && involves(recs.last(), address) {
            rest.push(recs.last().invoice_id)
        } else {
            rest
        }
    }
}

/// Identifiers, in ascending order, of the active invoices that `address`
/// sent or receives and whose stored status is `status_code(status)`.
pub open spec fn ids_for_address_with_status(recs: Seq<Invoice>, address: Address, status: u8) -> Seq<U256>
    decreases recs.len(),
{
    if recs.len() == 0 {
        Seq::empty()
    } else {
        let rest = ids_for_address_with_status(recs.drop_last(), address, status);
        let inv = recs.last();
        if inv.is_active && inv.status == status_code(status) && involves(inv, address) {
            rest.push(inv.invoice_id)
        } else {
            rest
        }
    }
}

/// Number of active invoices that `address` sent.
pub open spec fn sent_count(recs: Seq<Invoice>, address: Address) -> nat
    decreases recs.len(),
{
    if recs.len() == 0 {
        0
    } else {
        sent_count(recs.drop_last(), address) + if recs.last().is_active && recs.last().sender
            == address {
            1nat
        } else {
            0nat
        }
    }
}

/// Number of active invoices that `address` receives.
pub open spec fn received_count(recs: Seq<Invoice>, address: Address) -> nat
    decreases recs.len(),
{
    if recs.len() == 0 {
        0
    } else {
        received_count(recs.drop_last(), address) + if recs.last().is_active
            && recs.last().recipient == address {
            1nat
        } else {
            0nat
        }
    }
}

/// Maps a stored status to its canonical code.
pub fn get_payment_status(status_value: u8) -> (r: u8)
    ensures
        r == status_code(status_value),
{
    match status_value {
        0 => STATUS_PENDING,
        1 => STATUS_PAID,
        _ => STATUS_UNKNOWN,
    }
}

} // verus!
