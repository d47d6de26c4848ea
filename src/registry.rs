use vstd::prelude::*;

use crate::invoice::{
    after_payment, created_event, does_not_exist, get_payment_status, ids_for_address,
    ids_for_address_with_status, lookup, new_invoice, owner_result, paid_event, pay_result,
    received_count, sent_count, status_code, status_result, valid_records, InvalidAddress,
    Invoice, InvoiceAlreadyPaid, InvoiceCreated, InvoiceDoesNotExist, InvoiceError,
    InvoiceEvent, InvoicePaid, UnauthorizedAccess, STATUS_PAID, STATUS_PENDING,
};
use crate::primitives::{Address, U256};

verus! {

/// The invoice registry: a store of invoice records indexed by identifier
/// (identifier `i` at position `i - 1`), with the log of events its commands
/// emitted.
pub struct InvoiceCreation {
    invoices: Vec<Invoice>,
    events: Vec<InvoiceEvent>,
}

impl InvoiceCreation {
    /// The stored records, in order of identifier.
    pub closed spec fn records(&self) -> Seq<Invoice> {
        self.invoices@
    }

    /// The events emitted so far, oldest first.
    pub closed spec fn event_log(&self) -> Seq<InvoiceEvent> {
        self.events@
    }

    /// Well formed: identifiers are the positions 1, 2, ... of the records,
    /// every record is active, and every status is pending or paid.
    pub open spec fn wf(&self) -> bool {
        valid_records(self.records())
    }

    /// An empty registry.
    pub fn new() -> (r: InvoiceCreation)
        ensures
            r.wf(),
            r.records() == Seq::<Invoice>::empty(),
            r.event_log() == Seq::<InvoiceEvent>::empty(),
    {
        InvoiceCreation { invoices: Vec::new(), events: Vec::new() }
    }

    /// A registry over previously stored `records` with an empty event log,
    /// or `None` when the records are not well formed (an identifier out of
    /// place, an inactive record, a status neither pending nor paid).
    pub fn from_records(records: Vec<Invoice>) -> (r: Option<InvoiceCreation>)
        ensures
            r is Some <==> valid_records(records@),
            r matches Some(reg) ==> reg.wf() && reg.records() == records@ && reg.event_log()
                == Seq::<InvoiceEvent>::empty(),
    {
        let n = records.len();
        let mut i: usize = 0;
        while i < n
            invariant
                n == records@.len(),
                0 <= i <= n,
                forall|j: int|
                    0 <= j < i ==> {
                        &&& (#[trigger] records@[j]).invoice_id == U256::of_u64((j + 1) as u64)
                        &&& records@[j].is_active
                        &&& (records@[j].status == STATUS_PENDING || records@[j].status
                            == STATUS_PAID)
                    },
            decreases n - i,
        {
            if i as u64 == u64::MAX {
                return None;
            }
            let rec = records[i];
            if !(rec.invoice_id == U256::from(i as u64 + 1) && rec.is_active && (rec.status
                == STATUS_PENDING || rec.status == STATUS_PAID)) {
                return None;
            }
            i = i + 1;
        }
        Some(InvoiceCreation { invoices: records, events: Vec::new() })
    }

    /// Position of the active record with identifier `invoice_id`, or
    /// `InvoiceDoesNotExist`.
    fn validate_invoice_exists(&self, invoice_id: U256) -> (r: Result<usize, InvoiceError>)
        requires
            self.wf(),
        ensures
            match lookup(self.records(), invoice_id) {
                None => r == Err::<usize, InvoiceError>(does_not_exist(invoice_id)),
                Some(_) => r is Ok && r->Ok_0 == invoice_id.value() - 1,
            },
    {
        match invoice_id.to_u64() {
            None => Err(InvoiceError::InvoiceDoesNotExist(InvoiceDoesNotExist { invoice_id })),
            Some(v) => {
                if v >= 1 && v <= self.invoices.len() as u64 {
                    let idx = (v - 1) as usize;
                    if self.invoices[idx].is_active {
                        Ok(idx)
                    } else {
                        Err(InvoiceError::InvoiceDoesNotExist(InvoiceDoesNotExist { invoice_id }))
                    }
                } else {
                    Err(InvoiceError::InvoiceDoesNotExist(InvoiceDoesNotExist { invoice_id }))
                }
            },
        }
    }

    /// Creates an invoice from `sender`, issued at `timestamp`, by which
    /// `recipient_address` owes `amount`, and returns its identifier: one more
    /// than the number of invoices created before. A null recipient is refused
    /// with `InvalidAddress` and changes nothing. Any amount is accepted.
    pub fn create_invoice(
        &mut self,
        sender: Address,
        timestamp: u64,
        recipient_address: Address,
        amount: U256,
    ) -> (r: Result<U256, InvoiceError>)
        requires
            old(self).wf(),
            old(self).records().len() < u64::MAX,
        ensures
            final(self).wf(),
            recipient_address.is_null() ==> {
                &&& r == Err::<U256, InvoiceError>(
                    InvoiceError::InvalidAddress(InvalidAddress { addr: recipient_address }),
                )
                &&& *final(self) == *old(self)
            },
            !recipient_address.is_null() ==> {
                let inv = new_invoice(
                    old(self).records(),
                    sender,
                    timestamp,
                    recipient_address,
                    amount,
                );
                &&& r == Ok::<U256, InvoiceError>(inv.invoice_id)
                &&& inv.invoice_id.value() == old(self).records().len() + 1
                &&& final(self).records() == old(self).records().push(inv)
                &&& final(self).event_log() == old(self).event_log().push(created_event(inv))
            },
    {
        if recipient_address.is_zero() {
            return Err(InvoiceError::InvalidAddress(InvalidAddress { addr: recipient_address }));
        }
        let new_invoice_id = U256::from(self.invoices.len() as u64 + 1);
        let inv = Invoice {
            invoice_id: new_invoice_id,
            sender,
            recipient: recipient_address,
            amount,
            timestamp: U256::from(timestamp),
            status: STATUS_PENDING,
            is_active: true,
        };
        self.invoices.push(inv);
        self.events.push(
            InvoiceEvent::Created(
                InvoiceCreated {
                    invoice_id: new_invoice_id,
                    sender,
                    recipient: recipient_address,
                    amount,
                    timestamp: inv.timestamp,
                },
            ),
        );
        proof {
            assert(self.records() =~= old(self).records().push(inv));
        }
        Ok(new_invoice_id)
    }

    /// Settles invoice `invoice_id` on behalf of `caller` at `timestamp`. It
    /// fails, changing nothing, with `InvoiceDoesNotExist` when no such invoice
    /// exists, with `UnauthorizedAccess` when `caller` is not its recipient, and
    /// with `InvoiceAlreadyPaid` when it is settled already; otherwise its
    /// status becomes paid and nothing else in the store changes.
    pub fn mark_invoice_as_paid(&mut self, caller: Address, timestamp: u64, invoice_id: U256) -> (r:
        Result<(), InvoiceError>)
        requires
            old(self).wf(),
        ensures
            final(self).wf(),
            r == pay_result(old(self).records(), caller, invoice_id),
            r is Err ==> *final(self) == *old(self),
            r is Ok ==> {
                &&& final(self).records() == after_payment(old(self).records(), invoice_id)
                &&& final(self).event_log() == old(self).event_log().push(
                    paid_event(old(self).records(), caller, invoice_id, timestamp),
                )
            },
    {
        let idx = match self.validate_invoice_exists(invoice_id) {
            Ok(idx) => idx,
            Err(e) => {
                return Err(e);
            },
        };
        let invoice = self.invoices[idx];
        let recipient = invoice.recipient;
        if caller != recipient {
            return Err(
                InvoiceError::UnauthorizedAccess(UnauthorizedAccess { caller, authorized: recipient }),
            );
        }
        if invoice.status == STATUS_PAID {
            return Err(InvoiceError::InvoiceAlreadyPaid(InvoiceAlreadyPaid { invoice_id }));
        }
        let paid = Invoice { status: STATUS_PAID, ..invoice };
        self.invoices.set(idx, paid);
        self.events.push(
            InvoiceEvent::Paid(
                InvoicePaid {
                    invoice_id,
                    payer: caller,
                    amount: invoice.amount,
                    timestamp: U256::from(timestamp),
                },
            ),
        );
        proof {
            assert(self.records() =~= after_payment(old(self).records(), invoice_id));
        }
        Ok(())
    }

    /// Canonical status code of invoice `invoice_id` (pending 0, paid 1), or
    /// `InvoiceDoesNotExist`.
    pub fn get_invoice_status(&self, invoice_id: U256) -> (r: Result<u8, InvoiceError>)
        requires
            self.wf(),
        ensures
            r == status_result(self.records(), invoice_id),
    {
        let idx = match self.validate_invoice_exists(invoice_id) {
            Ok(idx) => idx,
            Err(e) => {
                return Err(e);
            },
        };
        Ok(get_payment_status(self.invoices[idx].status))
    }

    /// Identifiers, ascending, of the invoices that `address` sent or receives.
    pub fn get_invoices_for_address(&self, address: Address) -> (r: Vec<U256>)
        requires
            self.wf(),
        ensures
            r@ == ids_for_address(self.records(), address),
    {
        let mut result: Vec<U256> = Vec::new();
        let n = self.invoices.len();
        let mut i: usize = 0;
        while i < n
            invariant
                n == self.records().len(),
                0 <= i <= n,
                result@ == ids_for_address(self.records().take(i as int), address),
            decreases n - i,
        {
            let invoice = self.invoices[i];
            proof {
                let pre = self.records().take(i + 1);
                assert(pre.drop_last() =~= self.records().take(i as int));
                assert(pre.last() == invoice);
            }
            if invoice.is_active {
                if invoice.sender == address || invoice.recipient == address {
                    result.push(invoice.invoice_id);
                }
            }
            i = i + 1;
        }
        proof {
            assert(self.records().take(n as int) =~= self.records());
        }
        result
    }

    /// Whether `address` issued invoice `invoice_id`, or `InvoiceDoesNotExist`.
    pub fn is_invoice_owner(&self, invoice_id: U256, address: Address) -> (r: Result<
        bool,
        InvoiceError,
    >)
        requires
            self.wf(),
        ensures
            r == owner_result(self.records(), invoice_id, address),
    {
        let idx = match self.validate_invoice_exists(invoice_id) {
            Ok(idx) => idx,
            Err(e) => {
                return Err(e);
            },
        };
        Ok(self.invoices[idx].sender == address)
    }

    /// Number of invoices ever created.
    pub fn get_total_invoices(&self) -> (r: U256)
        requires
            self.wf(),
        ensures
            r == U256::of_u64(self.records().len() as u64),
            r.value() == self.records().len(),
    {
        U256::from(self.invoices.len() as u64)
    }

    /// Identifiers, ascending, of the invoices that `address` sent or receives
    /// and whose status is `status` (0 pending, 1 paid). Any other `status`
    /// matches nothing.
    pub fn get_invoices_by_status_for_address(&self, address: Address, status: u8) -> (r: Vec<
        U256,
    >)
        requires
            self.wf(),
        ensures
            r@ == ids_for_address_with_status(self.records(), address, status),
    {
        let target_status = get_payment_status(status);
        let mut result: Vec<U256> = Vec::new();
        let n = self.invoices.len();
        let mut i: usize = 0;
        while i < n
            invariant
                n == self.records().len(),
                0 <= i <= n,
                target_status == status_code(status),
                result@ == ids_for_address_with_status(
                    self.records().take(i as int),
                    address,
                    status,
                ),
            decreases n - i,
        {
            let invoice = self.invoices[i];
            proof {
                let pre = self.records().take(i + 1);
                assert(pre.drop_last() =~= self.records().take(i as int));
                assert(pre.last() == invoice);
            }
            if invoice.is_active && invoice.status == target_status {
                if invoice.sender == address || invoice.recipient == address {
                    result.push(invoice.invoice_id);
                }
            }
            i = i + 1;
        }
        proof {
            assert(self.records().take(n as int) =~= self.records());
        }
        result
    }

    /// How many invoices `address` sent and how many it receives. An invoice
    /// whose sender is its recipient counts on both sides.
    pub fn get_invoice_count_for_address(&self, address: Address) -> (r: (U256, U256))
        requires
            self.wf(),
        ensures
            r.0.value() == sent_count(self.records(), address),
            r.1.value() == received_count(self.records(), address),
    {
        let mut sent: u64 = 0;
        let mut received: u64 = 0;
        let n = self.invoices.len();
        let mut i: usize = 0;
        while i < n
            invariant
                n == self.records().len(),
                n <= u64::MAX,
                0 <= i <= n,
                sent == sent_count(self.records().take(i as int), address),
                received == received_count(self.records().take(i as int), address),
                sent <= i,
                received <= i,
            decreases n - i,
        {
            let invoice = self.invoices[i];
            proof {
                let pre = self.records().take(i + 1);
                assert(pre.drop_last() =~= self.records().take(i as int));
                assert(pre.last() == invoice);
            }
            if invoice.is_active {
                if invoice.sender == address {
                    sent = sent + 1;
                }
                if invoice.recipient == address {
                    received = received + 1;
                }
            }
            i = i + 1;
        }
        proof {
            assert(self.records().take(n as int) =~= self.records());
        }
        (U256::from(sent), U256::from(received))
    }

    /// All fields of invoice `invoice_id` as (sender, recipient, amount, status
    /// code, timestamp, active), or `InvoiceDoesNotExist`.
    pub fn get_invoice(&self, invoice_id: U256) -> (r: Result<
        (Address, Address, U256, u8, U256, bool),
        InvoiceError,
    >)
        requires
            self.wf(),
        ensures
            match lookup(self.records(), invoice_id) {
                None => r == Err::<(Address, Address, U256, u8, U256, bool), InvoiceError>(
                    does_not_exist(invoice_id),
                ),
                Some(inv) => r == Ok::<(Address, Address, U256, u8, U256, bool), InvoiceError>(
                    (
                        inv.sender,
                        inv.recipient,
                        inv.amount,
                        status_code(inv.status),
                        inv.timestamp,
                        inv.is_active,
                    ),
                ),
            },
    {
        let idx = match self.validate_invoice_exists(invoice_id) {
            Ok(idx) => idx,
            Err(e) => {
                return Err(e);
            },
        };
        let inv = self.invoices[idx];
        Ok(
            (
                inv.sender,
                inv.recipient,
                inv.amount,
                get_payment_status(inv.status),
                inv.timestamp,
                inv.is_active,
            ),
        )
    }

    /// The events emitted so far, oldest first.
    pub fn events(&self) -> (r: &Vec<InvoiceEvent>)
        ensures
            r@ == self.event_log(),
    {
        &self.events
    }
}

} // verus!
