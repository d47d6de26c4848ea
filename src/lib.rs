//! An invoice registry: invoices binding a sender, a recipient and an amount,
//! each moving once from pending to paid at the hand of its recipient, with
//! queries by participant and by status.

use vstd::prelude::*;

pub mod invoice;
pub mod laws;
pub mod primitives;
pub mod registry;

verus! {

} // verus!

pub use invoice::{
    get_payment_status, InvalidAddress, InvalidAmount, Invoice, InvoiceAlreadyPaid,
    InvoiceCreated, InvoiceDoesNotExist, InvoiceError, InvoiceEvent, InvoicePaid,
    UnauthorizedAccess, STATUS_PAID, STATUS_PENDING, STATUS_UNKNOWN,
};
pub use primitives::{Address, U256};
pub use registry::InvoiceCreation;
