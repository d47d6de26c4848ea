use invoice_registry::{
    get_payment_status, Address, InvoiceAlreadyPaid, InvoiceCreation, InvoiceDoesNotExist,
    Invoice, InvoiceError, InvoiceEvent, InvalidAddress, UnauthorizedAccess, U256,
};

fn sender() -> Address {
    Address::repeat_byte(0x01)
}

#[test]
fn lib_test_create_invoice() {
    let mut c = InvoiceCreation::new();

    let recipient = Address::repeat_byte(0x11);
    let amount = U256::from(1000u64);
    let invoice_id = c.create_invoice(sender(), 1_700_000_000, recipient, amount).unwrap();

    assert_eq!(c.get_total_invoices(), U256::from(1));
    assert_eq!(c.get_invoice_status(invoice_id).unwrap(), 0u8); // Pending

    let recipient_invoices = c.get_invoices_for_address(recipient);
    assert_eq!(recipient_invoices.len(), 1);
    assert_eq!(recipient_invoices[0], invoice_id);
}

#[test]
fn tests_test_create_invoice() {
    let mut contract = InvoiceCreation::new();
    let recipient = Address::repeat_byte(0x11);
    let amount = U256::from(1000u64);
    let invoice_id = contract.create_invoice(sender(), 1_700_000_000, recipient, amount).unwrap();
    let (_sender, rec, amt, status, _timestamp, is_active) = contract.get_invoice(invoice_id).unwrap();
    assert_eq!(rec, recipient);
    assert_eq!(amt, amount);
    assert_eq!(status, 0u8); // Pending
    assert!(is_active);
}

#[test]
fn test_mark_invoice_as_paid() {
    let mut contract = InvoiceCreation::new();
    let recipient = Address::repeat_byte(0x22);
    let amount = U256::from(500u64);
    let invoice_id = contract.create_invoice(sender(), 1_700_000_000, recipient, amount).unwrap();
    // the recipient pays
    contract.mark_invoice_as_paid(recipient, 1_700_000_100, invoice_id).unwrap();
    let (_, _, _, status, _, _) = contract.get_invoice(invoice_id).unwrap();
    assert_eq!(status, 1u8); // Paid
}

#[test]
fn create_then_query() {
    let mut c = InvoiceCreation::new();
    let r = Address::repeat_byte(0x33);
    let id = c.create_invoice(sender(), 10, r, U256::from(1000u64)).unwrap();
    assert_eq!(id, U256::from(1u64));
    assert_eq!(c.get_invoice_status(id), Ok(0u8));
    assert_eq!(c.get_invoices_for_address(r), vec![U256::from(1u64)]);
}

#[test]
fn pay_then_pay_again() {
    let mut c = InvoiceCreation::new();
    let r = Address::repeat_byte(0x33);
    let id = c.create_invoice(sender(), 10, r, U256::from(1000u64)).unwrap();
    assert_eq!(c.mark_invoice_as_paid(r, 11, id), Ok(()));
    assert_eq!(c.get_invoice_status(id), Ok(1u8));
    assert_eq!(
        c.mark_invoice_as_paid(r, 12, id),
        Err(InvoiceError::InvoiceAlreadyPaid(InvoiceAlreadyPaid { invoice_id: id }))
    );
    assert_eq!(c.get_invoice_status(id), Ok(1u8));
}

#[test]
fn null_recipient_refused() {
    let mut c = InvoiceCreation::new();
    let null = Address::zero();
    assert_eq!(
        c.create_invoice(sender(), 10, null, U256::from(500u64)),
        Err(InvoiceError::InvalidAddress(InvalidAddress { addr: null }))
    );
    assert_eq!(c.get_total_invoices(), U256::from(0u64));
    assert!(c.events().is_empty());
}

#[test]
fn counts_for_sender() {
    let mut c = InvoiceCreation::new();
    let s = sender();
    let r1 = Address::repeat_byte(0x41);
    let r2 = Address::repeat_byte(0x42);
    c.create_invoice(s, 10, r1, U256::from(1u64)).unwrap();
    c.create_invoice(s, 11, r2, U256::from(2u64)).unwrap();
    assert_eq!(c.get_invoice_count_for_address(s), (U256::from(2u64), U256::from(0u64)));
    assert_eq!(c.get_invoice_count_for_address(r1), (U256::from(0u64), U256::from(1u64)));
}

#[test]
fn ids_are_allocated_one_to_n() {
    let mut c = InvoiceCreation::new();
    for n in 1..=5u64 {
        let id = c
            .create_invoice(sender(), n, Address::repeat_byte(n as u8 + 0x50), U256::from(n))
            .unwrap();
        assert_eq!(id, U256::from(n));
    }
    assert_eq!(c.get_total_invoices(), U256::from(5u64));
}

#[test]
fn written_fields_survive_payment() {
    let mut c = InvoiceCreation::new();
    let r = Address::repeat_byte(0x61);
    let id = c.create_invoice(sender(), 77, r, U256::from(900u64)).unwrap();
    let before = c.get_invoice(id).unwrap();
    c.mark_invoice_as_paid(r, 99, id).unwrap();
    let after = c.get_invoice(id).unwrap();
    assert_eq!(after.0, before.0);
    assert_eq!(after.1, before.1);
    assert_eq!(after.2, before.2);
    assert_eq!(after.4, before.4);
    assert_eq!(after.4, U256::from(77u64));
    assert_eq!(after.5, before.5);
    assert_eq!((before.3, after.3), (0u8, 1u8));
}

#[test]
fn only_recipient_may_pay() {
    let mut c = InvoiceCreation::new();
    let s = sender();
    let r = Address::repeat_byte(0x71);
    let id = c.create_invoice(s, 1, r, U256::from(5u64)).unwrap();
    assert_eq!(
        c.mark_invoice_as_paid(s, 2, id),
        Err(InvoiceError::UnauthorizedAccess(UnauthorizedAccess { caller: s, authorized: r }))
    );
    assert_eq!(c.get_invoice_status(id), Ok(0u8));
    assert_eq!(c.events().len(), 1);
}

#[test]
fn unallocated_ids_do_not_exist() {
    let mut c = InvoiceCreation::new();
    let r = Address::repeat_byte(0x81);
    c.create_invoice(sender(), 1, r, U256::from(5u64)).unwrap();
    let huge = U256 { limb0: 1, limb1: 0, limb2: 0, limb3: 1 };
    for k in [U256::from(0u64), U256::from(2u64), huge] {
        let e = Err(InvoiceError::InvoiceDoesNotExist(InvoiceDoesNotExist { invoice_id: k }));
        assert_eq!(c.get_invoice_status(k), e.map(|_: ()| 0u8));
        assert_eq!(c.is_invoice_owner(k, r), e.map(|_: ()| false));
        assert_eq!(c.mark_invoice_as_paid(r, 2, k), e);
        assert!(c.get_invoice(k).is_err());
    }
    assert_eq!(c.get_total_invoices(), U256::from(1u64));
}

#[test]
fn owner_is_the_sender() {
    let mut c = InvoiceCreation::new();
    let r = Address::repeat_byte(0x91);
    let id = c.create_invoice(sender(), 1, r, U256::from(5u64)).unwrap();
    assert_eq!(c.is_invoice_owner(id, sender()), Ok(true));
    assert_eq!(c.is_invoice_owner(id, r), Ok(false));
}

#[test]
fn filter_by_status() {
    let mut c = InvoiceCreation::new();
    let s = sender();
    let r = Address::repeat_byte(0xa1);
    let other = Address::repeat_byte(0xa2);
    let id1 = c.create_invoice(s, 1, r, U256::from(5u64)).unwrap();
    let id2 = c.create_invoice(s, 2, r, U256::from(6u64)).unwrap();
    let id3 = c.create_invoice(s, 3, other, U256::from(7u64)).unwrap();
    c.mark_invoice_as_paid(r, 4, id2).unwrap();
    assert_eq!(c.get_invoices_by_status_for_address(r, 0), vec![id1]);
    assert_eq!(c.get_invoices_by_status_for_address(r, 1), vec![id2]);
    assert_eq!(c.get_invoices_by_status_for_address(s, 0), vec![id1, id3]);
    assert!(c.get_invoices_by_status_for_address(s, 7).is_empty());
    assert!(c.get_invoices_by_status_for_address(s, 255).is_empty());
    assert_eq!(c.get_invoices_for_address(s), vec![id1, id2, id3]);
    assert!(c.get_invoices_for_address(Address::repeat_byte(0xee)).is_empty());
}

#[test]
fn self_invoice_counts_both_ways_and_self_pays() {
    let mut c = InvoiceCreation::new();
    let s = sender();
    let id = c.create_invoice(s, 1, s, U256::from(0u64)).unwrap();
    assert_eq!(c.get_invoice_count_for_address(s), (U256::from(1u64), U256::from(1u64)));
    assert_eq!(c.mark_invoice_as_paid(s, 2, id), Ok(()));
}

#[test]
fn one_event_per_successful_command() {
    let mut c = InvoiceCreation::new();
    let s = sender();
    let r = Address::repeat_byte(0xb1);
    let id = c.create_invoice(s, 40, r, U256::from(300u64)).unwrap();
    assert!(c.mark_invoice_as_paid(s, 41, id).is_err());
    c.mark_invoice_as_paid(r, 42, id).unwrap();
    assert!(c.mark_invoice_as_paid(r, 43, id).is_err());
    let events = c.events();
    assert_eq!(events.len(), 2);
    match events[0] {
        InvoiceEvent::Created(e) => {
            assert_eq!(e.invoice_id, id);
            assert_eq!(e.sender, s);
            assert_eq!(e.recipient, r);
            assert_eq!(e.amount, U256::from(300u64));
            assert_eq!(e.timestamp, U256::from(40u64));
        }
        InvoiceEvent::Paid(_) => panic!("expected a creation event"),
    }
    match events[1] {
        InvoiceEvent::Paid(e) => {
            assert_eq!(e.invoice_id, id);
            assert_eq!(e.payer, r);
            assert_eq!(e.amount, U256::from(300u64));
            assert_eq!(e.timestamp, U256::from(42u64));
        }
        InvoiceEvent::Created(_) => panic!("expected a payment event"),
    }
}

#[test]
fn status_codes() {
    assert_eq!(get_payment_status(0), 0);
    assert_eq!(get_payment_status(1), 1);
    assert_eq!(get_payment_status(2), 255);
    assert_eq!(get_payment_status(200), 255);
}

#[test]
fn primitives() {
    assert!(Address::zero().is_zero());
    assert!(!Address::repeat_byte(0x11).is_zero());
    let mut b = [0u8; 20];
    b[19] = 1;
    assert!(!Address { bytes: b }.is_zero());
    assert_ne!(Address { bytes: b }, Address::zero());
    assert_eq!(U256::from(7u64).to_u64(), Some(7));
    assert_eq!(U256 { limb0: 7, limb1: 1, limb2: 0, limb3: 0 }.to_u64(), None);
}

#[test]
fn loading_stored_records() {
    let mut c = InvoiceCreation::new();
    let r = Address::repeat_byte(0xc1);
    c.create_invoice(sender(), 1, r, U256::from(5u64)).unwrap();
    c.create_invoice(sender(), 2, r, U256::from(6u64)).unwrap();
    let good = vec![
        Invoice {
            invoice_id: U256::from(1u64),
            sender: sender(),
            recipient: r,
            amount: U256::from(5u64),
            timestamp: U256::from(1u64),
            status: 0,
            is_active: true,
        },
        Invoice {
            invoice_id: U256::from(2u64),
            sender: sender(),
            recipient: r,
            amount: U256::from(6u64),
            timestamp: U256::from(2u64),
            status: 1,
            is_active: true,
        },
    ];
    let loaded = InvoiceCreation::from_records(good.clone()).unwrap();
    assert_eq!(loaded.get_total_invoices(), U256::from(2u64));
    assert_eq!(loaded.get_invoice_status(U256::from(2u64)), Ok(1u8));
    assert!(loaded.events().is_empty());

    let mut misplaced = good.clone();
    misplaced[1].invoice_id = U256::from(3u64);
    assert!(InvoiceCreation::from_records(misplaced).is_none());
    let mut inactive = good.clone();
    inactive[0].is_active = false;
    assert!(InvoiceCreation::from_records(inactive).is_none());
    let mut bad_status = good;
    bad_status[0].status = 2;
    assert!(InvoiceCreation::from_records(bad_status).is_none());
    assert!(InvoiceCreation::from_records(Vec::new()).is_some());
}
