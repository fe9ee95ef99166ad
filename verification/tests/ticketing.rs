use chrono::{DateTime, Duration, Utc};
use evgl_interfaces::ticketing::{
    idempotency_key, positive, CancelTicketOrder, ConfigureEventInventory, ConfirmTicketPayment,
    CreateTicketClass, CreateTicketOrder, HoldStatus, JoinWaitlist, OrderStatus, ReserveTickets,
    WaitlistStatus,
};
use evgl_interfaces::time::Timestamp;
use uuid::Uuid;

fn at(t: DateTime<Utc>) -> Timestamp {
    Timestamp::new(t.timestamp(), t.timestamp_subsec_nanos())
}

fn reserve(expires_at: Timestamp) -> ReserveTickets {
    ReserveTickets {
        event_id: Uuid::new_v4(),
        ticket_class_id: Uuid::new_v4(),
        quantity: 1,
        idempotency_key: "reserve-1".into(),
        expires_at,
    }
}

fn class() -> CreateTicketClass {
    CreateTicketClass {
        event_id: Uuid::new_v4(),
        name: "General admission".into(),
        capacity: 100,
        sale_starts_at: Timestamp::new(1_000, 0),
        sale_ends_at: Timestamp::new(2_000, 0),
    }
}

fn waitlist(reference: &str, quantity: i32) -> JoinWaitlist {
    JoinWaitlist {
        event_id: Uuid::new_v4(),
        ticket_class_id: Uuid::new_v4(),
        attendee_ref_hash: reference.into(),
        quantity,
    }
}

#[test]
fn reservation_rejects_expired_hold() {
    let now = Utc::now();
    let input = ReserveTickets {
        event_id: Uuid::new_v4(),
        ticket_class_id: Uuid::new_v4(),
        quantity: 1,
        idempotency_key: "reserve-1".into(),
        expires_at: at(now - Duration::seconds(1)),
    };

    assert_eq!(
        input.validate(at(now)).unwrap_err().0,
        "expires_at must be in the future"
    );
}

#[test]
fn waitlist_requires_opaque_non_pii_reference() {
    let input = JoinWaitlist {
        event_id: Uuid::new_v4(),
        ticket_class_id: Uuid::new_v4(),
        attendee_ref_hash: "short".into(),
        quantity: 1,
    };

    assert!(input.validate().is_err());
}

#[test]
fn positive_names_the_field() {
    assert_eq!(positive("capacity", 1), Ok(()));
    assert_eq!(positive("capacity", 0).unwrap_err().0, "capacity must be greater than zero");
    assert_eq!(positive("quantity", -5).unwrap_err().0, "quantity must be greater than zero");
}

#[test]
fn idempotency_key_bounds() {
    let msg = "idempotency key must contain 1 through 200 bytes";
    assert_eq!(idempotency_key("k"), Ok(()));
    assert_eq!(idempotency_key(&"k".repeat(200)), Ok(()));
    assert_eq!(idempotency_key(&"k".repeat(201)).unwrap_err().0, msg);
    assert_eq!(idempotency_key("").unwrap_err().0, msg);
    assert_eq!(idempotency_key(" \t").unwrap_err().0, msg);
}

#[test]
fn reservation_accepts_future_hold_and_checks_in_order() {
    let now = Timestamp::new(1_000, 0);
    assert_eq!(reserve(Timestamp::new(1_000, 1)).validate(now), Ok(()));
    assert_eq!(
        reserve(now).validate(now).unwrap_err().0,
        "expires_at must be in the future"
    );
    let mut r = reserve(Timestamp::new(0, 0));
    r.quantity = 0;
    r.idempotency_key = "".into();
    assert_eq!(r.validate(now).unwrap_err().0, "quantity must be greater than zero");
    r.quantity = 2;
    assert_eq!(
        r.validate(now).unwrap_err().0,
        "idempotency key must contain 1 through 200 bytes"
    );
}

#[test]
fn reservation_accepted_later_is_accepted_earlier() {
    let r = reserve(Timestamp::new(5_000, 0));
    assert_eq!(r.validate(Timestamp::new(4_999, 999_999_999)), Ok(()));
    assert_eq!(r.validate(Timestamp::new(0, 0)), Ok(()));
    assert!(r.validate(Timestamp::new(5_000, 0)).is_err());
}

#[test]
fn inventory_capacity_must_be_positive() {
    let ok = ConfigureEventInventory { event_id: Uuid::new_v4(), capacity: 10 };
    assert_eq!(ok.validate(), Ok(()));
    let bad = ConfigureEventInventory { event_id: Uuid::new_v4(), capacity: 0 };
    assert_eq!(bad.validate().unwrap_err().0, "capacity must be greater than zero");
}

#[test]
fn ticket_class_checks() {
    assert_eq!(class().validate(), Ok(()));
    let mut c = class();
    c.name = " ".into();
    assert_eq!(c.validate().unwrap_err().0, "name must contain 1 through 120 bytes");
    c.name = "n".repeat(121);
    assert_eq!(c.validate().unwrap_err().0, "name must contain 1 through 120 bytes");
    let mut c = class();
    c.capacity = -1;
    assert_eq!(c.validate().unwrap_err().0, "capacity must be greater than zero");
    let mut c = class();
    c.sale_ends_at = c.sale_starts_at;
    assert_eq!(c.validate().unwrap_err().0, "sale_ends_at must be after sale_starts_at");
}

#[test]
fn order_requests_check_their_idempotency_keys() {
    let msg = "idempotency key must contain 1 through 200 bytes";
    let order = CreateTicketOrder { hold_id: Uuid::new_v4(), checkout_idempotency_key: "c-1".into() };
    assert_eq!(order.validate(), Ok(()));
    let order = CreateTicketOrder { hold_id: Uuid::new_v4(), checkout_idempotency_key: "".into() };
    assert_eq!(order.validate().unwrap_err().0, msg);
    let pay = ConfirmTicketPayment { order_id: Uuid::new_v4(), payment_idempotency_key: "p-1".into() };
    assert_eq!(pay.validate(), Ok(()));
    let pay = ConfirmTicketPayment { order_id: Uuid::new_v4(), payment_idempotency_key: "p".repeat(201) };
    assert_eq!(pay.validate().unwrap_err().0, msg);
    let cancel = CancelTicketOrder {
        order_id: Uuid::new_v4(),
        cancellation_idempotency_key: "x-1".into(),
        refund: true,
    };
    assert_eq!(cancel.validate(), Ok(()));
    let cancel = CancelTicketOrder {
        order_id: Uuid::new_v4(),
        cancellation_idempotency_key: "\u{3000}".into(),
        refund: false,
    };
    assert_eq!(cancel.validate().unwrap_err().0, msg);
}

#[test]
fn waitlist_reference_bounds_and_quantity() {
    let msg = "attendee_ref_hash must contain 32 through 128 bytes";
    assert_eq!(waitlist(&"a".repeat(32), 1).validate(), Ok(()));
    assert_eq!(waitlist(&"a".repeat(128), 1).validate(), Ok(()));
    assert_eq!(waitlist(&"a".repeat(31), 1).validate().unwrap_err().0, msg);
    assert_eq!(waitlist(&"a".repeat(129), 1).validate().unwrap_err().0, msg);
    assert_eq!(
        waitlist("short", 0).validate().unwrap_err().0,
        "quantity must be greater than zero"
    );
}

#[test]
fn status_wire_names_round_trip() {
    for (s, n) in [
        (HoldStatus::Held, "held"),
        (HoldStatus::Converted, "converted"),
        (HoldStatus::Expired, "expired"),
        (HoldStatus::Cancelled, "cancelled"),
    ] {
        assert_eq!(s.wire_name(), n);
        assert_eq!(HoldStatus::from_wire_name(n), Some(s));
    }
    for (s, n) in [
        (OrderStatus::Pending, "pending"),
        (OrderStatus::Paid, "paid"),
        (OrderStatus::Cancelled, "cancelled"),
        (OrderStatus::Refunded, "refunded"),
    ] {
        assert_eq!(s.wire_name(), n);
        assert_eq!(OrderStatus::from_wire_name(n), Some(s));
    }
    for (s, n) in [
        (WaitlistStatus::Waiting, "waiting"),
        (WaitlistStatus::Offered, "offered"),
        (WaitlistStatus::Fulfilled, "fulfilled"),
        (WaitlistStatus::Cancelled, "cancelled"),
    ] {
        assert_eq!(s.wire_name(), n);
        assert_eq!(WaitlistStatus::from_wire_name(n), Some(s));
    }
    assert_eq!(OrderStatus::from_wire_name("refund"), None);
}
