//! Ticket inventory, orders and waitlist: records and request validation.
use uuid::Uuid;
use vstd::prelude::*;

use crate::first_failure;
use crate::text::{byte_len, is_blank, is_blank_text, same_text, utf8_len};
use crate::time::Timestamp;

verus! {

#[derive(Debug, Clone, Copy, PartialEq, Eq, Structural)]
pub enum HoldStatus {
    Held,
    Converted,
    Expired,
    Cancelled,
}

#[derive(Debug, Clone, Copy, PartialEq, Eq, Structural)]
pub enum OrderStatus {
    Pending,
    Paid,
    Cancelled,
    Refunded,
}

#[derive(Debug, Clone, Copy, PartialEq, Eq, Structural)]
pub enum WaitlistStatus {
    Waiting,
    Offered,
    Fulfilled,
    Cancelled,
}

impl HoldStatus {
    /// The name of the hold status on the wire (snake case).
    pub open spec fn wire(self) -> Seq<char> {
        match self {
            HoldStatus::Held => "held"@,
            HoldStatus::Converted => "converted"@,
            HoldStatus::Expired => "expired"@,
            HoldStatus::Cancelled => "cancelled"@,
        }
    }

    /// The hold status that a wire name denotes, if any.
    pub open spec fn parse_wire(name: Seq<char>) -> Option<HoldStatus> {
        if name == "held"@ {
            Some(HoldStatus::Held)
        } else if name == "converted"@ {
            Some(HoldStatus::Converted)
        } else if name == "expired"@ {
            Some(HoldStatus::Expired)
        } else if name == "cancelled"@ {
            Some(HoldStatus::Cancelled)
        } else {
            None
        }
    }

    /// The name of the hold status on the wire.
    pub fn wire_name(&self) -> (name: &'static str)
        ensures
            name@ == self.wire(),
            *self == HoldStatus::Held ==> name@ == "held"@,
            *self == HoldStatus::Converted ==> name@ == "converted"@,
            *self == HoldStatus::Expired ==> name@ == "expired"@,
            *self == HoldStatus::Cancelled ==> name@ == "cancelled"@,
    {
        match self {
            HoldStatus::Held => "held",
            HoldStatus::Converted => "converted",
            HoldStatus::Expired => "expired",
            HoldStatus::Cancelled => "cancelled",
        }
    }

    /// The hold status that a wire name denotes; `None` for any other text.
    pub fn from_wire_name(name: &str) -> (s: Option<HoldStatus>)
        ensures
            s == HoldStatus::parse_wire(name@),
            name@ == "held"@ ==> s == Some(HoldStatus::Held),
            name@ == "converted"@ ==> s == Some(HoldStatus::Converted),
            name@ == "expired"@ ==> s == Some(HoldStatus::Expired),
            name@ == "cancelled"@ ==> s == Some(HoldStatus::Cancelled),
            s is None <==> (name@ != "held"@ && name@ != "converted"@ && name@ != "expired"@ && name@ != "cancelled"@),
    {
        proof {
            law_hold_status_wire_names();
        }
        if same_text(name, "held") {
            Some(HoldStatus::Held)
        } else if same_text(name, "converted") {
            Some(HoldStatus::Converted)
        } else if same_text(name, "expired") {
            Some(HoldStatus::Expired)
        } else if same_text(name, "cancelled") {
            Some(HoldStatus::Cancelled)
        } else {
            None
        }
    }
}

/// The wire name of each HoldStatus variant is the variant's name in snake case,
/// and those are the only names that denote one.
pub proof fn law_hold_status_wire_names()
    ensures
        HoldStatus::Held.wire() == "held"@,
        HoldStatus::Converted.wire() == "converted"@,
        HoldStatus::Expired.wire() == "expired"@,
        HoldStatus::Cancelled.wire() == "cancelled"@,
        HoldStatus::parse_wire("held"@) == Some(HoldStatus::Held),
        HoldStatus::parse_wire("converted"@) == Some(HoldStatus::Converted),
        HoldStatus::parse_wire("expired"@) == Some(HoldStatus::Expired),
        HoldStatus::parse_wire("cancelled"@) == Some(HoldStatus::Cancelled),
        forall|name: Seq<char>| HoldStatus::parse_wire(name) is None <==> (name != "held"@ && name != "converted"@ && name != "expired"@ && name != "cancelled"@),
{
    reveal_strlit("held");
    reveal_strlit("converted");
    reveal_strlit("expired");
    reveal_strlit("cancelled");
    assert("held"@.len() != "converted"@.len());
    assert("held"@.len() != "expired"@.len());
    assert("held"@.len() != "cancelled"@.len());
    assert("converted"@.len() != "expired"@.len());
    assert("converted"@[1] != "cancelled"@[1]);
    assert("expired"@.len() != "cancelled"@.len());
}

/// Every hold status reads back from its wire name, and a wire name denotes only
/// the hold status it names.
pub proof fn law_hold_status_wire_round_trip(s: HoldStatus, name: Seq<char>)
    ensures
        HoldStatus::parse_wire(s.wire()) == Some(s),
        HoldStatus::parse_wire(name) == Some(s) ==> name == s.wire(),
{
    reveal_strlit("held");
    reveal_strlit("converted");
    reveal_strlit("expired");
    reveal_strlit("cancelled");
    assert("held"@.len() != "converted"@.len());
    assert("held"@.len() != "expired"@.len());
    assert("held"@.len() != "cancelled"@.len());
    assert("converted"@.len() != "expired"@.len());
    assert("converted"@[1] != "cancelled"@[1]);
    assert("expired"@.len() != "cancelled"@.len());
}


impl OrderStatus {
    /// The name of the order status on the wire (snake case).
    pub open spec fn wire(self) -> Seq<char> {
        match self {
            OrderStatus::Pending => "pending"@,
            OrderStatus::Paid => "paid"@,
            OrderStatus::Cancelled => "cancelled"@,
            OrderStatus::Refunded => "refunded"@,
        }
    }

    /// The order status that a wire name denotes, if any.
    pub open spec fn parse_wire(name: Seq<char>) -> Option<OrderStatus> {
        if name == "pending"@ {
            Some(OrderStatus::Pending)
        } else if name == "paid"@ {
            Some(OrderStatus::Paid)
        } else if name == "cancelled"@ {
            Some(OrderStatus::Cancelled)
        } else if name == "refunded"@ {
            Some(OrderStatus::Refunded)
        } else {
            None
        }
    }

    /// The name of the order status on the wire.
    pub fn wire_name(&self) -> (name: &'static str)
        ensures
            name@ == self.wire(),
            *self == OrderStatus::Pending ==> name@ == "pending"@,
            *self == OrderStatus::Paid ==> name@ == "paid"@,
            *self == OrderStatus::Cancelled ==> name@ == "cancelled"@,
            *self == OrderStatus::Refunded ==> name@ == "refunded"@,
    {
        match self {
            OrderStatus::Pending => "pending",
            OrderStatus::Paid => "paid",
            OrderStatus::Cancelled => "cancelled",
            OrderStatus::Refunded => "refunded",
        }
    }

    /// The order status that a wire name denotes; `None` for any other text.
    pub fn from_wire_name(name: &str) -> (s: Option<OrderStatus>)
        ensures
            s == OrderStatus::parse_wire(name@),
            name@ == "pending"@ ==> s == Some(OrderStatus::Pending),
            name@ == "paid"@ ==> s == Some(OrderStatus::Paid),
            name@ == "cancelled"@ ==> s == Some(OrderStatus::Cancelled),
            name@ == "refunded"@ ==> s == Some(OrderStatus::Refunded),
            s is None <==> (name@ != "pending"@ && name@ != "paid"@ && name@ != "cancelled"@ && name@ != "refunded"@),
    {
        proof {
            law_order_status_wire_names();
        }
        if same_text(name, "pending") {
            Some(OrderStatus::Pending)
        } else if same_text(name, "paid") {
            Some(OrderStatus::Paid)
        } else if same_text(name, "cancelled") {
            Some(OrderStatus::Cancelled)
        } else if same_text(name, "refunded") {
            Some(OrderStatus::Refunded)
        } else {
            None
        }
    }
}

/// The wire name of each OrderStatus variant is the variant's name in snake case,
/// and those are the only names that denote one.
pub proof fn law_order_status_wire_names()
    ensures
        OrderStatus::Pending.wire() == "pending"@,
        OrderStatus::Paid.wire() == "paid"@,
        OrderStatus::Cancelled.wire() == "cancelled"@,
        OrderStatus::Refunded.wire() == "refunded"@,
        OrderStatus::parse_wire("pending"@) == Some(OrderStatus::Pending),
        OrderStatus::parse_wire("paid"@) == Some(OrderStatus::Paid),
        OrderStatus::parse_wire("cancelled"@) == Some(OrderStatus::Cancelled),
        OrderStatus::parse_wire("refunded"@) == Some(OrderStatus::Refunded),
        forall|name: Seq<char>| OrderStatus::parse_wire(name) is None <==> (name != "pending"@ && name != "paid"@ && name != "cancelled"@ && name != "refunded"@),
{
    reveal_strlit("pending");
    reveal_strlit("paid");
    reveal_strlit("cancelled");
    reveal_strlit("refunded");
    assert("pending"@.len() != "paid"@.len());
    assert("pending"@.len() != "cancelled"@.len());
    assert("pending"@.len() != "refunded"@.len());
    assert("paid"@.len() != "cancelled"@.len());
    assert("paid"@.len() != "refunded"@.len());
    assert("cancelled"@.len() != "refunded"@.len());
}

/// Every order status reads back from its wire name, and a wire name denotes only
/// the order status it names.
pub proof fn law_order_status_wire_round_trip(s: OrderStatus, name: Seq<char>)
    ensures
        OrderStatus::parse_wire(s.wire()) == Some(s),
        OrderStatus::parse_wire(name) == Some(s) ==> name == s.wire(),
{
    reveal_strlit("pending");
    reveal_strlit("paid");
    reveal_strlit("cancelled");
    reveal_strlit("refunded");
    assert("pending"@.len() != "paid"@.len());
    assert("pending"@.len() != "cancelled"@.len());
    assert("pending"@.len() != "refunded"@.len());
    assert("paid"@.len() != "cancelled"@.len());
    assert("paid"@.len() != "refunded"@.len());
    assert("cancelled"@.len() != "refunded"@.len());
}


impl WaitlistStatus {
    /// The name of the waitlist status on the wire (snake case).
    pub open spec fn wire(self) -> Seq<char> {
        match self {
            WaitlistStatus::Waiting => "waiting"@,
            WaitlistStatus::Offered => "offered"@,
            WaitlistStatus::Fulfilled => "fulfilled"@,
            WaitlistStatus::Cancelled => "cancelled"@,
        }
    }

    /// The waitlist status that a wire name denotes, if any.
    pub open spec fn parse_wire(name: Seq<char>) -> Option<WaitlistStatus> {
        if name == "waiting"@ {
            Some(WaitlistStatus::Waiting)
        } else if name == "offered"@ {
            Some(WaitlistStatus::Offered)
        } else if name == "fulfilled"@ {
            Some(WaitlistStatus::Fulfilled)
        } else if name == "cancelled"@ {
            Some(WaitlistStatus::Cancelled)
        } else {
            None
        }
    }

    /// The name of the waitlist status on the wire.
    pub fn wire_name(&self) -> (name: &'static str)
        ensures
            name@ == self.wire(),
            *self == WaitlistStatus::Waiting ==> name@ == "waiting"@,
            *self == WaitlistStatus::Offered ==> name@ == "offered"@,
            *self == WaitlistStatus::Fulfilled ==> name@ == "fulfilled"@,
            *self == WaitlistStatus::Cancelled ==> name@ == "cancelled"@,
    {
        match self {
            WaitlistStatus::Waiting => "waiting",
            WaitlistStatus::Offered => "offered",
            WaitlistStatus::Fulfilled => "fulfilled",
            WaitlistStatus::Cancelled => "cancelled",
        }
    }

    /// The waitlist status that a wire name denotes; `None` for any other text.
    pub fn from_wire_name(name: &str) -> (s: Option<WaitlistStatus>)
        ensures
            s == WaitlistStatus::parse_wire(name@),
            name@ == "waiting"@ ==> s == Some(WaitlistStatus::Waiting),
            name@ == "offered"@ ==> s == Some(WaitlistStatus::Offered),
            name@ == "fulfilled"@ ==> s == Some(WaitlistStatus::Fulfilled),
            name@ == "cancelled"@ ==> s == Some(WaitlistStatus::Cancelled),
            s is None <==> (name@ != "waiting"@ && name@ != "offered"@ && name@ != "fulfilled"@ && name@ != "cancelled"@),
    {
        proof {
            law_waitlist_status_wire_names();
        }
        if same_text(name, "waiting") {
            Some(WaitlistStatus::Waiting)
        } else if same_text(name, "offered") {
            Some(WaitlistStatus::Offered)
        } else if same_text(name, "fulfilled") {
            Some(WaitlistStatus::Fulfilled)
        } else if same_text(name, "cancelled") {
            Some(WaitlistStatus::Cancelled)
        } else {
            None
        }
    }
}

/// The wire name of each WaitlistStatus variant is the variant's name in snake case,
/// and those are the only names that denote one.
pub proof fn law_waitlist_status_wire_names()
    ensures
        WaitlistStatus::Waiting.wire() == "waiting"@,
        WaitlistStatus::Offered.wire() == "offered"@,
        WaitlistStatus::Fulfilled.wire() == "fulfilled"@,
        WaitlistStatus::Cancelled.wire() == "cancelled"@,
        WaitlistStatus::parse_wire("waiting"@) == Some(WaitlistStatus::Waiting),
        WaitlistStatus::parse_wire("offered"@) == Some(WaitlistStatus::Offered),
        WaitlistStatus::parse_wire("fulfilled"@) == Some(WaitlistStatus::Fulfilled),
        WaitlistStatus::parse_wire("cancelled"@) == Some(WaitlistStatus::Cancelled),
        forall|name: Seq<char>| WaitlistStatus::parse_wire(name) is None <==> (name != "waiting"@ && name != "offered"@ && name != "fulfilled"@ && name != "cancelled"@),
{
    reveal_strlit("waiting");
    reveal_strlit("offered");
    reveal_strlit("fulfilled");
    reveal_strlit("cancelled");
    assert("waiting"@[0] != "offered"@[0]);
    assert("waiting"@.len() != "fulfilled"@.len());
    assert("waiting"@.len() != "cancelled"@.len());
    assert("offered"@.len() != "fulfilled"@.len());
    assert("offered"@.len() != "cancelled"@.len());
    assert("fulfilled"@[0] != "cancelled"@[0]);
}

/// Every waitlist status reads back from its wire name, and a wire name denotes only
/// the waitlist status it names.
pub proof fn law_waitlist_status_wire_round_trip(s: WaitlistStatus, name: Seq<char>)
    ensures
        WaitlistStatus::parse_wire(s.wire()) == Some(s),
        WaitlistStatus::parse_wire(name) == Some(s) ==> name == s.wire(),
{
    reveal_strlit("waiting");
    reveal_strlit("offered");
    reveal_strlit("fulfilled");
    reveal_strlit("cancelled");
    assert("waiting"@[0] != "offered"@[0]);
    assert("waiting"@.len() != "fulfilled"@.len());
    assert("waiting"@.len() != "cancelled"@.len());
    assert("offered"@.len() != "fulfilled"@.len());
    assert("offered"@.len() != "cancelled"@.len());
    assert("fulfilled"@[0] != "cancelled"@[0]);
}


#[derive(Debug, Clone)]
pub struct TicketClass {
    pub id: Uuid,
    pub event_id: Uuid,
    pub name: String,
    pub capacity: i32,
    pub sale_starts_at: Timestamp,
    pub sale_ends_at: Timestamp,
}

#[derive(Debug, Clone)]
pub struct TicketHold {
    pub id: Uuid,
    pub event_id: Uuid,
    pub ticket_class_id: Uuid,
    pub quantity: i32,
    pub status: HoldStatus,
    pub expires_at: Timestamp,
    pub created_at: Timestamp,
}

#[derive(Debug, Clone)]
pub struct TicketOrder {
    pub id: Uuid,
    pub event_id: Uuid,
    pub ticket_class_id: Uuid,
    pub hold_id: Uuid,
    pub quantity: i32,
    pub status: OrderStatus,
    pub created_at: Timestamp,
    pub updated_at: Timestamp,
}

#[derive(Debug, Clone)]
pub struct WaitlistEntry {
    pub id: Uuid,
    pub event_id: Uuid,
    pub ticket_class_id: Uuid,
    /// Stable one-way reference supplied by the caller; never attendee PII.
    pub attendee_ref_hash: String,
    pub quantity: i32,
    pub position: i64,
    pub status: WaitlistStatus,
    pub created_at: Timestamp,
}

#[derive(Debug, Clone)]
pub struct WaitlistOffer {
    pub id: Uuid,
    pub waitlist_entry_id: Uuid,
    pub hold_id: Uuid,
    pub expires_at: Timestamp,
    pub created_at: Timestamp,
}

#[derive(Debug, Clone)]
pub struct InventoryReceipt {
    pub event_id: Uuid,
    pub event_capacity: i32,
    pub held: i64,
    pub sold: i64,
    pub remaining: i64,
    pub generated_at: Timestamp,
}

#[derive(Debug, Clone)]
pub struct ConfigureEventInventory {
    pub event_id: Uuid,
    pub capacity: i32,
}

#[derive(Debug, Clone)]
pub struct CreateTicketClass {
    pub event_id: Uuid,
    pub name: String,
    pub capacity: i32,
    pub sale_starts_at: Timestamp,
    pub sale_ends_at: Timestamp,
}

#[derive(Debug, Clone)]
pub struct ReserveTickets {
    pub event_id: Uuid,
    pub ticket_class_id: Uuid,
    pub quantity: i32,
    pub idempotency_key: String,
    pub expires_at: Timestamp,
}

#[derive(Debug, Clone)]
pub struct CreateTicketOrder {
    pub hold_id: Uuid,
    pub checkout_idempotency_key: String,
}

#[derive(Debug, Clone)]
pub struct ConfirmTicketPayment {
    pub order_id: Uuid,
    pub payment_idempotency_key: String,
}

#[derive(Debug, Clone)]
pub struct CancelTicketOrder {
    pub order_id: Uuid,
    pub cancellation_idempotency_key: String,
    pub refund: bool,
}

#[derive(Debug, Clone)]
pub struct JoinWaitlist {
    pub event_id: Uuid,
    pub ticket_class_id: Uuid,
    pub attendee_ref_hash: String,
    pub quantity: i32,
}

/// A rejected ticketing request; the field holds the reason.
#[derive(Debug, Clone, PartialEq, Eq)]
pub struct TicketingValidationError(pub String);

/// `r` is the outcome that `failure` describes: `Ok` when there is no
/// failure, else an error whose text is the failure's message.
pub open spec fn ticketing_outcome(
    r: Result<(), TicketingValidationError>,
    failure: Option<Seq<char>>,
) -> bool {
    match r {
        Ok(_) => failure is None,
        Err(e) => failure == Some(e.0@),
    }
}

/// The failure of a count that must be greater than zero.
pub open spec fn positive_failure(field: Seq<char>, value: i32) -> Option<Seq<char>> {
    if value <= 0 {
        Some(field + " must be greater than zero"@)
    } else {
        None
    }
}

/// The failure of an idempotency key, which must hold something besides
/// white space and at most 200 bytes.
pub open spec fn idempotency_key_failure(value: Seq<char>) -> Option<Seq<char>> {
    if is_blank_text(value) || utf8_len(value) > 200 {
        Some("idempotency key must contain 1 through 200 bytes"@)
    } else {
        None
    }
}

/// Checks that `value`, the count named `field`, is greater than zero.
pub fn positive(field: &str, value: i32) -> (r: Result<(), TicketingValidationError>)
    ensures
        ticketing_outcome(r, positive_failure(field@, value)),
        r is Ok <==> value > 0,
        value <= 0 ==> (r matches Err(e) && e.0@ == field@ + " must be greater than zero"@),
{
    if value <= 0 {
        let mut message = String::from_str(field);
        message.append(" must be greater than zero");
        return Err(TicketingValidationError(message));
    }
    Ok(())
}

/// Checks that an idempotency key holds something besides white space and
/// at most 200 bytes.
pub fn idempotency_key(value: &str) -> (r: Result<(), TicketingValidationError>)
    ensures
        ticketing_outcome(r, idempotency_key_failure(value@)),
        r is Ok <==> (!is_blank_text(value@) && utf8_len(value@) <= 200),
        r matches Err(e) ==> e.0@ == "idempotency key must contain 1 through 200 bytes"@,
{
    if is_blank(value) || byte_len(value) > 200 {
        return Err(TicketingValidationError(String::from_str("idempotency key must contain 1 through 200 bytes")));
    }
    Ok(())
}

impl ConfigureEventInventory {
    pub open spec fn failure(&self) -> Option<Seq<char>> {
        positive_failure("capacity"@, self.capacity)
    }

    /// Accepts a capacity greater than zero.
    pub fn validate(&self) -> (r: Result<(), TicketingValidationError>)
        ensures
            ticketing_outcome(r, self.failure()),
            r is Ok <==> self.capacity > 0,
            r matches Err(e) ==> e.0@ == "capacity must be greater than zero"@,
    {
        proof {
            lemma_count_messages();
        }
        positive("capacity", self.capacity)
    }
}

impl CreateTicketClass {
    pub open spec fn failure(&self) -> Option<Seq<char>> {
        first_failure(
            if is_blank_text(self.name@) || utf8_len(self.name@) > 120 {
                Some("name must contain 1 through 120 bytes"@)
            } else {
                None
            },
            first_failure(
                positive_failure("capacity"@, self.capacity),
                if self.sale_ends_at.not_later_than(self.sale_starts_at) {
                    Some("sale_ends_at must be after sale_starts_at"@)
                } else {
                    None
                },
            ),
        )
    }

    /// Accepts a class whose name holds 1 through 120 bytes besides white
    /// space, whose capacity is positive and whose sale ends after it starts.
    pub fn validate(&self) -> (r: Result<(), TicketingValidationError>)
        ensures
            ticketing_outcome(r, self.failure()),
            r is Ok <==> {
                &&& !is_blank_text(self.name@)
                &&& utf8_len(self.name@) <= 120
                &&& self.capacity > 0
                &&& self.sale_starts_at.earlier_than(self.sale_ends_at)
            },
            is_blank_text(self.name@) || utf8_len(self.name@) > 120
                ==> (r matches Err(e) && e.0@ == "name must contain 1 through 120 bytes"@),
            !is_blank_text(self.name@) && utf8_len(self.name@) <= 120 && self.capacity <= 0
                ==> (r matches Err(e) && e.0@ == "capacity must be greater than zero"@),
            !is_blank_text(self.name@) && utf8_len(self.name@) <= 120 && self.capacity > 0
                && !self.sale_starts_at.earlier_than(self.sale_ends_at)
                ==> (r matches Err(e) && e.0@ == "sale_ends_at must be after sale_starts_at"@),
    {
        proof {
            lemma_count_messages();
        }
        if is_blank(self.name.as_str()) || byte_len(self.name.as_str()) > 120 {
            return Err(TicketingValidationError(String::from_str("name must contain 1 through 120 bytes")));
        }
        match positive("capacity", self.capacity) {
            Ok(()) => {},
            Err(e) => return Err(e),
        }
        if self.sale_ends_at.is_at_or_before(&self.sale_starts_at) {
            return Err(TicketingValidationError(String::from_str("sale_ends_at must be after sale_starts_at")));
        }
        Ok(())
    }
}

impl ReserveTickets {
    pub open spec fn failure(&self, now: Timestamp) -> Option<Seq<char>> {
        first_failure(
            positive_failure("quantity"@, self.quantity),
            first_failure(
                idempotency_key_failure(self.idempotency_key@),
                if self.expires_at.not_later_than(now) {
                    Some("expires_at must be in the future"@)
                } else {
                    None
                },
            ),
        )
    }

    /// Accepts a reservation of a positive quantity with a valid
    /// idempotency key whose hold expires after `now`.
    pub fn validate(&self, now: Timestamp) -> (r: Result<(), TicketingValidationError>)
        ensures
            ticketing_outcome(r, self.failure(now)),
            r is Ok <==> {
                &&& self.quantity > 0
                &&& !is_blank_text(self.idempotency_key@)
                &&& utf8_len(self.idempotency_key@) <= 200
                &&& now.earlier_than(self.expires_at)
            },
            self.quantity <= 0 ==> (r matches Err(e) && e.0@ == "quantity must be greater than zero"@),
            self.quantity > 0 && (is_blank_text(self.idempotency_key@) || utf8_len(self.idempotency_key@) > 200)
                ==> (r matches Err(e) && e.0@ == "idempotency key must contain 1 through 200 bytes"@),
            self.quantity > 0 && !is_blank_text(self.idempotency_key@) && utf8_len(self.idempotency_key@) <= 200
                && !now.earlier_than(self.expires_at)
                ==> (r matches Err(e) && e.0@ == "expires_at must be in the future"@),
    {
        proof {
            lemma_count_messages();
        }
        match positive("quantity", self.quantity) {
            Ok(()) => {},
            Err(e) => return Err(e),
        }
        match idempotency_key(self.idempotency_key.as_str()) {
            Ok(()) => {},
            Err(e) => return Err(e),
        }
        if self.expires_at.is_at_or_before(&now) {
            return Err(TicketingValidationError(String::from_str("expires_at must be in the future")));
        }
        Ok(())
    }
}

/// A reservation accepted at some instant is accepted at every earlier
/// instant: checking sooner never rejects what a later check accepts.
pub proof fn law_reservation_accepted_earlier(r: ReserveTickets, earlier: Timestamp, later: Timestamp)
    requires
        earlier.not_later_than(later),
        r.failure(later) is None,
    ensures
        r.failure(earlier) is None,
{
}

impl CreateTicketOrder {
    pub open spec fn failure(&self) -> Option<Seq<char>> {
        idempotency_key_failure(self.checkout_idempotency_key@)
    }

    /// Accepts a checkout request with a valid idempotency key.
    pub fn validate(&self) -> (r: Result<(), TicketingValidationError>)
        ensures
            ticketing_outcome(r, self.failure()),
            r is Ok <==> (!is_blank_text(self.checkout_idempotency_key@) && utf8_len(self.checkout_idempotency_key@) <= 200),
            r matches Err(e) ==> e.0@ == "idempotency key must contain 1 through 200 bytes"@,
    {
        idempotency_key(self.checkout_idempotency_key.as_str())
    }
}

impl ConfirmTicketPayment {
    pub open spec fn failure(&self) -> Option<Seq<char>> {
        idempotency_key_failure(self.payment_idempotency_key@)
    }

    /// Accepts a payment confirmation with a valid idempotency key.
    pub fn validate(&self) -> (r: Result<(), TicketingValidationError>)
        ensures
            ticketing_outcome(r, self.failure()),
            r is Ok <==> (!is_blank_text(self.payment_idempotency_key@) && utf8_len(self.payment_idempotency_key@) <= 200),
            r matches Err(e) ==> e.0@ == "idempotency key must contain 1 through 200 bytes"@,
    {
        idempotency_key(self.payment_idempotency_key.as_str())
    }
}

impl CancelTicketOrder {
    pub open spec fn failure(&self) -> Option<Seq<char>> {
        idempotency_key_failure(self.cancellation_idempotency_key@)
    }

    /// Accepts a cancellation with a valid idempotency key, whether or not
    /// it asks for a refund.
    pub fn validate(&self) -> (r: Result<(), TicketingValidationError>)
        ensures
            ticketing_outcome(r, self.failure()),
            r is Ok <==> (!is_blank_text(self.cancellation_idempotency_key@) && utf8_len(self.cancellation_idempotency_key@) <= 200),
            r matches Err(e) ==> e.0@ == "idempotency key must contain 1 through 200 bytes"@,
    {
        idempotency_key(self.cancellation_idempotency_key.as_str())
    }
}

impl JoinWaitlist {
    pub open spec fn failure(&self) -> Option<Seq<char>> {
        first_failure(
            positive_failure("quantity"@, self.quantity),
            if utf8_len(self.attendee_ref_hash@) < 32 || utf8_len(self.attendee_ref_hash@) > 128 {
                Some("attendee_ref_hash must contain 32 through 128 bytes"@)
            } else {
                None
            },
        )
    }

    /// Accepts a positive quantity and an attendee reference of 32 through
    /// 128 bytes.
    pub fn validate(&self) -> (r: Result<(), TicketingValidationError>)
        ensures
            ticketing_outcome(r, self.failure()),
            r is Ok <==> {
                &&& self.quantity > 0
                &&& 32 <= utf8_len(self.attendee_ref_hash@) <= 128
            },
            self.quantity <= 0 ==> (r matches Err(e) && e.0@ == "quantity must be greater than zero"@),
            self.quantity > 0 && !(32 <= utf8_len(self.attendee_ref_hash@) <= 128)
                ==> (r matches Err(e) && e.0@ == "attendee_ref_hash must contain 32 through 128 bytes"@),
    {
        proof {
            lemma_count_messages();
        }
        match positive("quantity", self.quantity) {
            Ok(()) => {},
            Err(e) => return Err(e),
        }
        let n = byte_len(self.attendee_ref_hash.as_str());
        if n < 32 || n > 128 {
            return Err(TicketingValidationError(String::from_str("attendee_ref_hash must contain 32 through 128 bytes")));
        }
        Ok(())
    }
}

/// The two count messages, spelled out.
proof fn lemma_count_messages()
    ensures
        "capacity"@ + " must be greater than zero"@ == "capacity must be greater than zero"@,
        "quantity"@ + " must be greater than zero"@ == "quantity must be greater than zero"@,
{
    reveal_strlit("capacity");
    reveal_strlit("quantity");
    reveal_strlit(" must be greater than zero");
    reveal_strlit("capacity must be greater than zero");
    reveal_strlit("quantity must be greater than zero");
    assert("capacity"@ + " must be greater than zero"@ =~= "capacity must be greater than zero"@);
    assert("quantity"@ + " must be greater than zero"@ =~= "quantity must be greater than zero"@);
}

/// An idempotency key is accepted exactly when it holds something besides
/// white space and at most 200 bytes; a rejection always gives the same reason.
pub proof fn law_idempotency_key_rule(value: Seq<char>)
    ensures
        idempotency_key_failure(value) is None <==> (!is_blank_text(value) && utf8_len(value) <= 200),
        idempotency_key_failure(value) is Some ==> idempotency_key_failure(value) == Some("idempotency key must contain 1 through 200 bytes"@),
{
}

/// An inventory is configured exactly when its capacity is positive.
pub proof fn law_configure_inventory_rule(c: ConfigureEventInventory)
    ensures
        c.failure() is None <==> c.capacity > 0,
        c.capacity <= 0 ==> c.failure() == Some("capacity must be greater than zero"@),
{
    lemma_count_messages();
}

/// A ticket class is accepted exactly when its name holds 1 through 120
/// bytes besides white space, its capacity is positive and its sale ends after
/// it starts; the first rule broken, in that order, gives the reason.
pub proof fn law_ticket_class_rule(c: CreateTicketClass)
    ensures
        c.failure() is None <==> (!is_blank_text(c.name@) && utf8_len(c.name@) <= 120 && c.capacity > 0
            && c.sale_starts_at.earlier_than(c.sale_ends_at)),
        is_blank_text(c.name@) || utf8_len(c.name@) > 120
            ==> c.failure() == Some("name must contain 1 through 120 bytes"@),
        !is_blank_text(c.name@) && utf8_len(c.name@) <= 120 && c.capacity <= 0
            ==> c.failure() == Some("capacity must be greater than zero"@),
        !is_blank_text(c.name@) && utf8_len(c.name@) <= 120 && c.capacity > 0
            && !c.sale_starts_at.earlier_than(c.sale_ends_at)
            ==> c.failure() == Some("sale_ends_at must be after sale_starts_at"@),
{
    lemma_count_messages();
}

/// A reservation is accepted at `now` exactly when its quantity is positive,
/// its idempotency key is valid and its hold expires strictly after `now`.
pub proof fn law_reservation_rule(r: ReserveTickets, now: Timestamp)
    ensures
        r.failure(now) is None <==> (r.quantity > 0 && !is_blank_text(r.idempotency_key@)
            && utf8_len(r.idempotency_key@) <= 200 && now.earlier_than(r.expires_at)),
        r.quantity <= 0 ==> r.failure(now) == Some("quantity must be greater than zero"@),
        r.quantity > 0 && (is_blank_text(r.idempotency_key@) || utf8_len(r.idempotency_key@) > 200)
            ==> r.failure(now) == Some("idempotency key must contain 1 through 200 bytes"@),
        r.quantity > 0 && !is_blank_text(r.idempotency_key@) && utf8_len(r.idempotency_key@) <= 200
            && !now.earlier_than(r.expires_at)
            ==> r.failure(now) == Some("expires_at must be in the future"@),
{
    lemma_count_messages();
}

/// A checkout request is accepted exactly when its idempotency key holds
/// something besides white space and at most 200 bytes.
pub proof fn law_checkout_rule(o: CreateTicketOrder)
    ensures
        o.failure() is None <==> (!is_blank_text(o.checkout_idempotency_key@) && utf8_len(o.checkout_idempotency_key@) <= 200),
        o.failure() is Some ==> o.failure() == Some("idempotency key must contain 1 through 200 bytes"@),
{
}

/// A payment confirmation is accepted exactly when its idempotency key holds
/// something besides white space and at most 200 bytes.
pub proof fn law_payment_rule(p: ConfirmTicketPayment)
    ensures
        p.failure() is None <==> (!is_blank_text(p.payment_idempotency_key@) && utf8_len(p.payment_idempotency_key@) <= 200),
        p.failure() is Some ==> p.failure() == Some("idempotency key must contain 1 through 200 bytes"@),
{
}

/// A cancellation is accepted exactly when its idempotency key holds
/// something besides white space and at most 200 bytes, whether or not it
/// asks for a refund: the refund flag never changes the answer.
pub proof fn law_cancellation_rule(c: CancelTicketOrder, refund: bool)
    ensures
        c.failure() is None <==> (!is_blank_text(c.cancellation_idempotency_key@) && utf8_len(c.cancellation_idempotency_key@) <= 200),
        c.failure() is Some ==> c.failure() == Some("idempotency key must contain 1 through 200 bytes"@),
        (CancelTicketOrder { refund, ..c }).failure() == c.failure(),
{
}

/// Joining a waitlist is accepted exactly when the quantity is positive and
/// the attendee reference holds 32 through 128 bytes.
pub proof fn law_waitlist_rule(j: JoinWaitlist)
    ensures
        j.failure() is None <==> (j.quantity > 0 && 32 <= utf8_len(j.attendee_ref_hash@) <= 128),
        j.quantity <= 0 ==> j.failure() == Some("quantity must be greater than zero"@),
        j.quantity > 0 && !(32 <= utf8_len(j.attendee_ref_hash@) <= 128)
            ==> j.failure() == Some("attendee_ref_hash must contain 32 through 128 bytes"@),
{
    lemma_count_messages();
}

} // verus!
