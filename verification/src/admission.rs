//! Offline admission: signed tokens, scanner key snapshots and scan receipts.
use uuid::Uuid;
use vstd::prelude::*;

use crate::first_failure;
use crate::text::{byte_len, is_blank, is_blank_text, same_text, utf8_len};
use crate::time::Timestamp;

verus! {

/// The only admission token format version this library accepts.
pub const ADMISSION_TOKEN_VERSION: u8 = 1;

#[derive(Debug, Clone, PartialEq, Eq)]
pub struct AdmissionTokenClaims {
    pub version: u8,
    pub token_id: Uuid,
    pub event_id: Uuid,
    pub ticket_id: Uuid,
    pub order_id: Uuid,
    pub issuance_epoch: i64,
    pub key_id: String,
    pub issued_at: Timestamp,
    pub expires_at: Timestamp,
}

#[derive(Debug, Clone, PartialEq, Eq)]
pub struct AdmissionVerificationKey {
    pub key_id: String,
    pub issuance_epoch: i64,
    /// URL-safe, unpadded base64 Ed25519 public key bytes.
    pub public_key: String,
    pub active_from: Timestamp,
    pub retire_at: Timestamp,
}

#[derive(Debug, Clone, PartialEq, Eq)]
pub struct AdmissionRevocation {
    pub ticket_id: Uuid,
    pub issuance_epoch: i64,
    pub revoked_at: Timestamp,
}

#[derive(Debug, Clone, PartialEq, Eq)]
pub struct AdmissionKeySnapshot {
    pub snapshot_id: Uuid,
    pub event_id: Uuid,
    pub generated_at: Timestamp,
    pub valid_until: Timestamp,
    pub keys: Vec<AdmissionVerificationKey>,
    pub revocations: Vec<AdmissionRevocation>,
}

#[derive(Debug, Clone, PartialEq, Eq)]
pub struct ScanReceiptClaims {
    pub receipt_id: Uuid,
    pub scanner_id: Uuid,
    pub scanner_key_id: String,
    pub scanner_sequence: i64,
    pub token_id: Uuid,
    pub event_id: Uuid,
    pub ticket_id: Uuid,
    pub order_id: Uuid,
    pub scanned_at: Timestamp,
}

#[derive(Debug, Clone, PartialEq, Eq)]
pub struct SignedScanReceipt {
    pub claims: ScanReceiptClaims,
    /// URL-safe, unpadded base64 Ed25519 signature over canonical claims JSON.
    pub signature: String,
}

#[derive(Debug, Clone, Copy, PartialEq, Eq, Structural)]
pub enum AdmissionOutcome {
    Accepted,
    DuplicateReview,
    Rejected,
}

impl AdmissionOutcome {
    /// The name of the outcome on the wire (snake case).
    pub open spec fn wire(self) -> Seq<char> {
        match self {
            AdmissionOutcome::Accepted => "accepted"@,
            AdmissionOutcome::DuplicateReview => "duplicate_review"@,
            AdmissionOutcome::Rejected => "rejected"@,
        }
    }

    /// The outcome that a wire name denotes, if any.
    pub open spec fn parse_wire(name: Seq<char>) -> Option<AdmissionOutcome> {
        if name == "accepted"@ {
            Some(AdmissionOutcome::Accepted)
        } else if name == "duplicate_review"@ {
            Some(AdmissionOutcome::DuplicateReview)
        } else if name == "rejected"@ {
            Some(AdmissionOutcome::Rejected)
        } else {
            None
        }
    }

    /// The name of the outcome on the wire.
    pub fn wire_name(&self) -> (name: &'static str)
        ensures
            name@ == self.wire(),
            *self == AdmissionOutcome::Accepted ==> name@ == "accepted"@,
            *self == AdmissionOutcome::DuplicateReview ==> name@ == "duplicate_review"@,
            *self == AdmissionOutcome::Rejected ==> name@ == "rejected"@,
    {
        match self {
            AdmissionOutcome::Accepted => "accepted",
            AdmissionOutcome::DuplicateReview => "duplicate_review",
            AdmissionOutcome::Rejected => "rejected",
        }
    }

    /// The outcome that a wire name denotes; `None` for any other text.
    pub fn from_wire_name(name: &str) -> (s: Option<AdmissionOutcome>)
        ensures
            s == AdmissionOutcome::parse_wire(name@),
            name@ == "accepted"@ ==> s == Some(AdmissionOutcome::Accepted),
            name@ == "duplicate_review"@ ==> s == Some(AdmissionOutcome::DuplicateReview),
            name@ == "rejected"@ ==> s == Some(AdmissionOutcome::Rejected),
            s is None <==> (name@ != "accepted"@ && name@ != "duplicate_review"@ && name@ != "rejected"@),
    {
        proof {
            law_admission_outcome_wire_names();
        }
        if same_text(name, "accepted") {
            Some(AdmissionOutcome::Accepted)
        } else if same_text(name, "duplicate_review") {
            Some(AdmissionOutcome::DuplicateReview)
        } else if same_text(name, "rejected") {
            Some(AdmissionOutcome::Rejected)
        } else {
            None
        }
    }
}

/// The wire name of each AdmissionOutcome variant is the variant's name in snake case,
/// and those are the only names that denote one.
pub proof fn law_admission_outcome_wire_names()
    ensures
        AdmissionOutcome::Accepted.wire() == "accepted"@,
        AdmissionOutcome::DuplicateReview.wire() == "duplicate_review"@,
        AdmissionOutcome::Rejected.wire() == "rejected"@,
        AdmissionOutcome::parse_wire("accepted"@) == Some(AdmissionOutcome::Accepted),
        AdmissionOutcome::parse_wire("duplicate_review"@) == Some(AdmissionOutcome::DuplicateReview),
        AdmissionOutcome::parse_wire("rejected"@) == Some(AdmissionOutcome::Rejected),
        forall|name: Seq<char>| AdmissionOutcome::parse_wire(name) is None <==> (name != "accepted"@ && name != "duplicate_review"@ && name != "rejected"@),
{
    reveal_strlit("accepted");
    reveal_strlit("duplicate_review");
    reveal_strlit("rejected");
    assert("accepted"@.len() != "duplicate_review"@.len());
    assert("accepted"@[0] != "rejected"@[0]);
    assert("duplicate_review"@.len() != "rejected"@.len());
}

/// Every outcome reads back from its wire name, and a wire name denotes only
/// the outcome it names.
pub proof fn law_admission_outcome_wire_round_trip(s: AdmissionOutcome, name: Seq<char>)
    ensures
        AdmissionOutcome::parse_wire(s.wire()) == Some(s),
        AdmissionOutcome::parse_wire(name) == Some(s) ==> name == s.wire(),
{
    reveal_strlit("accepted");
    reveal_strlit("duplicate_review");
    reveal_strlit("rejected");
    assert("accepted"@.len() != "duplicate_review"@.len());
    assert("accepted"@[0] != "rejected"@[0]);
    assert("duplicate_review"@.len() != "rejected"@.len());
}


#[derive(Debug, Clone, PartialEq, Eq)]
pub struct AdmissionReceiptOutcome {
    pub receipt_id: Uuid,
    pub ticket_id: Uuid,
    pub outcome: AdmissionOutcome,
    pub reason: Option<String>,
    pub winning_receipt_id: Option<Uuid>,
}

/// A rejected admission record; the field holds the reason.
#[derive(Debug, Clone, PartialEq, Eq)]
pub struct AdmissionValidationError(pub String);

/// `r` is the outcome that `failure` describes: `Ok` when there is no
/// failure, else an error whose text is the failure's message.
pub open spec fn admission_outcome(
    r: Result<(), AdmissionValidationError>,
    failure: Option<Seq<char>>,
) -> bool {
    match r {
        Ok(_) => failure is None,
        Err(e) => failure == Some(e.0@),
    }
}

/// A signing or scanner key identifier: something besides white space, and
/// at most 120 bytes.
pub open spec fn is_bounded_key_id(key_id: Seq<char>) -> bool {
    !is_blank_text(key_id) && utf8_len(key_id) <= 120
}

impl AdmissionTokenClaims {
    pub open spec fn failure(&self) -> Option<Seq<char>> {
        if self.version != ADMISSION_TOKEN_VERSION {
            Some("unsupported token version"@)
        } else if !is_bounded_key_id(self.key_id@) {
            Some("key_id must contain 1 through 120 bytes"@)
        } else if self.issuance_epoch < 0 {
            Some("issuance_epoch must be non-negative"@)
        } else if self.expires_at.not_later_than(self.issued_at) {
            Some("expires_at must be after issued_at"@)
        } else {
            None
        }
    }

    /// Accepts claims of the supported version, with a bounded key id, a
    /// non-negative issuance epoch and a lifetime that ends after it starts.
    pub fn validate_shape(&self) -> (r: Result<(), AdmissionValidationError>)
        ensures
            admission_outcome(r, self.failure()),
            r is Ok <==> {
                &&& self.version == ADMISSION_TOKEN_VERSION
                &&& is_bounded_key_id(self.key_id@)
                &&& self.issuance_epoch >= 0
                &&& self.issued_at.earlier_than(self.expires_at)
            },
            self.version != 1 ==> (r matches Err(e) && e.0@ == "unsupported token version"@),
            self.version == 1 && (is_blank_text(self.key_id@) || utf8_len(self.key_id@) > 120)
                ==> (r matches Err(e) && e.0@ == "key_id must contain 1 through 120 bytes"@),
            self.version == 1 && !is_blank_text(self.key_id@) && utf8_len(self.key_id@) <= 120
                && self.issuance_epoch < 0
                ==> (r matches Err(e) && e.0@ == "issuance_epoch must be non-negative"@),
            self.version == 1 && !is_blank_text(self.key_id@) && utf8_len(self.key_id@) <= 120
                && self.issuance_epoch >= 0 && !self.issued_at.earlier_than(self.expires_at)
                ==> (r matches Err(e) && e.0@ == "expires_at must be after issued_at"@),
    {
        if self.version != ADMISSION_TOKEN_VERSION {
            return Err(AdmissionValidationError(String::from_str("unsupported token version")));
        }
        if is_blank(self.key_id.as_str()) || byte_len(self.key_id.as_str()) > 120 {
            return Err(AdmissionValidationError(String::from_str("key_id must contain 1 through 120 bytes")));
        }
        if self.issuance_epoch < 0 {
            return Err(AdmissionValidationError(String::from_str("issuance_epoch must be non-negative")));
        }
        if self.expires_at.is_at_or_before(&self.issued_at) {
            return Err(AdmissionValidationError(String::from_str("expires_at must be after issued_at")));
        }
        Ok(())
    }
}

impl AdmissionVerificationKey {
    /// A key descriptor that a snapshot may carry: an identifier besides
    /// white space, a non-negative epoch, and retirement after activation.
    pub open spec fn is_well_formed(&self) -> bool {
        &&& !is_blank_text(self.key_id@)
        &&& self.issuance_epoch >= 0
        &&& self.active_from.earlier_than(self.retire_at)
    }
}

/// Whether every key of a list is well-formed.
pub open spec fn all_keys_well_formed(keys: Seq<AdmissionVerificationKey>) -> bool {
    forall|i: int| 0 <= i < keys.len() ==> (#[trigger] keys[i]).is_well_formed()
}

/// The failure of a snapshot with the given window and keys.
pub open spec fn snapshot_failure(
    generated_at: Timestamp,
    valid_until: Timestamp,
    keys: Seq<AdmissionVerificationKey>,
) -> Option<Seq<char>> {
    if valid_until.not_later_than(generated_at) {
        Some("snapshot valid_until must be after generated_at"@)
    } else if keys.len() == 0 {
        Some("snapshot must contain at least one verification key"@)
    } else if !all_keys_well_formed(keys) {
        Some("snapshot contains an invalid verification key"@)
    } else {
        None
    }
}

impl AdmissionKeySnapshot {
    pub open spec fn failure(&self) -> Option<Seq<char>> {
        snapshot_failure(self.generated_at, self.valid_until, self.keys@)
    }

    /// Accepts a snapshot whose validity ends after it was generated and
    /// that carries at least one key, every key well-formed.
    pub fn validate_shape(&self) -> (r: Result<(), AdmissionValidationError>)
        ensures
            admission_outcome(r, self.failure()),
            r is Ok <==> {
                &&& self.generated_at.earlier_than(self.valid_until)
                &&& self.keys@.len() > 0
                &&& forall|i: int| 0 <= i < self.keys@.len() ==> {
                    &&& !is_blank_text((#[trigger] self.keys@[i]).key_id@)
                    &&& self.keys@[i].issuance_epoch >= 0
                    &&& self.keys@[i].active_from.earlier_than(self.keys@[i].retire_at)
                }
            },
            !self.generated_at.earlier_than(self.valid_until)
                ==> (r matches Err(e) && e.0@ == "snapshot valid_until must be after generated_at"@),
            self.generated_at.earlier_than(self.valid_until) && self.keys@.len() == 0
                ==> (r matches Err(e) && e.0@ == "snapshot must contain at least one verification key"@),
            self.generated_at.earlier_than(self.valid_until) && self.keys@.len() > 0 && r is Err
                ==> (r matches Err(e) && e.0@ == "snapshot contains an invalid verification key"@),
    {
        if self.valid_until.is_at_or_before(&self.generated_at) {
            return Err(AdmissionValidationError(String::from_str("snapshot valid_until must be after generated_at")));
        }
        if self.keys.len() == 0 {
            return Err(AdmissionValidationError(String::from_str("snapshot must contain at least one verification key")));
        }
        let n = self.keys.len();
        let mut i: usize = 0;
        while i < n
            invariant
                n == self.keys@.len(),
                n > 0,
                self.generated_at.earlier_than(self.valid_until),
                i <= n,
                forall|j: int| 0 <= j < i ==> (#[trigger] self.keys@[j]).is_well_formed(),
            decreases n - i,
        {
            let key = &self.keys[i];
            if is_blank(key.key_id.as_str()) || key.issuance_epoch < 0
                || key.retire_at.is_at_or_before(&key.active_from) {
                assert(!self.keys@[i as int].is_well_formed());
                return Err(AdmissionValidationError(String::from_str("snapshot contains an invalid verification key")));
            }
            i += 1;
        }
        Ok(())
    }
}

/// Signing-key rotation: a well-formed snapshot stays well-formed when a
/// further well-formed key descriptor is added to it, so old and new keys
/// may overlap in one snapshot.
pub proof fn law_snapshot_accepts_overlapping_key(
    generated_at: Timestamp,
    valid_until: Timestamp,
    keys: Seq<AdmissionVerificationKey>,
    added: AdmissionVerificationKey,
)
    requires
        snapshot_failure(generated_at, valid_until, keys) is None,
        added.is_well_formed(),
    ensures
        snapshot_failure(generated_at, valid_until, keys.push(added)) is None,
{
    assert forall|i: int| 0 <= i < keys.push(added).len() implies (#[trigger] keys.push(added)[i]).is_well_formed() by {
        if i < keys.len() {
            assert(keys.push(added)[i] == keys[i]);
        }
    }
}

impl ScanReceiptClaims {
    pub open spec fn failure(&self) -> Option<Seq<char>> {
        first_failure(
            if !is_bounded_key_id(self.scanner_key_id@) {
                Some("scanner_key_id must contain 1 through 120 bytes"@)
            } else {
                None
            },
            if self.scanner_sequence < 0 {
                Some("scanner_sequence must be non-negative"@)
            } else {
                None
            },
        )
    }

    /// Accepts a receipt with a bounded scanner key id and a non-negative
    /// sequence number.
    pub fn validate_shape(&self) -> (r: Result<(), AdmissionValidationError>)
        ensures
            admission_outcome(r, self.failure()),
            r is Ok <==> is_bounded_key_id(self.scanner_key_id@) && self.scanner_sequence >= 0,
            r is Ok <==> (!is_blank_text(self.scanner_key_id@) && utf8_len(self.scanner_key_id@) <= 120
                && self.scanner_sequence >= 0),
            is_blank_text(self.scanner_key_id@) || utf8_len(self.scanner_key_id@) > 120
                ==> (r matches Err(e) && e.0@ == "scanner_key_id must contain 1 through 120 bytes"@),
            !is_blank_text(self.scanner_key_id@) && utf8_len(self.scanner_key_id@) <= 120
                && self.scanner_sequence < 0
                ==> (r matches Err(e) && e.0@ == "scanner_sequence must be non-negative"@),
    {
        if is_blank(self.scanner_key_id.as_str()) || byte_len(self.scanner_key_id.as_str()) > 120 {
            return Err(AdmissionValidationError(String::from_str("scanner_key_id must contain 1 through 120 bytes")));
        }
        if self.scanner_sequence < 0 {
            return Err(AdmissionValidationError(String::from_str("scanner_sequence must be non-negative")));
        }
        Ok(())
    }
}

/// Token claims are accepted exactly when the version is 1, the key id holds
/// 1 through 120 bytes besides white space, the issuance epoch is 0 or more
/// and the token expires strictly after it is issued; the first rule broken,
/// in that order, gives the reason.
pub proof fn law_token_claims_rule(c: AdmissionTokenClaims)
    ensures
        c.failure() is None <==> (c.version == 1 && !is_blank_text(c.key_id@) && utf8_len(c.key_id@) <= 120
            && c.issuance_epoch >= 0 && c.issued_at.earlier_than(c.expires_at)),
        c.version != 1 ==> c.failure() == Some("unsupported token version"@),
        c.version == 1 && (is_blank_text(c.key_id@) || utf8_len(c.key_id@) > 120)
            ==> c.failure() == Some("key_id must contain 1 through 120 bytes"@),
        c.version == 1 && !is_blank_text(c.key_id@) && utf8_len(c.key_id@) <= 120 && c.issuance_epoch < 0
            ==> c.failure() == Some("issuance_epoch must be non-negative"@),
        c.version == 1 && !is_blank_text(c.key_id@) && utf8_len(c.key_id@) <= 120 && c.issuance_epoch >= 0
            && !c.issued_at.earlier_than(c.expires_at)
            ==> c.failure() == Some("expires_at must be after issued_at"@),
{
}

/// A key snapshot is accepted exactly when its window runs forward, it holds
/// at least one key, and every key has an identifier besides white space, an
/// issuance epoch of 0 or more and a retirement strictly after activation.
pub proof fn law_key_snapshot_rule(generated_at: Timestamp, valid_until: Timestamp, keys: Seq<AdmissionVerificationKey>)
    ensures
        snapshot_failure(generated_at, valid_until, keys) is None <==> {
            &&& generated_at.earlier_than(valid_until)
            &&& keys.len() > 0
            &&& forall|i: int| 0 <= i < keys.len() ==> {
                &&& !is_blank_text((#[trigger] keys[i]).key_id@)
                &&& keys[i].issuance_epoch >= 0
                &&& keys[i].active_from.earlier_than(keys[i].retire_at)
            }
        },
        !generated_at.earlier_than(valid_until)
            ==> snapshot_failure(generated_at, valid_until, keys) == Some("snapshot valid_until must be after generated_at"@),
        generated_at.earlier_than(valid_until) && keys.len() == 0
            ==> snapshot_failure(generated_at, valid_until, keys) == Some("snapshot must contain at least one verification key"@),
        generated_at.earlier_than(valid_until) && keys.len() > 0
            && snapshot_failure(generated_at, valid_until, keys) is Some
            ==> snapshot_failure(generated_at, valid_until, keys) == Some("snapshot contains an invalid verification key"@),
{
}

/// A scan receipt is accepted exactly when its scanner key id holds 1 through
/// 120 bytes besides white space and its sequence number is 0 or more.
pub proof fn law_scan_receipt_rule(c: ScanReceiptClaims)
    ensures
        c.failure() is None <==> (!is_blank_text(c.scanner_key_id@) && utf8_len(c.scanner_key_id@) <= 120
            && c.scanner_sequence >= 0),
        is_blank_text(c.scanner_key_id@) || utf8_len(c.scanner_key_id@) > 120
            ==> c.failure() == Some("scanner_key_id must contain 1 through 120 bytes"@),
        !is_blank_text(c.scanner_key_id@) && utf8_len(c.scanner_key_id@) <= 120 && c.scanner_sequence < 0
            ==> c.failure() == Some("scanner_sequence must be non-negative"@),
{
}

} // verus!
