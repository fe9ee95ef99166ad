use chrono::{DateTime, Duration, Utc};
use evgl_interfaces::admission::{
    AdmissionKeySnapshot, AdmissionOutcome, AdmissionRevocation, AdmissionTokenClaims,
    AdmissionVerificationKey, ScanReceiptClaims, ADMISSION_TOKEN_VERSION,
};
use evgl_interfaces::time::Timestamp;
use uuid::Uuid;

fn at(t: DateTime<Utc>) -> Timestamp {
    Timestamp::new(t.timestamp(), t.timestamp_subsec_nanos())
}

fn claims(now: DateTime<Utc>) -> AdmissionTokenClaims {
    AdmissionTokenClaims {
        version: ADMISSION_TOKEN_VERSION,
        token_id: Uuid::new_v4(),
        event_id: Uuid::new_v4(),
        ticket_id: Uuid::new_v4(),
        order_id: Uuid::new_v4(),
        issuance_epoch: 1,
        key_id: "key-1".into(),
        issued_at: at(now),
        expires_at: at(now + Duration::hours(12)),
    }
}

fn receipt(sequence: i64) -> ScanReceiptClaims {
    ScanReceiptClaims {
        receipt_id: Uuid::new_v4(),
        scanner_id: Uuid::new_v4(),
        scanner_key_id: "scanner-key-1".into(),
        scanner_sequence: sequence,
        token_id: Uuid::new_v4(),
        event_id: Uuid::new_v4(),
        ticket_id: Uuid::new_v4(),
        order_id: Uuid::new_v4(),
        scanned_at: at(Utc::now()),
    }
}

fn key(id: &str, epoch: i64, from: Timestamp, to: Timestamp) -> AdmissionVerificationKey {
    AdmissionVerificationKey {
        key_id: id.into(),
        issuance_epoch: epoch,
        public_key: "AAAA".into(),
        active_from: from,
        retire_at: to,
    }
}

fn snapshot(keys: Vec<AdmissionVerificationKey>) -> AdmissionKeySnapshot {
    AdmissionKeySnapshot {
        snapshot_id: Uuid::new_v4(),
        event_id: Uuid::new_v4(),
        generated_at: Timestamp::new(1_000, 0),
        valid_until: Timestamp::new(2_000, 0),
        keys,
        revocations: vec![AdmissionRevocation {
            ticket_id: Uuid::new_v4(),
            issuance_epoch: 0,
            revoked_at: Timestamp::new(1_500, 0),
        }],
    }
}

#[test]
fn token_requires_a_bounded_lifetime() {
    let now = Utc::now();
    let claims = AdmissionTokenClaims {
        version: ADMISSION_TOKEN_VERSION,
        token_id: Uuid::new_v4(),
        event_id: Uuid::new_v4(),
        ticket_id: Uuid::new_v4(),
        order_id: Uuid::new_v4(),
        issuance_epoch: 1,
        key_id: "key-1".into(),
        issued_at: at(now),
        expires_at: at(now - Duration::seconds(1)),
    };

    assert_eq!(
        claims.validate_shape().unwrap_err().0,
        "expires_at must be after issued_at"
    );
}

#[test]
fn scanner_sequence_is_monotonic_domain_data() {
    let claims = ScanReceiptClaims {
        receipt_id: Uuid::new_v4(),
        scanner_id: Uuid::new_v4(),
        scanner_key_id: "scanner-key-1".into(),
        scanner_sequence: -1,
        token_id: Uuid::new_v4(),
        event_id: Uuid::new_v4(),
        ticket_id: Uuid::new_v4(),
        order_id: Uuid::new_v4(),
        scanned_at: at(Utc::now()),
    };

    assert!(claims.validate_shape().is_err());
}

#[test]
fn token_with_twelve_hour_lifetime_is_accepted() {
    assert_eq!(claims(Utc::now()).validate_shape(), Ok(()));
}

#[test]
fn token_with_equal_issue_and_expiry_is_rejected() {
    let mut c = claims(Utc::now());
    c.expires_at = c.issued_at;
    assert_eq!(c.validate_shape().unwrap_err().0, "expires_at must be after issued_at");
}

#[test]
fn token_expiring_one_nanosecond_later_is_accepted() {
    let mut c = claims(Utc::now());
    c.issued_at = Timestamp::new(100, 5);
    c.expires_at = Timestamp::new(100, 6);
    assert_eq!(c.validate_shape(), Ok(()));
}

#[test]
fn token_version_must_be_supported() {
    let mut c = claims(Utc::now());
    c.version = 2;
    // The version is checked before anything else.
    c.key_id = " ".into();
    assert_eq!(c.validate_shape().unwrap_err().0, "unsupported token version");
}

#[test]
fn token_key_id_bounds() {
    let mut c = claims(Utc::now());
    c.key_id = " \t ".into();
    assert_eq!(c.validate_shape().unwrap_err().0, "key_id must contain 1 through 120 bytes");
    c.key_id = "k".repeat(120);
    assert_eq!(c.validate_shape(), Ok(()));
    c.key_id = "k".repeat(121);
    assert_eq!(c.validate_shape().unwrap_err().0, "key_id must contain 1 through 120 bytes");
    // 60 two-byte characters are 120 bytes; 61 are too many.
    c.key_id = "é".repeat(60);
    assert_eq!(c.validate_shape(), Ok(()));
    c.key_id = "é".repeat(61);
    assert!(c.validate_shape().is_err());
}

#[test]
fn token_epoch_must_be_non_negative() {
    let mut c = claims(Utc::now());
    c.issuance_epoch = -1;
    assert_eq!(c.validate_shape().unwrap_err().0, "issuance_epoch must be non-negative");
    c.issuance_epoch = 0;
    assert_eq!(c.validate_shape(), Ok(()));
}

#[test]
fn receipt_shape_checks() {
    assert_eq!(receipt(0).validate_shape(), Ok(()));
    assert_eq!(
        receipt(-1).validate_shape().unwrap_err().0,
        "scanner_sequence must be non-negative"
    );
    let mut r = receipt(3);
    r.scanner_key_id = "".into();
    assert_eq!(
        r.validate_shape().unwrap_err().0,
        "scanner_key_id must contain 1 through 120 bytes"
    );
    r.scanner_key_id = "s".repeat(121);
    assert!(r.validate_shape().is_err());
}

#[test]
fn snapshot_with_overlapping_keys_is_accepted() {
    let old = key("key-old", 1, Timestamp::new(0, 0), Timestamp::new(1_800, 0));
    let new = key("key-new", 2, Timestamp::new(1_200, 0), Timestamp::new(5_000, 0));
    assert_eq!(snapshot(vec![old.clone()]).validate_shape(), Ok(()));
    assert_eq!(snapshot(vec![old, new]).validate_shape(), Ok(()));
}

#[test]
fn snapshot_window_must_be_forward() {
    let mut s = snapshot(vec![key("k", 0, Timestamp::new(0, 0), Timestamp::new(1, 0))]);
    s.valid_until = s.generated_at;
    assert_eq!(
        s.validate_shape().unwrap_err().0,
        "snapshot valid_until must be after generated_at"
    );
}

#[test]
fn snapshot_needs_a_key() {
    assert_eq!(
        snapshot(vec![]).validate_shape().unwrap_err().0,
        "snapshot must contain at least one verification key"
    );
}

#[test]
fn snapshot_rejects_any_malformed_key() {
    let good = key("k", 0, Timestamp::new(0, 0), Timestamp::new(1, 0));
    for bad in [
        key(" ", 0, Timestamp::new(0, 0), Timestamp::new(1, 0)),
        key("k", -1, Timestamp::new(0, 0), Timestamp::new(1, 0)),
        key("k", 0, Timestamp::new(1, 0), Timestamp::new(1, 0)),
        key("k", 0, Timestamp::new(2, 0), Timestamp::new(1, 0)),
    ] {
        let s = snapshot(vec![good.clone(), bad]);
        assert_eq!(
            s.validate_shape().unwrap_err().0,
            "snapshot contains an invalid verification key"
        );
    }
}

#[test]
fn admission_outcome_wire_names() {
    for (o, name) in [
        (AdmissionOutcome::Accepted, "accepted"),
        (AdmissionOutcome::DuplicateReview, "duplicate_review"),
        (AdmissionOutcome::Rejected, "rejected"),
    ] {
        assert_eq!(o.wire_name(), name);
        assert_eq!(AdmissionOutcome::from_wire_name(name), Some(o));
    }
    assert_eq!(AdmissionOutcome::from_wire_name("DuplicateReview"), None);
}
