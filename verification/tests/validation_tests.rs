use webone::contacts::NewContact;
use webone::store::ContactStore;
use webone::validation::{decide, validate, ValidationOutcome};

fn nc(first: &str, last: &str, phone: &str, email: &str) -> NewContact {
    NewContact {
        first_name: first.to_string(),
        last_name: last.to_string(),
        phone_number: phone.to_string(),
        email: email.to_string(),
        errors: None,
    }
}

#[test]
fn decision_table_both_conflict() {
    let r = decide(true, true);
    assert!(!r.allowed);
    assert_eq!(r.outcome, ValidationOutcome::BothConflict);
    assert_eq!(r.message, "This email and phone number already exist in your contacts.");
}

#[test]
fn decision_table_email_conflict() {
    let r = decide(true, false);
    assert!(!r.allowed);
    assert_eq!(r.outcome, ValidationOutcome::EmailConflict);
    assert_eq!(r.message, "This email already exists in your contacts.");
}

#[test]
fn decision_table_phone_conflict() {
    let r = decide(false, true);
    assert!(!r.allowed);
    assert_eq!(r.outcome, ValidationOutcome::PhoneConflict);
    assert_eq!(r.message, "This phone number already exists in your contacts.");
}

#[test]
fn decision_table_no_conflict() {
    let r = decide(false, false);
    assert!(r.allowed);
    assert_eq!(r.outcome, ValidationOutcome::NoConflict);
    assert_eq!(r.message, "");
}

#[test]
fn validate_checks_both_fields_independently() {
    let mut st = ContactStore::new();
    st.create(nc("Jane", "Doe", "555-0100", "jane@x.com"), "t".to_string()).unwrap();
    let email = "jane@x.com".to_string();
    let phone = "555-0100".to_string();
    let fresh_email = "new@x.com".to_string();
    let fresh_phone = "555-0199".to_string();

    let r = validate(&st, Some(&email), Some(&phone));
    assert_eq!(r.outcome, ValidationOutcome::BothConflict);
    let r = validate(&st, Some(&email), Some(&fresh_phone));
    assert_eq!(r.outcome, ValidationOutcome::EmailConflict);
    let r = validate(&st, Some(&fresh_email), Some(&phone));
    assert_eq!(r.outcome, ValidationOutcome::PhoneConflict);
    let r = validate(&st, Some(&fresh_email), Some(&fresh_phone));
    assert_eq!(r.outcome, ValidationOutcome::NoConflict);
    assert!(r.allowed);
}

#[test]
fn absent_or_empty_fields_never_conflict() {
    let mut st = ContactStore::new();
    // a stored record with an empty email and phone must not make the
    // empty submission conflict: empty means "not provided"
    st.create(nc("Jane", "Doe", "", ""), "t".to_string()).unwrap();
    let empty = "".to_string();
    let r = validate(&st, Some(&empty), Some(&empty));
    assert_eq!(r.outcome, ValidationOutcome::NoConflict);
    assert!(r.allowed);
    let r = validate(&st, None, None);
    assert!(r.allowed);
}
