//! The uniqueness validation service: given the two existence checks for a
//! prospective create or edit, decide whether the submission may proceed.
//! The decision is a pure function of the two booleans — a 2x2 table.

use vstd::prelude::*;
use vstd::string::StringExecFns;
use crate::store::{ContactStore, email_taken, phone_taken};

verus! {

/// The four outcomes of the uniqueness check.
#[derive(Debug, PartialEq, Eq, Structural, Clone, Copy)]
pub enum ValidationOutcome {
    BothConflict,
    EmailConflict,
    PhoneConflict,
    NoConflict,
}

/// The decision table: both checks are always consulted, so a conflict in
/// one field is still reported while the other field stays in conflict.
pub open spec fn decision(email_exists: bool, phone_exists: bool) -> ValidationOutcome {
    if email_exists && phone_exists {
        ValidationOutcome::BothConflict
    } else if email_exists {
        ValidationOutcome::EmailConflict
    } else if phone_exists {
        ValidationOutcome::PhoneConflict
    } else {
        ValidationOutcome::NoConflict
    }
}

/// The user-facing message carried by each outcome.
pub open spec fn outcome_message(o: ValidationOutcome) -> Seq<char> {
    match o {
        ValidationOutcome::BothConflict
            => "This email and phone number already exist in your contacts."@,
        ValidationOutcome::EmailConflict => "This email already exists in your contacts."@,
        ValidationOutcome::PhoneConflict
            => "This phone number already exists in your contacts."@,
        ValidationOutcome::NoConflict => ""@,
    }
}

/// The decision for a submission: whether it may proceed, which conflict
/// was found, and the message to render inline.
pub struct ValidationResult {
    pub allowed: bool,
    pub outcome: ValidationOutcome,
    pub message: String,
}

impl ValidationResult {
    /// The three fields agree: submission is allowed exactly when no
    /// conflict was found, and the message belongs to the outcome.
    pub open spec fn wf(&self) -> bool {
        &&& self.allowed == (self.outcome is NoConflict)
        &&& self.message@ == outcome_message(self.outcome)
    }
}

/// The pure decision over the two existence checks.
pub fn decide(email_exists: bool, phone_exists: bool) -> (r: ValidationResult)
    ensures
        r.wf(),
        r.outcome == decision(email_exists, phone_exists),
        r.allowed == (!email_exists && !phone_exists),
{
    if email_exists && phone_exists {
        ValidationResult {
            allowed: false,
            outcome: ValidationOutcome::BothConflict,
            message: String::from_str(
                "This email and phone number already exist in your contacts.",
            ),
        }
    } else if email_exists {
        ValidationResult {
            allowed: false,
            outcome: ValidationOutcome::EmailConflict,
            message: String::from_str("This email already exists in your contacts."),
        }
    } else if phone_exists {
        ValidationResult {
            allowed: false,
            outcome: ValidationOutcome::PhoneConflict,
            message: String::from_str("This phone number already exists in your contacts."),
        }
    } else {
        ValidationResult {
            allowed: true,
            outcome: ValidationOutcome::NoConflict,
            message: String::from_str(""),
        }
    }
}

/// Whether a submitted field is in conflict: an absent or empty field is
/// "not provided" and never conflicts; a provided one conflicts when the
/// store already holds its value.
pub open spec fn field_conflict(taken: bool, field: Option<Seq<char>>) -> bool {
    match field {
        Some(f) => f.len() > 0 && taken,
        None => false,
    }
}

/// Validate a prospective create or edit against the store: both fields
/// are looked up independently, and the combined outcome decides whether
/// the submission is accepted.
pub fn validate(store: &ContactStore, email: Option<&String>, phone_number: Option<&String>) -> (r:
    ValidationResult)
    ensures
        r.wf(),
        ({
            let ec = match email {
                Some(e) => e@.len() > 0 && email_taken(store@, e@),
                None => false,
            };
            let pc = match phone_number {
                Some(p) => p@.len() > 0 && phone_taken(store@, p@),
                None => false,
            };
            r.outcome == decision(ec, pc) && r.allowed == (!ec && !pc)
        }),
{
    let email_exists: bool = match email {
        Some(e) => {
            if e.as_str().is_empty() {
                false
            } else {
                match store.validate_email(e.as_str()) {
                    Ok(b) => b,
                    Err(_) => false,
                }
            }
        },
        None => false,
    };
    let phone_exists: bool = match phone_number {
        Some(p) => {
            if p.as_str().is_empty() {
                false
            } else {
                match store.validate_phone(p.as_str()) {
                    Ok(b) => b,
                    Err(_) => false,
                }
            }
        },
        None => false,
    };
    decide(email_exists, phone_exists)
}

} // verus!
