//! Plain data carriers for the pages the presentation layer renders. The
//! rendering itself is HTML work outside this library; these types fix
//! what each page is given.

use vstd::prelude::*;
use crate::contacts::{Contact, NewContact};

verus! {

/// The contact listing page: the current search term, one page of
/// records, and the pagination position it was built from.
pub struct IndexTemplate {
    pub q: String,
    pub contacts: Vec<Contact>,
    pub page: i64,
    pub per_page: i64,
}

/// The blank or re-rendered creation form.
pub struct NewContactTemplate {
    pub contact: Option<NewContact>,
}

/// A single contact's detail page.
pub struct ShowContactTemplate {
    pub contact: Contact,
}

/// The edit form for an existing contact.
pub struct EditContactTemplate {
    pub contact: Contact,
}

/// The generic failure page.
pub struct Error5xxTemplate {
    pub error: String,
}

/// A confirmation page shown after a successful submission.
pub struct SuccessRedirectTemplate {
    pub success_message: String,
}

/// An inline error fragment.
pub struct ErrorMessageTemplate {
    pub error_message: String,
}

} // verus!
