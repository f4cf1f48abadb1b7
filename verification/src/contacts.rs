//! The contact record types: the persisted `Contact`, the transient
//! `NewContact` form value, and the mathematical view `ContactV` that the
//! store's contracts are stated over.

use vstd::prelude::*;

verus! {

/// Per-field error payload used only to re-render a failed form.
#[derive(Debug)]
pub struct NewContactErrors {
    pub first_name: Option<String>,
    pub last_name: Option<String>,
    pub phone_number: Option<String>,
    pub email: Option<String>,
}

/// Transient input value for a create or edit submission; not persisted.
#[derive(Debug)]
pub struct NewContact {
    pub first_name: String,
    pub last_name: String,
    pub phone_number: String,
    pub email: String,
    pub errors: Option<NewContactErrors>,
}

/// A persisted contact record. `id` and `created_at` are assigned by the
/// store at creation and never mutated afterwards.
#[derive(Debug)]
pub struct Contact {
    pub id: i64,
    pub first_name: String,
    pub last_name: String,
    pub phone_number: String,
    pub email: String,
    pub created_at: String,
}

/// The mathematical value of a contact record: the id as an unbounded
/// integer and each string field as its character sequence.
#[verifier::ext_equal]
pub ghost struct ContactV {
    pub id: int,
    pub first_name: Seq<char>,
    pub last_name: Seq<char>,
    pub phone_number: Seq<char>,
    pub email: Seq<char>,
    pub created_at: Seq<char>,
}

impl View for Contact {
    type V = ContactV;

    open spec fn view(&self) -> ContactV {
        ContactV {
            id: self.id as int,
            first_name: self.first_name@,
            last_name: self.last_name@,
            phone_number: self.phone_number@,
            email: self.email@,
            created_at: self.created_at@,
        }
    }
}

impl Clone for Contact {
    fn clone(&self) -> (r: Self)
        ensures
            r@ == self@,
    {
        Contact {
            id: self.id,
            first_name: self.first_name.clone(),
            last_name: self.last_name.clone(),
            phone_number: self.phone_number.clone(),
            email: self.email.clone(),
            created_at: self.created_at.clone(),
        }
    }
}

impl Contact {
    /// Overwrite the four editable fields from a form value, leaving `id`
    /// and `created_at` untouched.
    pub fn update_from(&mut self, new: NewContact)
        ensures
            final(self)@ == (ContactV {
                first_name: new.first_name@,
                last_name: new.last_name@,
                phone_number: new.phone_number@,
                email: new.email@,
                ..old(self)@
            }),
    {
        self.first_name = new.first_name;
        self.last_name = new.last_name;
        self.phone_number = new.phone_number;
        self.email = new.email;
    }
}

} // verus!
