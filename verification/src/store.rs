//! The record store: an id-ordered collection of contact records with
//! create, update, delete, lookup, pagination and existence checks, each
//! specified over the sequence of record views.

use vstd::prelude::*;
use crate::contacts::{Contact, ContactV, NewContact};
use crate::search::{matches_contact, term_pred};

verus! {

/// Failure taxonomy of the store: a missing record is distinguished from a
/// genuine storage failure so callers can tell "nothing to show" from
/// "something broke".
#[derive(Debug)]
pub enum StoreError {
    NotFound,
    Failure { cause: String },
}

impl StoreError {
    pub open spec fn is_not_found(&self) -> bool {
        self is NotFound
    }
}

/// No two records of `s` share an id. Every store this library builds
/// satisfies this; it is what makes lookup by id unambiguous.
pub open spec fn ids_unique(s: Seq<ContactV>) -> bool {
    forall|i: int, j: int| 0 <= i < j < s.len() ==> s[i].id != s[j].id
}

/// Whether some record in `s` carries the id `id`.
pub open spec fn contains_id(s: Seq<ContactV>, id: int) -> bool {
    exists|i: int| 0 <= i < s.len() && s[i].id == id
}

/// The index of the record with id `id`; meaningful when exactly one
/// record carries that id, which every store built by this library
/// guarantees.
pub open spec fn idx_of(s: Seq<ContactV>, id: int) -> int {
    choose|i: int| 0 <= i < s.len() && s[i].id == id
}

/// Whether some record in `s` has exactly the email `email`.
pub open spec fn email_taken(s: Seq<ContactV>, email: Seq<char>) -> bool {
    exists|i: int| 0 <= i < s.len() && s[i].email == email
}

/// Whether some record in `s` has exactly the phone number `phone`.
pub open spec fn phone_taken(s: Seq<ContactV>, phone: Seq<char>) -> bool {
    exists|i: int| 0 <= i < s.len() && s[i].phone_number == phone
}

/// One page of `s`: `page` is 1-based and clamped below to 1, the page
/// skips `(page - 1) * per_page` records and holds at most `per_page`,
/// truncated at the end of the sequence.
pub open spec fn page_of(s: Seq<ContactV>, page: int, per_page: int) -> Seq<ContactV> {
    let p = if page < 1 { 1int } else { page };
    let off = (p - 1) * per_page;
    let lo = if off > s.len() { s.len() as int } else { off };
    let hi = if off + per_page > s.len() { s.len() as int } else { off + per_page };
    s.subrange(lo, hi)
}

/// The view of a sequence of records.
pub open spec fn views_of(v: Seq<Contact>) -> Seq<ContactV> {
    v.map_values(|c: Contact| c@)
}

/// In a sequence of records with ids at least 1 and strictly ascending,
/// the record at index `i` has id at least `i + 1`.
proof fn lemma_id_lower_bound(s: Seq<ContactV>, i: int)
    requires
        forall|k: int| 0 <= k < s.len() ==> 1 <= #[trigger] s[k].id,
        forall|k: int, j: int| 0 <= k < j < s.len() ==> s[k].id < s[j].id,
        0 <= i < s.len(),
    ensures
        s[i].id >= i + 1,
    decreases i,
{
    if i > 0 {
        lemma_id_lower_bound(s, i - 1);
    }
}

/// Copy one page out of `v`: skip `(page - 1) * per_page` records, clamping
/// `page` below to 1, and take at most `per_page`.
fn paginate(v: &Vec<Contact>, page: i64, per_page: i64) -> (r: Vec<Contact>)
    requires
        per_page >= 1,
        v@.len() < i64::MAX as int,
    ensures
        views_of(r@) == page_of(views_of(v@), page as int, per_page as int),
{
    let len: usize = v.len();
    let p: i64 = if page < 1 {
        1
    } else {
        page
    };
    let lo: usize = match (p - 1).checked_mul(per_page) {
        Some(off) => {
            if off as u64 >= len as u64 {
                len
            } else {
                proof {
                    assert(0 <= off < len);
                }
                off as usize
            }
        },
        None => len,
    };
    let remaining: usize = len - lo;
    let take: usize = if per_page as u64 >= remaining as u64 {
        remaining
    } else {
        per_page as usize
    };
    let hi: usize = lo + take;
    let mut r: Vec<Contact> = Vec::new();
    let mut i: usize = lo;
    while i < hi
        invariant
            lo <= i <= hi <= len,
            len == v@.len(),
            r@.len() == i - lo,
            forall|j: int| 0 <= j < r@.len() ==> (#[trigger] r@[j])@ == v@[lo + j]@,
        decreases hi - i,
    {
        let c = v[i].clone();
        r.push(c);
        i = i + 1;
    }
    proof {
        assert forall|j: int| 0 <= j < r@.len() implies views_of(r@)[j] == page_of(
            views_of(v@),
            page as int,
            per_page as int,
        )[j] by {
            assert(r@[j]@ == v@[lo + j]@);
        }
        assert(views_of(r@) =~= page_of(views_of(v@), page as int, per_page as int));
    }
    r
}

/// The in-memory record store. Records are kept in ascending id order,
/// which is creation order; ids are assigned from a counter and never
/// reused.
pub struct ContactStore {
    contacts: Vec<Contact>,
    next_id: i64,
}

impl View for ContactStore {
    type V = Seq<ContactV>;

    closed spec fn view(&self) -> Seq<ContactV> {
        views_of(self.contacts@)
    }
}

impl ContactStore {
    /// The id the next created record will receive.
    pub closed spec fn next_id_spec(&self) -> int {
        self.next_id as int
    }

    /// Well-formedness: ids are at least 1, strictly ascending along the
    /// sequence, and all below the id counter. Every store built from
    /// `new` and the store's own operations satisfies this.
    pub closed spec fn wf(&self) -> bool {
        &&& 1 <= self.next_id
        &&& forall|i: int| 0 <= i < self@.len() ==> 1 <= #[trigger] self@[i].id < self.next_id
        &&& forall|i: int, j: int| 0 <= i < j < self@.len() ==> self@[i].id < self@[j].id
    }

    /// A well-formed store never holds two records with the same id, so
    /// the laws stated over `ids_unique` apply to every store this
    /// library builds.
    pub proof fn lemma_wf_ids_unique(&self)
        requires
            self.wf(),
        ensures
            ids_unique(self@),
    {
    }

    /// An empty store.
    pub fn new() -> (r: ContactStore)
        ensures
            r.wf(),
            r@ == Seq::<ContactV>::empty(),
            r.next_id_spec() == 1,
    {
        let r = ContactStore { contacts: Vec::new(), next_id: 1 };
        proof {
            assert(r@ =~= Seq::<ContactV>::empty());
        }
        r
    }

    /// Insert a new record. The store assigns the next free id and stamps
    /// the record with `created_at`; the four input fields are stored
    /// unchanged. Fails only when the id space is exhausted, and then
    /// leaves the store unchanged.
    pub fn create(&mut self, new: NewContact, created_at: String) -> (r: Result<
        Contact,
        StoreError,
    >)
        requires
            old(self).wf(),
        ensures
            final(self).wf(),
            r is Ok <==> old(self).next_id_spec() < i64::MAX as int,
            r matches Ok(c) ==> {
                &&& c@ == (ContactV {
                    id: old(self).next_id_spec(),
                    first_name: new.first_name@,
                    last_name: new.last_name@,
                    phone_number: new.phone_number@,
                    email: new.email@,
                    created_at: created_at@,
                })
                &&& !contains_id(old(self)@, c@.id)
                &&& final(self)@ == old(self)@.push(c@)
                &&& final(self).next_id_spec() == old(self).next_id_spec() + 1
            },
            r is Err ==> final(self)@ == old(self)@ && final(self).next_id_spec() == old(
                self,
            ).next_id_spec(),
            r matches Err(e) ==> !e.is_not_found(),
    {
        if self.next_id == i64::MAX {
            return Err(StoreError::Failure { cause: String::from_str("id space exhausted") });
        }
        let contact = Contact {
            id: self.next_id,
            first_name: new.first_name,
            last_name: new.last_name,
            phone_number: new.phone_number,
            email: new.email,
            created_at,
        };
        let copy = contact.clone();
        self.contacts.push(copy);
        self.next_id = self.next_id + 1;
        proof {
            assert(final(self)@ =~~= old(self)@.push(contact@));
        }
        Ok(contact)
    }

    /// Look up the record with id `id`: succeeds with a copy of exactly
    /// that record if and only if the id is present, and fails with
    /// `NotFound` otherwise.
    pub fn find_by_id(&self, id: i64) -> (r: Result<Contact, StoreError>)
        requires
            self.wf(),
        ensures
            r is Ok <==> contains_id(self@, id as int),
            r matches Ok(c) ==> c@ == self@[idx_of(self@, id as int)] && c@.id == id as int,
            r matches Err(e) ==> e.is_not_found(),
    {
        let n = self.contacts.len();
        let mut i: usize = 0;
        while i < n
            invariant
                n == self.contacts.len(),
                i <= n,
                self.wf(),
                forall|j: int| 0 <= j < i ==> self@[j].id != id as int,
            decreases n - i,
        {
            if self.contacts[i].id == id {
                let c = self.contacts[i].clone();
                proof {
                    assert(self@[i as int].id == id as int);
                    assert(contains_id(self@, id as int));
                    let k = idx_of(self@, id as int);
                    assert(0 <= k < self@.len() && self@[k].id == id as int);
                    assert(k == i) by {
                        if k < i as int {
                            assert(self@[k].id != id as int);
                        }
                        if k > i as int {
                            assert(self@[i as int].id < self@[k].id);
                        }
                    }
                }
                return Ok(c);
            }
            i = i + 1;
        }
        proof {
            assert(!contains_id(self@, id as int));
        }
        Err(StoreError::NotFound)
    }

    /// Overwrite the four editable fields of the record whose id matches
    /// `contact.id`, keeping that record's `id` and `created_at`. Succeeds
    /// as a no-op when the id is absent.
    pub fn update(&mut self, contact: &Contact) -> (r: Result<(), StoreError>)
        requires
            old(self).wf(),
        ensures
            final(self).wf(),
            r is Ok,
            final(self).next_id_spec() == old(self).next_id_spec(),
            contains_id(old(self)@, contact@.id) ==> final(self)@ == old(self)@.update(
                idx_of(old(self)@, contact@.id),
                ContactV {
                    id: contact@.id,
                    first_name: contact@.first_name,
                    last_name: contact@.last_name,
                    phone_number: contact@.phone_number,
                    email: contact@.email,
                    created_at: old(self)@[idx_of(old(self)@, contact@.id)].created_at,
                },
            ),
            !contains_id(old(self)@, contact@.id) ==> final(self)@ == old(self)@,
    {
        let n = self.contacts.len();
        let mut i: usize = 0;
        while i < n
            invariant
                n == self.contacts.len(),
                i <= n,
                self.wf(),
                self == old(self),
                forall|j: int| 0 <= j < i ==> self@[j].id != contact@.id,
            decreases n - i,
        {
            if self.contacts[i].id == contact.id {
                proof {
                    assert(self@[i as int].id == contact@.id);
                    assert(contains_id(self@, contact@.id));
                    let k = idx_of(self@, contact@.id);
                    assert(0 <= k < self@.len() && self@[k].id == contact@.id);
                    assert(k == i) by {
                        if k < i as int {
                            assert(self@[k].id != contact@.id);
                        }
                        if k > i as int {
                            assert(self@[i as int].id < self@[k].id);
                        }
                    }
                }
                let merged = Contact {
                    id: self.contacts[i].id,
                    first_name: contact.first_name.clone(),
                    last_name: contact.last_name.clone(),
                    phone_number: contact.phone_number.clone(),
                    email: contact.email.clone(),
                    created_at: self.contacts[i].created_at.clone(),
                };
                self.contacts.set(i, merged);
                proof {
                    assert(final(self)@ =~~= old(self)@.update(
                        i as int,
                        ContactV {
                            id: contact@.id,
                            first_name: contact@.first_name,
                            last_name: contact@.last_name,
                            phone_number: contact@.phone_number,
                            email: contact@.email,
                            created_at: old(self)@[i as int].created_at,
                        },
                    ));
                }
                return Ok(());
            }
            i = i + 1;
        }
        proof {
            assert(!contains_id(self@, contact@.id));
        }
        Ok(())
    }

    /// Remove the record with id `id` if it is present; deletion is
    /// idempotent, so the call also succeeds when no record matches.
    /// Afterwards no record carries `id`.
    pub fn delete(&mut self, id: i64) -> (r: Result<(), StoreError>)
        requires
            old(self).wf(),
        ensures
            final(self).wf(),
            r is Ok,
            final(self).next_id_spec() == old(self).next_id_spec(),
            contains_id(old(self)@, id as int) ==> final(self)@ == old(self)@.remove(
                idx_of(old(self)@, id as int),
            ),
            !contains_id(old(self)@, id as int) ==> final(self)@ == old(self)@,
            !contains_id(final(self)@, id as int),
    {
        let n = self.contacts.len();
        let mut i: usize = 0;
        while i < n
            invariant
                n == self.contacts.len(),
                i <= n,
                self.wf(),
                self == old(self),
                forall|j: int| 0 <= j < i ==> self@[j].id != id as int,
            decreases n - i,
        {
            if self.contacts[i].id == id {
                proof {
                    assert(self@[i as int].id == id as int);
                    assert(contains_id(self@, id as int));
                    let k = idx_of(self@, id as int);
                    assert(0 <= k < self@.len() && self@[k].id == id as int);
                    assert(k == i) by {
                        if k < i as int {
                            assert(self@[k].id != id as int);
                        }
                        if k > i as int {
                            assert(self@[i as int].id < self@[k].id);
                        }
                    }
                    assert(forall|j: int|
                        0 <= j < self@.len() && j != i as int ==> self@[j].id != id as int) by {
                        assert(forall|j: int|
                            (i as int) < j < self@.len() ==> self@[i as int].id < #[trigger] self@[j].id);
                    }
                }
                self.contacts.remove(i);
                proof {
                    assert(final(self)@ =~~= old(self)@.remove(i as int));
                }
                return Ok(());
            }
            i = i + 1;
        }
        proof {
            assert(!contains_id(self@, id as int));
        }
        Ok(())
    }

    /// A well-formed store holds fewer records than there are assigned ids,
    /// so its length always fits the id type.
    proof fn lemma_len_bound(&self)
        requires
            self.wf(),
        ensures
            self@.len() < i64::MAX as int,
    {
        if self@.len() > 0 {
            lemma_id_lower_bound(self@, self@.len() - 1);
        }
    }

    /// One page of the stored records in ascending id order, which is
    /// creation order: page `page` (1-based, clamped below to 1) skips
    /// `(page - 1) * per_page` records and holds at most `per_page`.
    pub fn get_all(&self, page: i64, per_page: i64) -> (r: Result<Vec<Contact>, StoreError>)
        requires
            self.wf(),
            per_page >= 1,
        ensures
            r matches Ok(v) && views_of(v@) == page_of(self@, page as int, per_page as int),
    {
        proof {
            self.lemma_len_bound();
        }
        Ok(paginate(&self.contacts, page, per_page))
    }

    /// One page of the records whose first or last name contains the
    /// search term, case-insensitively for ASCII, in ascending id order
    /// under the same pagination contract as `get_all`. The empty term
    /// matches every record.
    pub fn search(&self, search: &str, page: i64, per_page: i64) -> (r: Result<
        Vec<Contact>,
        StoreError,
    >)
        requires
            self.wf(),
            per_page >= 1,
        ensures
            r matches Ok(v) && views_of(v@) == page_of(
                self@.filter(term_pred(search@)),
                page as int,
                per_page as int,
            ),
    {
        let ghost pred = term_pred(search@);
        let n = self.contacts.len();
        let mut matched: Vec<Contact> = Vec::new();
        let mut i: usize = 0;
        proof {
            reveal(Seq::filter);
            assert(self@.take(0) =~= Seq::<ContactV>::empty());
            assert(views_of(matched@) =~= self@.take(0).filter(pred));
        }
        while i < n
            invariant
                n == self.contacts@.len(),
                i <= n,
                pred == term_pred(search@),
                views_of(matched@) == self@.take(i as int).filter(pred),
                matched@.len() <= i,
            decreases n - i,
        {
            let ghost prev = matched@;
            let ghost x = self@[i as int];
            let hit = matches_contact(&self.contacts[i], search);
            if hit {
                matched.push(self.contacts[i].clone());
                proof {
                    assert(views_of(matched@) =~~= views_of(prev).push(x));
                }
            }
            proof {
                reveal(Seq::filter);
                let t = self@.take(i + 1);
                assert(t.drop_last() =~= self@.take(i as int));
                assert(t.last() == x);
                if pred(x) {
                    assert(t.filter(pred) == self@.take(i as int).filter(pred).push(x));
                    assert(views_of(matched@) == t.filter(pred));
                } else {
                    assert(t.filter(pred) == self@.take(i as int).filter(pred));
                }
            }
            i = i + 1;
        }
        proof {
            assert(self@.take(n as int) =~= self@);
            self.lemma_len_bound();
        }
        Ok(paginate(&matched, page, per_page))
    }

    /// The listing operation behind the collection page: an absent search
    /// term lists every record, a present one restricts to matches, and an
    /// absent page number means the first page.
    pub fn browse(&self, q: Option<&String>, page: Option<i64>, per_page: i64) -> (r: Result<
        Vec<Contact>,
        StoreError,
    >)
        requires
            self.wf(),
            per_page >= 1,
        ensures
            r matches Ok(v) && views_of(v@) == ({
                let p = match page {
                    Some(p) => p as int,
                    None => 1int,
                };
                match q {
                    Some(term) => page_of(self@.filter(term_pred(term@)), p, per_page as int),
                    None => page_of(self@, p, per_page as int),
                }
            }),
    {
        let p: i64 = match page {
            Some(p) => p,
            None => 1,
        };
        match q {
            Some(term) => self.search(term.as_str(), p, per_page),
            None => self.get_all(p, per_page),
        }
    }

    /// Whether some stored record already has exactly this email; checked
    /// over the whole store, independent of pagination.
    pub fn validate_email(&self, email: &str) -> (r: Result<bool, StoreError>)
        ensures
            r matches Ok(b) && b == email_taken(self@, email@),
    {
        let needle: String = email.to_owned();
        let n = self.contacts.len();
        let mut i: usize = 0;
        while i < n
            invariant
                n == self.contacts.len(),
                i <= n,
                needle@ == email@,
                forall|j: int| 0 <= j < i ==> self@[j].email != email@,
            decreases n - i,
        {
            if self.contacts[i].email == needle {
                proof {
                    assert(self@[i as int].email == email@);
                }
                return Ok(true);
            }
            i = i + 1;
        }
        Ok(false)
    }

    /// Whether some stored record already has exactly this phone number;
    /// checked over the whole store, independent of pagination.
    pub fn validate_phone(&self, phone_number: &str) -> (r: Result<bool, StoreError>)
        ensures
            r matches Ok(b) && b == phone_taken(self@, phone_number@),
    {
        let needle: String = phone_number.to_owned();
        let n = self.contacts.len();
        let mut i: usize = 0;
        while i < n
            invariant
                n == self.contacts.len(),
                i <= n,
                needle@ == phone_number@,
                forall|j: int| 0 <= j < i ==> self@[j].phone_number != phone_number@,
            decreases n - i,
        {
            if self.contacts[i].phone_number == needle {
                proof {
                    assert(self@[i as int].phone_number == phone_number@);
                }
                return Ok(true);
            }
            i = i + 1;
        }
        Ok(false)
    }
}

} // verus!
