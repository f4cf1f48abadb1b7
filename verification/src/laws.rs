//! Cross-operation laws of the record store, each proved over the view
//! vocabulary that the store's own contracts are stated in.

use vstd::prelude::*;
use crate::contacts::ContactV;
use crate::search::{contact_matches, fold_chars, match_at, term_pred};
use crate::store::{contains_id, email_taken, ids_unique, idx_of, page_of};

verus! {

/// Creating a record makes its email exist: after the create, the new
/// record's email is reported as taken, and any email is reported taken
/// exactly when it was taken before or is the created one. In particular
/// an email not previously stored is reported only after the create.
pub proof fn lemma_email_exists_after_create(pre: Seq<ContactV>, c: ContactV, e: Seq<char>)
    ensures
        email_taken(pre.push(c), c.email),
        email_taken(pre.push(c), e) <==> (email_taken(pre, e) || e == c.email),
{
    let post = pre.push(c);
    assert(post[pre.len() as int] == c);
    assert(email_taken(post, c.email));
    if email_taken(post, e) && e != c.email {
        let i = choose|i: int| 0 <= i < post.len() && post[i].email == e;
        assert(post[i] == pre[i]);
        assert(email_taken(pre, e));
    }
    if email_taken(pre, e) {
        let i = choose|i: int| 0 <= i < pre.len() && pre[i].email == e;
        assert(post[i] == pre[i]);
        assert(email_taken(post, e));
    }
}

/// A record created under a fresh id is found again by that id: lookup in
/// the extended store lands exactly on the new record, so it returns the
/// created record with its four input fields and stamped `created_at`.
pub proof fn lemma_find_created(pre: Seq<ContactV>, c: ContactV)
    requires
        !contains_id(pre, c.id),
    ensures
        contains_id(pre.push(c), c.id),
        pre.push(c)[idx_of(pre.push(c), c.id)] == c,
{
    let post = pre.push(c);
    assert(post[pre.len() as int] == c);
    assert(contains_id(post, c.id));
    let k = idx_of(post, c.id);
    assert(0 <= k < post.len() && post[k].id == c.id);
    if k < pre.len() {
        assert(pre[k] == post[k]);
        assert(contains_id(pre, c.id));
    }
    assert(post[k] == c);
}

/// Deleting an id and then looking it up fails, whether or not a record
/// with that id existed before the delete: the store that `delete`
/// leaves behind contains no record with that id.
pub proof fn lemma_delete_then_find(pre: Seq<ContactV>, id: int)
    requires
        ids_unique(pre),
    ensures
        !contains_id(
            if contains_id(pre, id) {
                pre.remove(idx_of(pre, id))
            } else {
                pre
            },
            id,
        ),
{
    if contains_id(pre, id) {
        let k = idx_of(pre, id);
        assert(0 <= k < pre.len() && pre[k].id == id);
        let post = pre.remove(k);
        if contains_id(post, id) {
            let i = choose|i: int| 0 <= i < post.len() && post[i].id == id;
            if i < k {
                assert(post[i] == pre[i]);
            } else {
                assert(post[i] == pre[i + 1]);
            }
        }
    }
}

/// Updating a record and then looking it up by id yields exactly the four
/// submitted fields while keeping the record's original `created_at` and
/// id; every other record is untouched.
pub proof fn lemma_find_after_update(pre: Seq<ContactV>, c: ContactV)
    requires
        ids_unique(pre),
        contains_id(pre, c.id),
    ensures
        ({
            let k = idx_of(pre, c.id);
            let merged = ContactV {
                id: c.id,
                first_name: c.first_name,
                last_name: c.last_name,
                phone_number: c.phone_number,
                email: c.email,
                created_at: pre[k].created_at,
            };
            let post = pre.update(k, merged);
            &&& contains_id(post, c.id)
            &&& idx_of(post, c.id) == k
            &&& post[idx_of(post, c.id)] == merged
            &&& forall|j: int| 0 <= j < post.len() && j != k ==> post[j] == pre[j]
        }),
{
    let k = idx_of(pre, c.id);
    assert(0 <= k < pre.len() && pre[k].id == c.id);
    let merged = ContactV {
        id: c.id,
        first_name: c.first_name,
        last_name: c.last_name,
        phone_number: c.phone_number,
        email: c.email,
        created_at: pre[k].created_at,
    };
    let post = pre.update(k, merged);
    assert(post[k] == merged);
    assert(contains_id(post, c.id));
    let m = idx_of(post, c.id);
    assert(0 <= m < post.len() && post[m].id == c.id);
    if m != k {
        assert(post[m] == pre[m]);
        assert(pre[m].id == c.id && pre[k].id == c.id);
    }
}

/// Two consecutive pages of size `n` are, concatenated, exactly the first
/// page of size `2 * n`: pagination produces no duplicates and no gaps,
/// and truncation at the end of the store is consistent between the two.
pub proof fn lemma_pagination_concat(s: Seq<ContactV>, n: int)
    requires
        n >= 1,
    ensures
        page_of(s, 1, n) + page_of(s, 2, n) == page_of(s, 1, 2 * n),
{
    let len = s.len() as int;
    let a = if n > len {
        len
    } else {
        n
    };
    let b = if 2 * n > len {
        len
    } else {
        2 * n
    };
    assert((1 - 1) * n == 0) by (nonlinear_arith);
    assert((2 - 1) * n == n) by (nonlinear_arith);
    assert((1 - 1) * (2 * n) == 0) by (nonlinear_arith);
    assert(page_of(s, 1, n) == s.subrange(0, a));
    assert(page_of(s, 2, n) == s.subrange(a, b));
    assert(page_of(s, 1, 2 * n) == s.subrange(0, b));
    assert(s.subrange(0, a) + s.subrange(a, b) =~= s.subrange(0, b));
}

/// The empty search term matches every record: its folded form occurs in
/// every folded name at index 0.
pub proof fn lemma_empty_term_matches(c: ContactV, term: Seq<char>)
    requires
        term.len() == 0,
    ensures
        contact_matches(c, term),
{
    assert(match_at(fold_chars(c.first_name), fold_chars(term), 0)) by {
        assert(fold_chars(term).len() == 0);
        assert(fold_chars(c.first_name).subrange(0, 0) =~= fold_chars(term));
    }
}

/// Filtering by a predicate that holds of every element is the identity.
proof fn lemma_filter_true_id(s: Seq<ContactV>, p: spec_fn(ContactV) -> bool)
    requires
        forall|i: int| 0 <= i < s.len() ==> p(#[trigger] s[i]),
    ensures
        s.filter(p) == s,
    decreases s.len(),
{
    reveal(Seq::filter);
    if s.len() == 0 {
        assert(s.filter(p) =~= s);
    } else {
        lemma_filter_true_id(s.drop_last(), p);
        assert(p(s.last()));
        assert(s.drop_last().push(s.last()) =~= s);
    }
}

/// Searching with an empty term pages through the same record sequence as
/// plain listing, under the same pagination.
pub proof fn lemma_search_empty_is_list(s: Seq<ContactV>, term: Seq<char>, page: int, per_page: int)
    requires
        term.len() == 0,
    ensures
        page_of(s.filter(term_pred(term)), page, per_page) == page_of(s, page, per_page),
{
    assert forall|i: int| 0 <= i < s.len() implies term_pred(term)(#[trigger] s[i]) by {
        lemma_empty_term_matches(s[i], term);
    }
    lemma_filter_true_id(s, term_pred(term));
}

} // verus!
