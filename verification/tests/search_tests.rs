use webone::contacts::NewContact;
use webone::search::{contains_ci_str, make_like_pattern, matches_contact};
use webone::store::ContactStore;

fn nc(first: &str, last: &str, phone: &str, email: &str) -> NewContact {
    NewContact {
        first_name: first.to_string(),
        last_name: last.to_string(),
        phone_number: phone.to_string(),
        email: email.to_string(),
        errors: None,
    }
}

fn seeded() -> ContactStore {
    let mut st = ContactStore::new();
    st.create(nc("Jane", "Doe", "1", "jane@x.com"), "t1".to_string()).unwrap();
    st.create(nc("John", "Doe", "2", "john@x.com"), "t2".to_string()).unwrap();
    st.create(nc("Ada", "Lovelace", "3", "ada@x.com"), "t3".to_string()).unwrap();
    st.create(nc("Alan", "Turing", "4", "alan@x.com"), "t4".to_string()).unwrap();
    st
}

#[test]
fn contains_ci_basic() {
    assert!(contains_ci_str("Hello World", "o W"));
    assert!(contains_ci_str("Hello World", "o w"));
    assert!(contains_ci_str("HELLO", "hello"));
    assert!(contains_ci_str("hello", ""));
    assert!(contains_ci_str("", ""));
    assert!(!contains_ci_str("", "a"));
    assert!(!contains_ci_str("Hello", "World"));
}

#[test]
fn contains_ci_is_exact_outside_ascii() {
    // non-ASCII characters are compared exactly, never case-folded
    assert!(contains_ci_str("Grüße", "rüß"));
    assert!(!contains_ci_str("GRÜSSE", "grüsse"));
}

#[test]
fn search_is_case_insensitive_on_names() {
    let st = seeded();
    let hits = st.search("jane", 1, 10).unwrap();
    assert_eq!(hits.len(), 1);
    assert_eq!(hits[0].first_name, "Jane");
    let hits = st.search("JANE", 1, 10).unwrap();
    assert_eq!(hits.len(), 1);
    let hits = st.search("xyz", 1, 10).unwrap();
    assert!(hits.is_empty());
}

#[test]
fn search_covers_first_and_last_name() {
    let st = seeded();
    let doe = st.search("doe", 1, 10).unwrap();
    assert_eq!(doe.len(), 2);
    assert_eq!(doe[0].first_name, "Jane");
    assert_eq!(doe[1].first_name, "John");
    let lovelace = st.search("LOVE", 1, 10).unwrap();
    assert_eq!(lovelace.len(), 1);
    assert_eq!(lovelace[0].first_name, "Ada");
}

#[test]
fn empty_term_matches_everything() {
    let st = seeded();
    let listed = st.get_all(1, 3).unwrap();
    let searched = st.search("", 1, 3).unwrap();
    assert_eq!(listed.len(), searched.len());
    for (a, b) in listed.iter().zip(searched.iter()) {
        assert_eq!(a.id, b.id);
        assert_eq!(a.first_name, b.first_name);
    }
}

#[test]
fn pagination_concatenates_without_gaps_or_duplicates() {
    let st = seeded();
    let p1 = st.get_all(1, 2).unwrap();
    let p2 = st.get_all(2, 2).unwrap();
    let both = st.get_all(1, 4).unwrap();
    assert_eq!(p1.len(), 2);
    assert_eq!(p2.len(), 2);
    assert_eq!(both.len(), 4);
    let concat: Vec<i64> = p1.iter().chain(p2.iter()).map(|c| c.id).collect();
    let whole: Vec<i64> = both.iter().map(|c| c.id).collect();
    assert_eq!(concat, whole);
    assert_eq!(whole, vec![1, 2, 3, 4]);
}

#[test]
fn pagination_truncates_at_the_end() {
    let st = seeded();
    let p2 = st.get_all(2, 3).unwrap();
    assert_eq!(p2.len(), 1);
    assert_eq!(p2[0].id, 4);
    let p3 = st.get_all(3, 3).unwrap();
    assert!(p3.is_empty());
}

#[test]
fn page_below_one_is_clamped_to_the_first_page() {
    let st = seeded();
    let clamped = st.get_all(0, 2).unwrap();
    let first = st.get_all(1, 2).unwrap();
    assert_eq!(clamped.len(), first.len());
    for (a, b) in clamped.iter().zip(first.iter()) {
        assert_eq!(a.id, b.id);
    }
    let negative = st.get_all(-5, 2).unwrap();
    assert_eq!(negative.len(), 2);
    assert_eq!(negative[0].id, 1);
}

#[test]
fn browse_dispatches_between_list_and_search() {
    let st = seeded();
    let all = st.browse(None, None, 10).unwrap();
    assert_eq!(all.len(), 4);
    let q = "doe".to_string();
    let hits = st.browse(Some(&q), Some(1), 10).unwrap();
    assert_eq!(hits.len(), 2);
}

#[test]
fn matches_contact_checks_both_name_fields() {
    let st = seeded();
    let ada = st.find_by_id(3).unwrap();
    assert!(matches_contact(&ada, "ada"));
    assert!(matches_contact(&ada, "lace"));
    assert!(!matches_contact(&ada, "doe"));
}

#[test]
fn like_pattern_brackets_the_term() {
    assert_eq!(make_like_pattern("Jane"), "%Jane%");
    assert_eq!(make_like_pattern(""), "%%");
}
