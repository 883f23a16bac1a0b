use replicante::text::chars_of;
use replicante::text::concat2;
use replicante::text::concat3;
use replicante::text::distinct;
use replicante::text::str_contains;
use replicante::text::str_eq;
use replicante::text::str_starts_with;

#[test]
fn characters_in_order() {
    assert_eq!(chars_of(""), Vec::<char>::new());
    assert_eq!(chars_of("abc"), vec!['a', 'b', 'c']);
    assert_eq!(chars_of("é1"), vec!['é', '1']);
}

#[test]
fn substring_search() {
    assert!(str_contains("cluster-one", "ster"));
    assert!(str_contains("cluster-one", "cluster-one"));
    assert!(str_contains("cluster-one", "one"));
    assert!(str_contains("cluster-one", "c"));
    assert!(!str_contains("cluster-one", "two"));
    assert!(!str_contains("cluster-one", "cluster-one-and-more"));
    assert!(!str_contains("aab", "aba"));
    assert!(str_contains("aaab", "aab"));
}

#[test]
fn empty_needle_is_found_everywhere() {
    assert!(str_contains("", ""));
    assert!(str_contains("abc", ""));
    assert!(!str_contains("", "a"));
}

#[test]
fn substring_search_beyond_ascii() {
    assert!(str_contains("données", "née"));
    assert!(!str_contains("données", "nee"));
}

#[test]
fn prefixes() {
    assert!(str_starts_with("SHARD_ALLOCATION_NEW", "SHARD_"));
    assert!(str_starts_with("SHARD_ALLOCATION_NEW", ""));
    assert!(str_starts_with("SHARD_", "SHARD_"));
    assert!(!str_starts_with("SHARD", "SHARD_"));
    assert!(!str_starts_with("NODE_NEW", "SHARD_"));
    assert!(!str_starts_with("", "S"));
    assert!(str_starts_with("", ""));
}

#[test]
fn equal_slices() {
    assert!(str_eq("", ""));
    assert!(str_eq("abc", "abc"));
    assert!(!str_eq("abc", "abd"));
    assert!(!str_eq("abc", "ab"));
}

#[test]
fn joined_strings() {
    assert_eq!(concat2("cluster_refresh/", "c1"), "cluster_refresh/c1");
    assert_eq!(concat2("", ""), "");
    assert_eq!(concat3("a", ": ", "b"), "a: b");
}

#[test]
fn first_occurrences_only() {
    let items = vec!["b".to_string(), "a".to_string(), "b".to_string(), "c".to_string(), "a".to_string()];
    assert_eq!(distinct(&items), vec!["b".to_string(), "a".to_string(), "c".to_string()]);
    assert_eq!(distinct(&Vec::new()), Vec::<String>::new());
}
