use rdaggy::distance::distance;

#[test]
fn distance_of_equal_words_is_zero() {
    assert_eq!(distance("ping", "ping"), 0);
}

#[test]
fn distance_from_empty_is_length() {
    assert_eq!(distance("", "abc"), 3);
    assert_eq!(distance("abc", ""), 3);
}

#[test]
fn distance_is_symmetric_on_samples() {
    assert_eq!(distance("kitten", "sitting"), 3);
    assert_eq!(distance("sitting", "kitten"), 3);
}

#[test]
fn distance_counts_scalar_values_not_bytes() {
    assert_eq!(distance("né", "ne"), 1);
    assert_eq!(distance("日本語", "日本"), 1);
}

#[test]
fn distance_of_transposition_is_two() {
    assert_eq!(distance("pign", "ping"), 2);
}

#[test]
fn distance_of_empty_words_is_zero() {
    assert_eq!(distance("", ""), 0);
    assert_eq!(distance("rusty ferris", "rusty ferris"), 0);
}

#[test]
fn distance_counts_case_changes() {
    assert_eq!(distance("rusty ferris", "RUSTY FERRIS"), 11);
}

#[test]
fn distance_of_insertions_and_deletions() {
    assert_eq!(distance("ferris", "rusty ferris"), 6);
    assert_eq!(distance("rusty ferris", "ferris"), 6);
    assert_eq!(distance("a", "b"), 1);
    assert_eq!(distance("flaw", "lawn"), 2);
}

#[test]
fn distance_obeys_the_triangle_inequality_on_samples() {
    let words = ["", "ping", "pong", "pign", "mod ban", "spotify", "日本語"];
    for a in words {
        for b in words {
            for c in words {
                assert!(distance(a, c) <= distance(a, b) + distance(b, c));
            }
        }
    }
}
