use chess_core::notation::notation_to_idx;
use chess_core::notation::split_on;

#[test]
fn split_on_space_works() {
    let test_string = "A B C D";
    let (item, rest) = split_on(test_string, ' ');
    assert_eq!(item, "A");
    assert_eq!(rest, "B C D");
}

#[test]
fn split_on_without_separator_keeps_whole_text() {
    let (item, rest) = split_on("ABCD", ' ');
    assert_eq!(item, "ABCD");
    assert_eq!(rest, "");
}

#[test]
fn split_on_splits_at_first_occurrence() {
    let (item, rest) = split_on("a-b-c", '-');
    assert_eq!(item, "a");
    assert_eq!(rest, "b-c");
    let (item, rest) = split_on("-lead", '-');
    assert_eq!(item, "");
    assert_eq!(rest, "lead");
}

#[test]
fn notation_to_idx_parses_squares() {
    let squares = notation_to_idx(&["a1", "h8", "e4", "b1", "c2", "g8"]);
    assert_eq!(squares, vec![0, 63, 28, 1, 10, 62]);
}

#[test]
fn notation_covers_the_whole_board_once() {
    // Every valid square string maps below 64, and no two distinct
    // strings share an index: the notation is recoverable from the
    // index.
    let files = ["a", "b", "c", "d", "e", "f", "g", "h"];
    let ranks = ["1", "2", "3", "4", "5", "6", "7", "8"];
    let mut seen = [false; 64];
    for rank in ranks.iter() {
        for file in files.iter() {
            let text = format!("{}{}", file, rank);
            let idx = notation_to_idx(&[text.as_str()])[0];
            assert!(idx < 64);
            assert!(!seen[idx]);
            seen[idx] = true;
        }
    }
    assert!(seen.iter().all(|&s| s));
}
