use crust_of_rust::lifetimes::StrSplit;

fn collect_pieces<'a>(mut split: StrSplit<'a, '_>) -> Vec<&'a str> {
    let mut pieces = Vec::new();
    while let Some(piece) = split.next() {
        pieces.push(piece);
    }
    pieces
}

#[test]
fn test_split_valid() {
    let haystack = "a b c d e";
    let letters: Vec<_> = collect_pieces(StrSplit::new(haystack, " "));

    assert_eq!(letters, vec!["a", "b", "c", "d", "e"])
}

#[test]
fn test_split_tail() {
    let haystack = "a b c d ";
    let letters: Vec<_> = collect_pieces(StrSplit::new(haystack, " "));

    assert_eq!(letters, vec!["a", "b", "c", "d", ""])
}

#[test]
fn test_split_multichar_delimiter() {
    let pieces: Vec<_> = collect_pieces(StrSplit::new("x::y::z", "::"));
    assert_eq!(pieces, vec!["x", "y", "z"]);
}

#[test]
fn test_split_no_delimiter_present() {
    let pieces: Vec<_> = collect_pieces(StrSplit::new("abc", ","));
    assert_eq!(pieces, vec!["abc"]);
}

#[test]
fn test_split_empty_haystack() {
    let pieces: Vec<_> = collect_pieces(StrSplit::new("", " "));
    assert_eq!(pieces, vec![""]);
}

#[test]
fn test_split_non_ascii() {
    let pieces: Vec<_> = collect_pieces(StrSplit::new("grüß — dich", " — "));
    assert_eq!(pieces, vec!["grüß", "dich"]);
}
