use nixv::nix_logs::helpers::{filter_ansi, remove_word, ESCAPE_SEQUENCES};

fn replaced(text: &str) -> String {
    let mut out = text.to_string();
    for word in ESCAPE_SEQUENCES {
        out = out.replace(word, "");
    }
    out
}

#[test]
fn the_table_is_whole() {
    assert_eq!(ESCAPE_SEQUENCES.len(), 566);
    assert_eq!(ESCAPE_SEQUENCES[0], "\\u001b[39m");
    assert_eq!(ESCAPE_SEQUENCES[34], "\\u001b[38;5;0m");
    assert_eq!(ESCAPE_SEQUENCES[289], "\\u001b[38;5;255m");
    assert_eq!(ESCAPE_SEQUENCES[290], "\\u001b[48;5;0m");
    assert_eq!(ESCAPE_SEQUENCES[545], "\\u001b[48;5;255m");
    assert_eq!(ESCAPE_SEQUENCES[558], "\\u001b[28m");
    assert_eq!(ESCAPE_SEQUENCES[559], "\\u001b");
    assert_eq!(ESCAPE_SEQUENCES[560], "B[m");
    assert_eq!(ESCAPE_SEQUENCES[561], "\\\"");
    assert_eq!(ESCAPE_SEQUENCES[562], "\"");
    assert_eq!(ESCAPE_SEQUENCES[565], "[;2m");
    assert!(ESCAPE_SEQUENCES.iter().all(|word| !word.is_empty()));
}

#[test]
fn a_word_is_taken_out_wherever_it_stands() {
    assert_eq!(remove_word("abcabc", "b"), "acac");
    assert_eq!(remove_word("abcabc", "abc"), "");
    assert_eq!(remove_word("abcabc", "bc"), "aa");
    assert_eq!(remove_word("abcabc", "ca"), "abbc");
    assert_eq!(remove_word("abc", "abcd"), "abc");
    assert_eq!(remove_word("abc", "x"), "abc");
    assert_eq!(remove_word("", "x"), "");
    assert_eq!(remove_word("", ""), "");
    assert_eq!(remove_word("abc", ""), "abc");
    assert_eq!(remove_word("xabc", "x"), "abc");
    assert_eq!(remove_word("abcx", "x"), "abc");
}

#[test]
fn a_word_is_read_from_the_left_without_overlap() {
    assert_eq!(remove_word("aaa", "aa"), "a");
    assert_eq!(remove_word("aaaa", "aa"), "");
    assert_eq!(remove_word("ababa", "aba"), "ba");
    // What comes together once the word is out stays.
    assert_eq!(remove_word("aabb", "ab"), "ab");
    assert_eq!(remove_word("\u{e9}x\u{1F600}x\u{e9}", "x"), "\u{e9}\u{1F600}\u{e9}");
    assert_eq!(remove_word("a\u{1F600}b", "\u{1F600}"), "ab");
}

#[test]
fn a_word_goes_as_with_replace() {
    for text in ["", "a", "aaa", "abababab", "xyzxyzxy", "the cat sat", "\"\"\"", "\\\"\\\""] {
        for word in ["", "a", "aa", "ab", "ba", "xyz", "zx", " ", "\"", "\\\"", "the cat sat!"] {
            assert_eq!(remove_word(text, word), text.replace(word, ""), "{:?} {:?}", text, word);
        }
    }
}

#[test]
fn colours_in_escaped_text_go() {
    assert_eq!(filter_ansi("\\u001b[31mred\\u001b[0m".to_string()), "red");
    assert_eq!(filter_ansi("\\u001b[38;5;12mblue\\u001b[39m sky".to_string()), "blue sky");
    assert_eq!(filter_ansi("\\u001b[48;5;255m\\u001b[1mbold\\u001b[22m".to_string()), "bold");
    assert_eq!(filter_ansi("plain text".to_string()), "plain text");
    assert_eq!(filter_ansi("".to_string()), "");
}

#[test]
fn quotes_and_leftovers_go() {
    assert_eq!(filter_ansi("\"quoted\"".to_string()), "quoted");
    assert_eq!(filter_ansi("say \\\"hi\\\"".to_string()), "say hi");
    assert_eq!(filter_ansi("x[;1my[;0mz[;2m".to_string()), "xyz");
    assert_eq!(filter_ansi("aB[mb".to_string()), "ab");
    // An escape that the table does not know loses its start only.
    assert_eq!(filter_ansi("\\u001b[3mitalic".to_string()), "[3mitalic");
    // The escape character itself is none of the sequences.
    assert_eq!(filter_ansi("\u{1b}[31mred".to_string()), "\u{1b}[31mred");
}

#[test]
fn the_sequences_go_one_after_the_other() {
    // The first sequence leaves what the second then finds.
    assert_eq!(filter_ansi("\\u001b\\u001b[39m[31mx".to_string()), "x");
    assert_eq!(filter_ansi("[;\"1mx".to_string()), "x");
    // A later sequence is not looked for again.
    assert_eq!(filter_ansi("\\u001b[\\u001b[0m31mx".to_string()), "[31mx");
    assert_eq!(filter_ansi("B[[;1mm".to_string()), "B[m");
}

#[test]
fn the_filter_goes_as_with_replace() {
    for text in [
        "",
        "plain",
        "\\u001b[31merror:\\u001b[0m \\\"x\\\" \"y\"",
        "\\u001b[38;5;100m\\u001b[48;5;200m[;1mB[m\\u001b",
        "\\u001b[38;5;1000m",
        "\\\\u001b[0m",
        "\\u001b[\\u001b[0m0m",
        "caf\u{e9} \\u001b[4m\u{1F600}\\u001b[24m",
        "\\u001b[10\\u001b[7m0m",
    ] {
        assert_eq!(filter_ansi(text.to_string()), replaced(text), "{:?}", text);
    }
}
