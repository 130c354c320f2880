use grapheme_machine::{
    CharProperties, ClusterAction, GCBProperty, GraphemeMachine, InCBProperty, PropertyTable,
};
use grapheme_machine::ClusterAction::{Continue, Split};
use ::u8char::{u8char, AsU8Chars};

/// A small table: the characters that these tests use, with the properties
/// that Unicode 16.0.0 gives them.
fn sample_table() -> PropertyTable {
    let mut table = PropertyTable::new();
    let rows = [
        ('\u{0009}', '\u{0009}', GCBProperty::Control, InCBProperty::Other),
        ('\u{000A}', '\u{000A}', GCBProperty::LF, InCBProperty::Other),
        ('\u{000D}', '\u{000D}', GCBProperty::CR, InCBProperty::Other),
        ('\u{0300}', '\u{036F}', GCBProperty::Extend, InCBProperty::Extend),
        ('\u{0600}', '\u{0605}', GCBProperty::Prepend, InCBProperty::Other),
        ('\u{0915}', '\u{0939}', GCBProperty::Other, InCBProperty::Consonant),
        ('\u{094D}', '\u{094D}', GCBProperty::Extend, InCBProperty::Linker),
        ('\u{0C41}', '\u{0C41}', GCBProperty::SpacingMark, InCBProperty::Other),
        ('\u{1100}', '\u{115F}', GCBProperty::L, InCBProperty::Other),
        ('\u{1160}', '\u{11A7}', GCBProperty::V, InCBProperty::Other),
        ('\u{11A8}', '\u{11FF}', GCBProperty::T, InCBProperty::Other),
        ('\u{200D}', '\u{200D}', GCBProperty::ZWJ, InCBProperty::Extend),
        ('\u{AC00}', '\u{AC00}', GCBProperty::LV, InCBProperty::Other),
        ('\u{AC01}', '\u{AC1B}', GCBProperty::LVT, InCBProperty::Other),
        ('\u{1F1E6}', '\u{1F1FF}', GCBProperty::RegionalIndicator, InCBProperty::Other),
        ('\u{1F33E}', '\u{1F33E}', GCBProperty::ExtendedPictographic, InCBProperty::Other),
        ('\u{1F9D1}', '\u{1F9D1}', GCBProperty::ExtendedPictographic, InCBProperty::Other),
    ];
    for (first, last, gcb, incb) in rows {
        assert!(table.push_range(first, last, CharProperties::new(gcb, incb)));
    }
    table
}

const INPUT: &str = "Hello!\r\nBeep \u{1F9D1}\u{200D}\u{1F33E}";

fn clusters_of(input: &str, table: &PropertyTable) -> Vec<String> {
    let mut clusters: Vec<String> = Vec::new();
    let mut current_cluster = String::new();
    let mut machine = GraphemeMachine::new();
    for c in input.u8chars() {
        if machine.next_u8char(c, table) == ClusterAction::Split {
            if !current_cluster.is_empty() {
                clusters.push(current_cluster.clone());
                current_cluster.clear();
            }
        }
        current_cluster.push_str(c.as_str());
    }
    if !current_cluster.is_empty() {
        clusters.push(current_cluster.clone());
    }
    clusters
}

#[test]
fn character_categories() {
    let table = sample_table();
    let prop = |c: char| CharProperties::for_u8char(u8char::from_char(c), &table).gcb_property();

    assert_eq!(prop(' '), GCBProperty::Other);
    assert_eq!(prop('\r'), GCBProperty::CR);
    assert_eq!(prop('\n'), GCBProperty::LF);
    assert_eq!(prop('\t'), GCBProperty::Control);
    assert_eq!(prop('\u{200D}'), GCBProperty::ZWJ);
    assert_eq!(prop('\u{1F1E6}'), GCBProperty::RegionalIndicator);
    assert_eq!(prop('\u{1F9D1}'), GCBProperty::ExtendedPictographic);
    assert_eq!(prop('\u{1F33E}'), GCBProperty::ExtendedPictographic);
    assert_eq!(prop('\u{0C41}'), GCBProperty::SpacingMark);
}

#[test]
fn basics() {
    let table = sample_table();
    assert_eq!(
        clusters_of(INPUT, &table),
        vec![
            "H",
            "e",
            "l",
            "l",
            "o",
            "!",
            "\r\n",
            "B",
            "e",
            "e",
            "p",
            " ",
            "\u{1F9D1}\u{200D}\u{1F33E}"
        ]
    );
}

#[test]
fn end_of_input() {
    let table = sample_table();
    let mut machine = GraphemeMachine::new();
    for c in INPUT.u8chars() {
        // effectively forces a cluster boundary
        assert_eq!(machine.end_of_input(), ClusterAction::Split);
        if machine.next_u8char(c, &table) != ClusterAction::Split {
            panic!("non-split after end_of_input came before {c:?}");
        }
    }
}

#[test]
fn next_chars_from_str() {
    let table = sample_table();
    let mut machine = GraphemeMachine::new();
    let got = machine.next_chars_from_str(INPUT, &table);
    assert_eq!(
        got,
        vec![
            (Split, 'H'),
            (Split, 'e'),
            (Split, 'l'),
            (Split, 'l'),
            (Split, 'o'),
            (Split, '!'),
            (Split, '\r'),
            (Continue, '\n'),
            (Split, 'B'),
            (Split, 'e'),
            (Split, 'e'),
            (Split, 'p'),
            (Split, ' '),
            (Split, '\u{1F9D1}'),
            (Continue, '\u{200D}'), // zero-width joiner
            (Continue, '\u{1F33E}'),
        ]
    );
}

/// Cases in the form of the Unicode grapheme break test file: a text, and
/// the clusters that it is to be split into.
#[test]
fn unicode_test_table() {
    let table = sample_table();
    let cases: [(&str, &[&str]); 14] = [
        ("  ", &[" ", " "]),
        (" \r", &[" ", "\r"]),
        ("\r\n", &["\r\n"]),
        ("\n\r", &["\n", "\r"]),
        ("\r\u{0300}", &["\r", "\u{0300}"]),
        ("a\u{0300}b", &["a\u{0300}", "b"]),
        (" \u{200D}", &[" \u{200D}"]),
        ("a\u{0C41}", &["a\u{0C41}"]),
        ("\u{0600}a", &["\u{0600}a"]),
        ("\u{1100}\u{1160}\u{11A8}", &["\u{1100}\u{1160}\u{11A8}"]),
        ("\u{AC00}\u{11A8}\u{1100}", &["\u{AC00}\u{11A8}", "\u{1100}"]),
        ("\u{1F1E6}\u{1F1E7}\u{1F1E8}", &["\u{1F1E6}\u{1F1E7}", "\u{1F1E8}"]),
        ("\u{0915}\u{094D}\u{0924}", &["\u{0915}\u{094D}\u{0924}"]),
        ("\u{0915}\u{0300}\u{0924}", &["\u{0915}\u{0300}", "\u{0924}"]),
    ];
    let mut failures = 0;
    for (input, expected) in cases {
        let got = clusters_of(input, &table);
        if got != expected {
            println!("- test failed");
            println!("  input: {:x?}", input.as_bytes());
            println!("  got:   {:x?}", got);
            println!("  want:  {:x?}", expected);
            failures += 1;
        }
    }
    if failures != 0 {
        panic!("{failures} tests failed");
    }
}

#[test]
fn next_char_by_char_gives_the_same_actions() {
    let table = sample_table();
    let mut whole = GraphemeMachine::new();
    let mut single = GraphemeMachine::new();
    let mut encoded = GraphemeMachine::new();
    let text = "a\u{0300}\r\n\u{1F1E6}\u{1F1E7}\u{1F1E8}\u{0915}\u{094D}\u{0924}\u{1F9D1}\u{0300}\u{200D}\u{1F33E}";
    let got = whole.next_chars_from_str(text, &table);
    assert_eq!(got.len(), text.chars().count());
    for ((action, c), expected) in got.into_iter().zip(text.chars()) {
        assert_eq!(c, expected);
        assert_eq!(single.next_char(c, &table), action);
        assert_eq!(encoded.next_u8char(u8char::from_char(c), &table), action);
    }
    // The three machines are in the same place now: they answer alike.
    for c in ['\u{200D}', '\u{1F33E}', 'x'] {
        let action = whole.next_chars_from_str(c.to_string().as_str(), &table)[0].0;
        assert_eq!(single.next_char(c, &table), action);
        assert_eq!(encoded.next_u8char(u8char::from_char(c), &table), action);
    }
    assert!(whole.next_chars_from_str("", &table).is_empty());
}

#[test]
fn lookup_takes_the_scalar_value_of_the_encoded_character() {
    // U+00E9 is the bytes C3 A9 in UTF-8: neither byte, nor the two read as
    // one number, is the scalar value.
    let mut table = PropertyTable::new();
    let props = CharProperties::new(GCBProperty::Extend, InCBProperty::Linker);
    assert!(table.push_range('\u{00E9}', '\u{00E9}', props));
    assert_eq!(CharProperties::for_u8char(u8char::from_char('\u{00E9}'), &table), props);
    assert_eq!(CharProperties::for_char('\u{00E9}', &table), props);
    for c in ['\u{00A9}', '\u{00C3}', '\u{00E8}', '\u{00EA}', '\u{A9C3}', '\u{C3A9}'] {
        let none = CharProperties::new(GCBProperty::Other, InCBProperty::Other);
        assert_eq!(CharProperties::for_u8char(u8char::from_char(c), &table), none);
        assert_eq!(CharProperties::for_char(c, &table), none);
    }
}

#[test]
fn char_and_u8char_agree() {
    let table = sample_table();
    for c in INPUT.chars().chain(['\u{0915}', '\u{094D}', '\u{10FFFF}', '\u{0000}', '\u{D7FF}', '\u{E000}']) {
        assert_eq!(
            CharProperties::for_char(c, &table),
            CharProperties::for_u8char(u8char::from_char(c), &table)
        );
    }
}
