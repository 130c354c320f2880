use grapheme_machine::ClusterAction::{Continue, Split};
use grapheme_machine::{CharProperties, ClusterAction, GCBProperty, GraphemeMachine, InCBProperty};

const ALL_GCB: [GCBProperty; 15] = [
    GCBProperty::Other,
    GCBProperty::CR,
    GCBProperty::Control,
    GCBProperty::Extend,
    GCBProperty::ExtendedPictographic,
    GCBProperty::L,
    GCBProperty::LF,
    GCBProperty::LV,
    GCBProperty::LVT,
    GCBProperty::Prepend,
    GCBProperty::RegionalIndicator,
    GCBProperty::SpacingMark,
    GCBProperty::T,
    GCBProperty::V,
    GCBProperty::ZWJ,
];

const ALL_INCB: [InCBProperty; 4] =
    [InCBProperty::Other, InCBProperty::Consonant, InCBProperty::Extend, InCBProperty::Linker];

fn all_properties() -> Vec<CharProperties> {
    let mut all = Vec::new();
    for gcb in ALL_GCB {
        for incb in ALL_INCB {
            all.push(CharProperties::new(gcb, incb));
        }
    }
    all
}

fn gcb(gcb: GCBProperty) -> CharProperties {
    CharProperties::gcb_only(gcb)
}

/// The actions of a machine at the start of a stream for the characters.
fn actions(chars: &[CharProperties]) -> Vec<ClusterAction> {
    let mut machine = GraphemeMachine::new();
    chars.iter().map(|&c| machine.next_char_properties(c)).collect()
}

/// A machine that has been given the characters.
fn machine_after(chars: &[CharProperties]) -> GraphemeMachine {
    let mut machine = GraphemeMachine::new();
    for &c in chars {
        machine.next_char_properties(c);
    }
    machine
}

/// Some streams that leave a machine in each of its states.
fn histories() -> Vec<Vec<CharProperties>> {
    let consonant = CharProperties::new(GCBProperty::Other, InCBProperty::Consonant);
    let linker = CharProperties::new(GCBProperty::Extend, InCBProperty::Linker);
    vec![
        vec![],
        vec![gcb(GCBProperty::Other)],
        vec![gcb(GCBProperty::CR)],
        vec![gcb(GCBProperty::Prepend)],
        vec![gcb(GCBProperty::RegionalIndicator)],
        vec![gcb(GCBProperty::RegionalIndicator), gcb(GCBProperty::RegionalIndicator)],
        vec![gcb(GCBProperty::ExtendedPictographic)],
        vec![gcb(GCBProperty::ExtendedPictographic), gcb(GCBProperty::Extend)],
        vec![gcb(GCBProperty::ExtendedPictographic), gcb(GCBProperty::ZWJ)],
        vec![consonant],
        vec![consonant, linker],
    ]
}

#[test]
fn first_character_always_splits() {
    for props in all_properties() {
        let mut machine = GraphemeMachine::new();
        assert_eq!(machine.next_char_properties(props), Split);
    }
}

#[test]
fn only_lf_continues_after_cr() {
    for history in histories() {
        for next in all_properties() {
            let mut machine = machine_after(&history);
            machine.next_char_properties(gcb(GCBProperty::CR));
            let expected =
                if next.gcb_property() == GCBProperty::LF { Continue } else { Split };
            assert_eq!(machine.next_char_properties(next), expected);
        }
    }
    // With a character between the two, both that character and the LF split.
    for between in all_properties() {
        if matches!(between.gcb_property(), GCBProperty::LF | GCBProperty::CR) {
            continue;
        }
        let got = actions(&[gcb(GCBProperty::CR), between, gcb(GCBProperty::LF)]);
        assert_eq!(got, vec![Split, Split, Split]);
    }
}

#[test]
fn regional_indicators_alternate() {
    let ri = gcb(GCBProperty::RegionalIndicator);
    assert_eq!(actions(&[ri, ri, ri, ri]), vec![Split, Continue, Split, Continue]);
    let got = actions(&[ri; 9]);
    for (k, action) in got.into_iter().enumerate() {
        assert_eq!(action, if k % 2 == 1 { Continue } else { Split });
    }
    // After a plain character the pairs begin anew.
    let other = gcb(GCBProperty::Other);
    assert_eq!(
        actions(&[ri, ri, ri, other, ri, ri, ri]),
        vec![Split, Continue, Split, Split, Split, Continue, Split]
    );
}

#[test]
fn regional_indicators_after_an_open_pattern() {
    // A pattern that is open when the run begins takes one indicator to
    // close, so the pairs begin with the second one.
    let ri = gcb(GCBProperty::RegionalIndicator);
    let pictographic = gcb(GCBProperty::ExtendedPictographic);
    assert_eq!(actions(&[pictographic, ri, ri, ri]), vec![Split, Split, Split, Continue]);
}

#[test]
fn emoji_zwj_sequence_continues() {
    let pictographic = gcb(GCBProperty::ExtendedPictographic);
    let extend = gcb(GCBProperty::Extend);
    let zwj = CharProperties::new(GCBProperty::ZWJ, InCBProperty::Extend);
    for history in histories() {
        for extends in 0..5 {
            let mut machine = machine_after(&history);
            machine.next_char_properties(pictographic);
            for _ in 0..extends {
                assert_eq!(machine.next_char_properties(extend), Continue);
            }
            assert_eq!(machine.next_char_properties(zwj), Continue);
            assert_eq!(machine.next_char_properties(pictographic), Continue);
        }
    }
}

#[test]
fn emoji_sequence_broken_by_extend_after_zwj() {
    let pictographic = gcb(GCBProperty::ExtendedPictographic);
    let extend = gcb(GCBProperty::Extend);
    let zwj = gcb(GCBProperty::ZWJ);
    assert_eq!(
        actions(&[pictographic, extend, extend, zwj, extend, pictographic]),
        vec![Split, Continue, Continue, Continue, Continue, Split]
    );
}

#[test]
fn cr_lf_between_plain_characters() {
    let other = gcb(GCBProperty::Other);
    assert_eq!(
        actions(&[other, gcb(GCBProperty::CR), gcb(GCBProperty::LF), other]),
        vec![Split, Split, Continue, Split]
    );
}

#[test]
fn consonants_join_over_a_linker_only() {
    let consonant = CharProperties::new(GCBProperty::Other, InCBProperty::Consonant);
    let linker = CharProperties::new(GCBProperty::Extend, InCBProperty::Linker);
    let extend = CharProperties::new(GCBProperty::Extend, InCBProperty::Extend);
    assert_eq!(actions(&[consonant, linker, consonant]), vec![Split, Continue, Continue]);
    assert_eq!(actions(&[consonant, extend, consonant]), vec![Split, Continue, Split]);
    assert_eq!(actions(&[consonant, consonant]), vec![Split, Split]);
    assert_eq!(actions(&[linker, consonant]), vec![Split, Split]);
    assert_eq!(
        actions(&[consonant, extend, linker, extend, linker, consonant, linker, consonant]),
        vec![Split, Continue, Continue, Continue, Continue, Continue, Continue, Continue]
    );
    assert_eq!(
        actions(&[consonant, extend, extend, consonant, extend, linker, consonant]),
        vec![Split, Continue, Continue, Split, Continue, Continue, Continue]
    );
    // A character that is neither linker nor extender closes the conjunct.
    let zwnj = gcb(GCBProperty::Extend);
    assert_eq!(actions(&[consonant, linker, zwnj, consonant]), vec![Split, Continue, Continue, Split]);
}

#[test]
fn end_of_input_splits_and_resets() {
    for history in histories() {
        for next in all_properties() {
            let mut machine = machine_after(&history);
            assert_eq!(machine.end_of_input(), Split);
            assert_eq!(machine.next_char_properties(next), Split);
        }
    }
    // After the end of input the machine is a new machine.
    let ri = gcb(GCBProperty::RegionalIndicator);
    let mut machine = machine_after(&[ri]);
    machine.end_of_input();
    let mut fresh = GraphemeMachine::new();
    for props in [ri, ri, ri, gcb(GCBProperty::Other)] {
        assert_eq!(machine.next_char_properties(props), fresh.next_char_properties(props));
    }
}

#[test]
fn unclassified_character_splits_unless_after_prepend() {
    let unclassified = CharProperties::new(GCBProperty::Other, InCBProperty::Other);
    for history in histories() {
        for prev in all_properties() {
            let mut machine = machine_after(&history);
            machine.next_char_properties(prev);
            let expected =
                if prev.gcb_property() == GCBProperty::Prepend { Continue } else { Split };
            assert_eq!(machine.next_char_properties(unclassified), expected);
        }
    }
}

#[test]
fn clusters_rebuild_the_text() {
    let all = all_properties();
    // A long stream that runs through the pairs of properties in an order
    // that brings every pair next to every other.
    let mut stream: Vec<(usize, CharProperties)> = Vec::new();
    for step in 1..all.len() {
        let mut at = 0;
        for _ in 0..all.len() {
            stream.push((stream.len(), all[at]));
            at = (at + step) % all.len();
        }
    }
    let mut machine = GraphemeMachine::new();
    let mut clusters: Vec<Vec<usize>> = Vec::new();
    let mut splits = 0;
    for &(item, props) in &stream {
        match machine.next_char_properties(props) {
            Split => {
                splits += 1;
                clusters.push(vec![item]);
            }
            Continue => clusters.last_mut().unwrap().push(item),
        }
    }
    assert_eq!(clusters.len(), splits);
    assert!(clusters.len() > 1);
    assert!(clusters.iter().all(|cluster| !cluster.is_empty()));
    let joined: Vec<usize> = clusters.concat();
    let text: Vec<usize> = stream.iter().map(|&(item, _)| item).collect();
    assert_eq!(joined, text);
}
