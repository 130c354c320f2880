//! What holds of every stream: theorems about the actions of a machine,
//! proved from the model in [`crate::machine`].

use vstd::prelude::*;
use crate::machine::{ClusterAction, MachineView};
use crate::properties::{CharProperties, GCBProperty, InCBProperty};
use crate::state::{gb11, gb12_gb13, gb9c, joined_as_pair, split_as_pair, State};

verus! {

/// The first character of a stream begins a cluster: there is none before
/// it to extend.
pub proof fn lemma_first_action_is_split(chars: Seq<CharProperties>)
    requires
        chars.len() > 0,
    ensures
        MachineView::start().actions(chars)[0] == ClusterAction::Split,
{
    assert(chars.take(0).len() == 0);
}

/// A machine that has seen no character since the start or since the end
/// of the input before answers `Split`, whatever its state.
pub proof fn lemma_split_without_previous(m: MachineView, next: CharProperties)
    requires
        m.prev is None,
    ensures
        m.action(next) == ClusterAction::Split,
{
}

/// After the end of input the next character begins a cluster, whatever
/// the machine had seen before.
pub proof fn lemma_split_after_end_of_input(m: MachineView, next: CharProperties)
    ensures
        m.end_of_input().action(next) == ClusterAction::Split,
{
}

/// The only character that continues a cluster after a `CR` is an `LF`:
/// the machine answers the character after a `CR` with `Continue` if it is
/// an `LF`, and with `Split` if it is anything else.
pub proof fn lemma_only_lf_continues_cr(m: MachineView, cr: CharProperties, next: CharProperties)
    requires
        cr.gcb() == GCBProperty::CR,
    ensures
        m.step(cr).action(next) == ClusterAction::Continue <==> next.gcb() == GCBProperty::LF,
{
}

/// An `LF` continues a cluster only directly after a `CR`: with any other
/// character before it, or none, the machine answers it with `Split`.
pub proof fn lemma_lf_continues_only_cr(m: MachineView, lf: CharProperties)
    requires
        lf.gcb() == GCBProperty::LF,
    ensures
        m.action(lf) == ClusterAction::Continue <==> (m.prev matches Some(prev) && prev.gcb()
            == GCBProperty::CR),
{
}

/// Two characters that one of the rules for pairs keeps together or
/// separates get that answer in every state.
pub proof fn lemma_pair_rules_ignore_state(m: MachineView, prev: CharProperties, next: CharProperties)
    requires
        m.prev == Some(prev),
    ensures
        joined_as_pair(prev, next) ==> m.action(next) == ClusterAction::Continue,
        split_as_pair(prev, next) ==> m.action(next) == ClusterAction::Split,
{
}

/// A character that has no value for either property begins a cluster,
/// unless it follows a `Prepend`.
pub proof fn lemma_unclassified_character_splits(m: MachineView, next: CharProperties)
    requires
        next.gcb() == GCBProperty::Other,
        next.incb() == InCBProperty::Other,
    ensures
        m.action(next) == ClusterAction::Split <==> !(m.prev matches Some(prev) && prev.gcb()
            == GCBProperty::Prepend),
{
}

/// The state of a machine always fits its previous character: it does at
/// the start, after the end of input, and after every character, whatever
/// the machine was before that character.
pub proof fn lemma_machine_stays_consistent(m: MachineView, next: CharProperties)
    ensures
        MachineView::start().consistent(),
        m.end_of_input().consistent(),
        m.step(next).consistent(),
{
}

/// A machine at the start of a stream is consistent after any characters.
pub proof fn lemma_stream_is_consistent(chars: Seq<CharProperties>)
    ensures
        MachineView::start().feed(chars).consistent(),
    decreases chars.len(),
{
    if chars.len() > 0 {
        lemma_machine_stays_consistent(MachineView::start().feed(chars.drop_last()), chars.last());
    }
}

/// In a consistent machine the state stands for the previous character in
/// the three rules that ask for both: whether one of them keeps the next
/// character in the cluster depends on the state and the next character
/// alone.
pub proof fn lemma_state_stands_for_previous(m: MachineView, prev: CharProperties, next: CharProperties)
    requires
        m.consistent(),
        m.prev == Some(prev),
    ensures
        gb9c(m.state, prev, next) <==> m.state == State::GB9cLinker && next.incb()
            == InCBProperty::Consonant,
        gb11(m.state, prev, next) <==> m.state == State::GB11AfterZWJ && next.gcb()
            == GCBProperty::ExtendedPictographic,
        gb12_gb13(m.state, prev, next) <==> m.state == State::AwaitEmojiFlag && next.gcb()
            == GCBProperty::RegionalIndicator,
{
}

/// A character that is no `ExtendedPictographic`, `RegionalIndicator`,
/// `Extend` or `ZWJ` and has no Indic_Conjunct_Break value leaves no
/// pattern open: after it the automaton is in `Base`, whatever came before.
pub proof fn lemma_plain_character_returns_to_base(m: MachineView, next: CharProperties)
    requires
        next.gcb() != GCBProperty::ExtendedPictographic,
        next.gcb() != GCBProperty::RegionalIndicator,
        next.gcb() != GCBProperty::Extend,
        next.gcb() != GCBProperty::ZWJ,
        next.incb() == InCBProperty::Other,
    ensures
        m.step(next).state == State::Base,
{
}

/// Whether every character of the sequence is a `RegionalIndicator` that
/// is not at the same time an `InCB=Consonant`.
pub open spec fn all_regional_indicators(chars: Seq<CharProperties>) -> bool {
    forall|i: int|
        0 <= i < chars.len() ==> (#[trigger] chars[i]).gcb() == GCBProperty::RegionalIndicator
            && chars[i].incb() != InCBProperty::Consonant
}

/// Where the automaton stands after a run of `RegionalIndicator`s that
/// began in `Base`: in `Base` again after an even number of them, waiting
/// for the second half of a flag after an odd number.
proof fn lemma_state_after_regional_indicators(m: MachineView, flags: Seq<CharProperties>)
    requires
        m.state == State::Base,
        all_regional_indicators(flags),
    ensures
        m.feed(flags).state == if flags.len() % 2 == 0 {
            State::Base
        } else {
            State::AwaitEmojiFlag
        },
        flags.len() > 0 ==> m.feed(flags).prev == Some(flags.last()),
    decreases flags.len(),
{
    if flags.len() > 0 {
        lemma_state_after_regional_indicators(m, flags.drop_last());
    }
}

/// Regional indicators bind in pairs, left to right. In a run of them
/// that begins while the automaton is in `Base` (as it is at the start of
/// a stream), every second one continues the cluster of the one before it
/// and every other one begins a cluster: counting the first as number 0,
/// those with an odd number get `Continue` and the later ones with an even
/// number get `Split`.
pub proof fn lemma_regional_indicators_pair_up(m: MachineView, flags: Seq<CharProperties>, k: int)
    requires
        m.state == State::Base,
        all_regional_indicators(flags),
        1 <= k < flags.len(),
    ensures
        m.actions(flags)[k] == if k % 2 == 1 {
            ClusterAction::Continue
        } else {
            ClusterAction::Split
        },
{
    let before = flags.take(k);
    lemma_state_after_regional_indicators(m, before);
    assert(before.last() == flags[k - 1]);
}

/// Whether every character of the sequence is an `Extend` that is not at
/// the same time an `InCB=Consonant`.
pub open spec fn all_extend(chars: Seq<CharProperties>) -> bool {
    forall|i: int|
        0 <= i < chars.len() ==> (#[trigger] chars[i]).gcb() == GCBProperty::Extend
            && chars[i].incb() != InCBProperty::Consonant
}

/// An `ExtendedPictographic` and the `Extend`s after it keep the pattern
/// of an emoji sequence open.
proof fn lemma_state_after_pictographic_run(
    m: MachineView,
    first: CharProperties,
    extends: Seq<CharProperties>,
)
    requires
        first.gcb() == GCBProperty::ExtendedPictographic,
        all_extend(extends),
    ensures
        m.step(first).feed(extends).state == State::GB11BeforeZWJ,
        m.step(first).feed(extends).prev == Some(
            if extends.len() == 0 {
                first
            } else {
                extends.last()
            },
        ),
    decreases extends.len(),
{
    if extends.len() > 0 {
        lemma_state_after_pictographic_run(m, first, extends.drop_last());
    }
}

/// An emoji sequence is one cluster. After an `ExtendedPictographic`, any
/// number of `Extend`s, then a `ZWJ`, then another `ExtendedPictographic`
/// all continue the cluster of the first, whatever came before it.
pub proof fn lemma_emoji_zwj_sequence_continues(
    m: MachineView,
    first: CharProperties,
    extends: Seq<CharProperties>,
    zwj: CharProperties,
    last: CharProperties,
)
    requires
        first.gcb() == GCBProperty::ExtendedPictographic,
        all_extend(extends),
        zwj.gcb() == GCBProperty::ZWJ,
        zwj.incb() != InCBProperty::Consonant,
        last.gcb() == GCBProperty::ExtendedPictographic,
    ensures
        forall|k: int|
            0 <= k < extends.len() ==> #[trigger] m.step(first).actions(extends)[k]
                == ClusterAction::Continue,
        m.step(first).feed(extends).action(zwj) == ClusterAction::Continue,
        m.step(first).feed(extends).step(zwj).action(last) == ClusterAction::Continue,
{
    let opened = m.step(first);
    assert forall|k: int| 0 <= k < extends.len() implies #[trigger] opened.actions(extends)[k]
        == ClusterAction::Continue by {
        lemma_state_after_pictographic_run(m, first, extends.take(k));
    }
    lemma_state_after_pictographic_run(m, first, extends);
}

/// Whether every character of the sequence is an `InCB=Linker` or an
/// `InCB=Extend` that is not at the same time an `ExtendedPictographic`.
pub open spec fn all_linker_or_extend(chars: Seq<CharProperties>) -> bool {
    forall|i: int|
        0 <= i < chars.len() ==> ((#[trigger] chars[i]).incb() == InCBProperty::Linker
            || chars[i].incb() == InCBProperty::Extend) && chars[i].gcb()
            != GCBProperty::ExtendedPictographic
}

/// Whether one of the characters of the sequence is an `InCB=Linker`.
pub open spec fn has_linker(chars: Seq<CharProperties>) -> bool {
    exists|i: int| 0 <= i < chars.len() && (#[trigger] chars[i]).incb() == InCBProperty::Linker
}

/// After an `InCB=Consonant` and a run of linkers and extenders the
/// automaton knows whether a linker was among them.
proof fn lemma_state_after_conjunct_run(
    m: MachineView,
    consonant: CharProperties,
    run: Seq<CharProperties>,
)
    requires
        consonant.incb() == InCBProperty::Consonant,
        consonant.gcb() != GCBProperty::ExtendedPictographic,
        all_linker_or_extend(run),
    ensures
        m.step(consonant).feed(run).state == if has_linker(run) {
            State::GB9cLinker
        } else {
            State::GB9cConsonant
        },
        m.step(consonant).feed(run).prev == Some(
            if run.len() == 0 {
                consonant
            } else {
                run.last()
            },
        ),
    decreases run.len(),
{
    if run.len() > 0 {
        let shorter = run.drop_last();
        lemma_state_after_conjunct_run(m, consonant, shorter);
        if has_linker(shorter) {
            let i = choose|i: int|
                0 <= i < shorter.len() && (#[trigger] shorter[i]).incb() == InCBProperty::Linker;
            assert(run[i].incb() == InCBProperty::Linker);
        }
        if run.last().incb() == InCBProperty::Linker {
            assert(run[run.len() - 1].incb() == InCBProperty::Linker);
        }
        if has_linker(run) && !has_linker(shorter) {
            let i = choose|i: int|
                0 <= i < run.len() && (#[trigger] run[i]).incb() == InCBProperty::Linker;
            if i < shorter.len() {
                assert(shorter[i].incb() == InCBProperty::Linker);
            }
        }
    }
}

/// A conjunct is one cluster. After an `InCB=Consonant` and a run of
/// `InCB=Linker` and `InCB=Extend` with at least one linker in it, the
/// next `InCB=Consonant` continues the cluster, unless a control stands on
/// either side of the boundary.
pub proof fn lemma_consonant_after_linker_continues(
    m: MachineView,
    consonant: CharProperties,
    run: Seq<CharProperties>,
    next: CharProperties,
)
    requires
        consonant.incb() == InCBProperty::Consonant,
        consonant.gcb() != GCBProperty::ExtendedPictographic,
        all_linker_or_extend(run),
        has_linker(run),
        next.incb() == InCBProperty::Consonant,
    ensures
        m.step(consonant).feed(run).action(next) == ClusterAction::Continue <==> !split_as_pair(
            run.last(),
            next,
        ),
{
    lemma_state_after_conjunct_run(m, consonant, run);
}

/// Without a linker there is no conjunct. After an `InCB=Consonant` and a
/// run of `InCB=Extend` with no linker in it, the next `InCB=Consonant`
/// begins a cluster, unless one of the rules for pairs keeps it with the
/// character before it.
pub proof fn lemma_consonant_without_linker_splits(
    m: MachineView,
    consonant: CharProperties,
    run: Seq<CharProperties>,
    next: CharProperties,
)
    requires
        consonant.incb() == InCBProperty::Consonant,
        consonant.gcb() != GCBProperty::ExtendedPictographic,
        all_linker_or_extend(run),
        !has_linker(run),
        next.incb() == InCBProperty::Consonant,
    ensures
        m.step(consonant).feed(run).action(next) == ClusterAction::Split <==> !joined_as_pair(
            if run.len() == 0 {
                consonant
            } else {
                run.last()
            },
            next,
        ),
{
    lemma_state_after_conjunct_run(m, consonant, run);
}

/// The clusters that a sequence of actions cuts a text into, where the
/// action at each place is the answer to the item of the text there. A
/// `Split` begins a cluster with its item; a `Continue` adds its item to
/// the cluster begun last.
pub open spec fn clusters<T>(actions: Seq<ClusterAction>, text: Seq<T>) -> Seq<Seq<T>>
    recommends
        actions.len() == text.len(),
    decreases text.len(),
{
    if text.len() == 0 {
        Seq::empty()
    } else {
        let before = clusters(actions.drop_last(), text.drop_last());
        match actions.last() {
            ClusterAction::Split => before.push(seq![text.last()]),
            ClusterAction::Continue => before.drop_last().push(before.last().push(text.last())),
        }
    }
}

/// The number of `Split`s among the actions.
pub open spec fn count_splits(actions: Seq<ClusterAction>) -> nat
    decreases actions.len(),
{
    if actions.len() == 0 {
        0
    } else {
        count_splits(actions.drop_last()) + if actions.last() == ClusterAction::Split {
            1nat
        } else {
            0nat
        }
    }
}

/// What holds of the clusters cut by any actions of which the first is a
/// `Split`.
proof fn lemma_clusters_partition<T>(actions: Seq<ClusterAction>, text: Seq<T>)
    requires
        actions.len() == text.len(),
        text.len() > 0 ==> actions[0] == ClusterAction::Split,
    ensures
        clusters(actions, text).flatten() == text,
        clusters(actions, text).len() == count_splits(actions),
        text.len() > 0 ==> clusters(actions, text).len() > 0,
        forall|k: int|
            0 <= k < clusters(actions, text).len() ==> (#[trigger] clusters(actions, text)[k]).len()
                > 0,
    decreases text.len(),
{
    broadcast use Seq::lemma_flatten_push;

    if text.len() > 0 {
        let shorter = text.drop_last();
        let before = clusters(actions.drop_last(), shorter);
        lemma_clusters_partition(actions.drop_last(), shorter);
        assert(text == shorter.push(text.last()));
        match actions.last() {
            ClusterAction::Split => {
                assert(before.flatten() + seq![text.last()] == text);
            },
            ClusterAction::Continue => {
                assert(shorter.len() > 0);
                let open = before.last();
                assert(before == before.drop_last().push(open));
                assert(before.drop_last().flatten() + open == shorter);
                assert(before.drop_last().flatten() + open.push(text.last()) == text);
            },
        }
    } else {
        assert(clusters(actions, text).flatten() == text);
    }
}

/// Cutting a text into clusters loses and invents nothing. Where a machine
/// at the start of a stream answers each item of a text, the clusters that
/// its actions cut the text into, joined in order, are the text again;
/// there is one cluster for each `Split`, and no cluster is empty.
pub proof fn lemma_clusters_rebuild_text<T>(chars: Seq<CharProperties>, text: Seq<T>)
    requires
        chars.len() == text.len(),
    ensures
        clusters(MachineView::start().actions(chars), text).flatten() == text,
        clusters(MachineView::start().actions(chars), text).len() == count_splits(
            MachineView::start().actions(chars),
        ),
        forall|k: int|
            0 <= k < clusters(MachineView::start().actions(chars), text).len() ==> (
            #[trigger] clusters(MachineView::start().actions(chars), text)[k]).len() > 0,
{
    if chars.len() > 0 {
        lemma_first_action_is_split(chars);
    }
    lemma_clusters_partition(MachineView::start().actions(chars), text);
}

} // verus!
