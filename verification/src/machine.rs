//! The machine that a caller feeds a stream of characters to, one at a
//! time, and the mathematical model that its contracts are stated over.

use vstd::prelude::*;
use u8char::u8char;
use crate::encoded::scalar_value;
use crate::properties::{CharProperties, GCBProperty, InCBProperty};
use crate::state::State;
use crate::table::PropertyTable;

verus! {

/// What to do with a new character after presenting it to a
/// [`GraphemeMachine`].
#[derive(Debug, Clone, Copy, PartialEq, Eq, Structural)]
pub enum ClusterAction {
    /// Treat the new character as an extension of the current grapheme
    /// cluster.
    Continue,
    /// Treat the current grapheme cluster as complete and begin a new one
    /// that initially consists only of the new character.
    Split,
}

/// Everything a [`GraphemeMachine`] remembers of the characters it was
/// given: the state of the automaton, and the properties of the character
/// given last, if any was given since the start of the stream.
pub struct MachineView {
    pub state: State,
    pub prev: Option<CharProperties>,
}

impl MachineView {
    /// The machine at the start of a stream.
    pub open spec fn start() -> MachineView {
        MachineView { state: State::Base, prev: None }
    }

    /// The action that the machine answers a character of the given
    /// properties with.
    pub open spec fn action(self, next: CharProperties) -> ClusterAction {
        if self.state.spec_boundary(self.prev, next) {
            ClusterAction::Split
        } else {
            ClusterAction::Continue
        }
    }

    /// The machine after a character of the given properties.
    pub open spec fn step(self, next: CharProperties) -> MachineView {
        MachineView { state: self.state.spec_next_state(next), prev: Some(next) }
    }

    /// The machine after the end of the input: as at the start, whatever
    /// it had seen.
    pub open spec fn end_of_input(self) -> MachineView {
        MachineView::start()
    }

    /// Whether the state fits the previous character: whether the pattern
    /// that the state says is open can end in that character. With no
    /// previous character no pattern is open.
    pub open spec fn consistent(self) -> bool {
        match self.prev {
            None => self.state == State::Base,
            Some(prev) => match self.state {
                State::Base => true,
                State::AwaitEmojiFlag => prev.gcb() == GCBProperty::RegionalIndicator,
                State::GB11BeforeZWJ => prev.gcb() == GCBProperty::ExtendedPictographic
                    || prev.gcb() == GCBProperty::Extend,
                State::GB11AfterZWJ => prev.gcb() == GCBProperty::ZWJ,
                State::GB9cConsonant => prev.incb() == InCBProperty::Consonant || prev.incb()
                    == InCBProperty::Extend,
                State::GB9cLinker => prev.incb() == InCBProperty::Linker || prev.incb()
                    == InCBProperty::Extend,
            },
        }
    }

    /// The machine after the given characters, first to last.
    pub open spec fn feed(self, chars: Seq<CharProperties>) -> MachineView
        decreases chars.len(),
    {
        if chars.len() == 0 {
            self
        } else {
            self.feed(chars.drop_last()).step(chars.last())
        }
    }

    /// The actions that the machine answers the given characters with, one
    /// for each: the action for a character is that of the machine which
    /// has been given all the characters before it.
    pub open spec fn actions(self, chars: Seq<CharProperties>) -> Seq<ClusterAction> {
        Seq::new(chars.len(), |i: int| self.feed(chars.take(i)).action(chars[i]))
    }
}

/// A finite state machine for detecting grapheme cluster boundaries.
///
/// The machine is made for input that arrives piece by piece. It holds no
/// text: it keeps the properties of the character presented last and one
/// state of an automaton that sums up all the characters before it, and
/// says of each new character whether it begins a new grapheme cluster or
/// continues the one in progress. What to do with the characters of a
/// cluster is left to the caller.
#[derive(Debug)]
pub struct GraphemeMachine {
    state: State,
    prev: Option<CharProperties>,
}

impl View for GraphemeMachine {
    type V = MachineView;

    closed spec fn view(&self) -> MachineView {
        MachineView { state: self.state, prev: self.prev }
    }
}

impl GraphemeMachine {
    /// Constructs a new machine in the "start of input" state.
    pub fn new() -> (machine: Self)
        ensures
            machine@ == MachineView::start(),
    {
        GraphemeMachine { state: State::Base, prev: None }
    }

    /// Advances the machine by a character with the given properties and
    /// returns the action to take at the boundary between this character
    /// and the previous one, if any.
    ///
    /// On [`ClusterAction::Split`] the character begins a new grapheme
    /// cluster; on [`ClusterAction::Continue`] it extends the current one.
    /// At the start of input the action is always
    /// [`ClusterAction::Split`], because there is no cluster to extend.
    pub fn next_char_properties(&mut self, next: CharProperties) -> (action: ClusterAction)
        ensures
            action == old(self)@.action(next),
            final(self)@ == old(self)@.step(next),
    {
        let (boundary, next_state) = self.state.transition(self.prev, next);
        self.state = next_state;
        self.prev = Some(next);
        if boundary {
            ClusterAction::Split
        } else {
            ClusterAction::Continue
        }
    }

    /// Looks up the properties of the character in the table and advances
    /// the machine by them, as [`Self::next_char_properties`] does.
    pub fn next_u8char(&mut self, c: u8char, table: &PropertyTable) -> (action: ClusterAction)
        ensures
            action == old(self)@.action(table.spec_lookup(scalar_value(c))),
            final(self)@ == old(self)@.step(table.spec_lookup(scalar_value(c))),
    {
        let props = CharProperties::for_u8char(c, table);
        self.next_char_properties(props)
    }

    /// Looks up the properties of the character in the table and advances
    /// the machine by them, as [`Self::next_char_properties`] does.
    pub fn next_char(&mut self, c: char, table: &PropertyTable) -> (action: ClusterAction)
        ensures
            action == old(self)@.action(table.spec_lookup(c)),
            final(self)@ == old(self)@.step(table.spec_lookup(c)),
    {
        let props = CharProperties::for_char(c, table);
        self.next_char_properties(props)
    }

    /// Advances the machine by every character of the text in turn, as
    /// [`Self::next_char`] does, and returns the characters, each with the
    /// action that the machine answered it with.
    pub fn next_chars_from_str(&mut self, text: &str, table: &PropertyTable) -> (answers: Vec<
        (ClusterAction, char),
    >)
        ensures
            answers@.len() == text@.len(),
            forall|i: int|
                0 <= i < text@.len() ==> (#[trigger] answers@[i]) == (
                    old(self)@.actions(table.properties_of(text@))[i],
                    text@[i],
                ),
            final(self)@ == old(self)@.feed(table.properties_of(text@)),
    {
        let ghost start = self@;
        let ghost chars = table.properties_of(text@);
        let mut answers: Vec<(ClusterAction, char)> = Vec::new();
        for c in it: text.chars()
            invariant
                it.seq() == text@,
                chars == table.properties_of(text@),
                answers@.len() == it.index(),
                self@ == start.feed(chars.take(it.index() as int)),
                forall|i: int|
                    0 <= i < it.index() ==> (#[trigger] answers@[i]) == (
                        start.actions(chars)[i],
                        text@[i],
                    ),
        {
            proof {
                let n = it.index() as int;
                assert(chars.take(n + 1).drop_last() == chars.take(n));
                assert(chars.take(n + 1).last() == chars[n]);
            }
            let action = self.next_char(c, table);
            answers.push((action, c));
        }
        proof {
            assert(chars.take(chars.len() as int) == chars);
        }
        answers
    }

    /// Tells the machine that the input stream has ended.
    ///
    /// The machine goes back to the "start of input" state, so that no
    /// character presented afterwards is taken for a continuation of the
    /// current grapheme cluster. This serves wherever the caller knows of a
    /// boundary that the text itself does not show, such as a tag in a
    /// markup language.
    ///
    /// Like the methods that advance the machine this one returns an
    /// action: always [`ClusterAction::Split`], which closes the last
    /// cluster.
    pub fn end_of_input(&mut self) -> (action: ClusterAction)
        ensures
            action == ClusterAction::Split,
            final(self)@ == old(self)@.end_of_input(),
    {
        self.state = State::Base;
        self.prev = None;
        ClusterAction::Split
    }
}

} // verus!
