//! The automaton behind the boundary decisions: six states that sum up the
//! characters seen so far, and the boundary rules evaluated against them.

use vstd::prelude::*;
use crate::properties::{CharProperties, GCBProperty, InCBProperty};

verus! {

/// What is still open of the patterns that can span any number of
/// characters.
///
/// A state stands for everything the rules need to know about the
/// characters before the previous one, so that clusters of any length are
/// found with a fixed amount of memory.
#[derive(Debug, Clone, Copy, PartialEq, Eq, Structural)]
pub enum State {
    /// No pattern is open. This is the state at the start of the text.
    Base,
    /// The previous character was a `RegionalIndicator` that opened a
    /// flag: one more `RegionalIndicator` completes the pair.
    AwaitEmojiFlag,
    /// The characters up to the previous one match
    /// `ExtendedPictographic Extend*`.
    GB11BeforeZWJ,
    /// The previous character is a `ZWJ` that arrived in
    /// [`State::GB11BeforeZWJ`].
    GB11AfterZWJ,
    /// The characters up to the previous one are an `InCB=Consonant` and
    /// then any number of `InCB=Extend`, with no `InCB=Linker` yet.
    GB9cConsonant,
    /// As [`State::GB9cConsonant`], but with at least one `InCB=Linker`
    /// among the characters after the consonant.
    GB9cLinker,
}

/// GB3: no break between a `CR` and an `LF`.
pub open spec fn gb3(prev: CharProperties, next: CharProperties) -> bool {
    prev.gcb() == GCBProperty::CR && next.gcb() == GCBProperty::LF
}

/// GB4 and GB5: break after and before controls.
pub open spec fn gb4_gb5(prev: CharProperties, next: CharProperties) -> bool {
    prev.any_control() || next.any_control()
}

/// GB6: no break between a Hangul `L` and a following `L`, `V`, `LV` or
/// `LVT`.
pub open spec fn gb6(prev: CharProperties, next: CharProperties) -> bool {
    prev.gcb() == GCBProperty::L && (next.gcb() == GCBProperty::L || next.gcb() == GCBProperty::V
        || next.gcb() == GCBProperty::LV || next.gcb() == GCBProperty::LVT)
}

/// GB7: no break between a Hangul `LV` or `V` and a following `V` or `T`.
pub open spec fn gb7(prev: CharProperties, next: CharProperties) -> bool {
    (prev.gcb() == GCBProperty::LV || prev.gcb() == GCBProperty::V) && (next.gcb()
        == GCBProperty::V || next.gcb() == GCBProperty::T)
}

/// GB8: no break between a Hangul `LVT` or `T` and a following `T`.
pub open spec fn gb8(prev: CharProperties, next: CharProperties) -> bool {
    (prev.gcb() == GCBProperty::LVT || prev.gcb() == GCBProperty::T) && next.gcb()
        == GCBProperty::T
}

/// GB9: no break before an `Extend` or a `ZWJ`.
pub open spec fn gb9(next: CharProperties) -> bool {
    next.gcb() == GCBProperty::Extend || next.gcb() == GCBProperty::ZWJ
}

/// GB9a: no break before a `SpacingMark`.
pub open spec fn gb9a(next: CharProperties) -> bool {
    next.gcb() == GCBProperty::SpacingMark
}

/// GB9b: no break after a `Prepend`.
pub open spec fn gb9b(prev: CharProperties) -> bool {
    prev.gcb() == GCBProperty::Prepend
}

/// GB9c: no break before an `InCB=Consonant` that follows an
/// `InCB=Linker` or `InCB=Extend`, once the state says that a consonant
/// and a linker came before.
pub open spec fn gb9c(state: State, prev: CharProperties, next: CharProperties) -> bool {
    state == State::GB9cLinker && (prev.incb() == InCBProperty::Linker || prev.incb()
        == InCBProperty::Extend) && next.incb() == InCBProperty::Consonant
}

/// GB11: no break between a `ZWJ` and an `ExtendedPictographic`, once the
/// state says that the `ZWJ` closed an `ExtendedPictographic Extend*` run.
pub open spec fn gb11(state: State, prev: CharProperties, next: CharProperties) -> bool {
    state == State::GB11AfterZWJ && prev.gcb() == GCBProperty::ZWJ && next.gcb()
        == GCBProperty::ExtendedPictographic
}

/// GB12 and GB13: no break between two `RegionalIndicator`s, once the
/// state says that the first of them opened a flag.
pub open spec fn gb12_gb13(state: State, prev: CharProperties, next: CharProperties) -> bool {
    state == State::AwaitEmojiFlag && prev.gcb() == GCBProperty::RegionalIndicator && next.gcb()
        == GCBProperty::RegionalIndicator
}

/// The two characters are kept together by one of the rules that look at
/// nothing but the pair: GB3, or, where no control is involved, one of GB6
/// to GB9b.
pub open spec fn joined_as_pair(prev: CharProperties, next: CharProperties) -> bool {
    gb3(prev, next) || (!gb4_gb5(prev, next) && (gb6(prev, next) || gb7(prev, next) || gb8(
        prev,
        next,
    ) || gb9(next) || gb9a(next) || gb9b(prev)))
}

/// The two characters are separated whatever the state: a control is
/// involved and they are not a `CR` and its `LF`.
pub open spec fn split_as_pair(prev: CharProperties, next: CharProperties) -> bool {
    !gb3(prev, next) && gb4_gb5(prev, next)
}

impl State {
    /// Whether there is a boundary between the previous character and the
    /// next one in this state. With no previous character there is one;
    /// otherwise the first of the rules that applies decides, and where
    /// none does, there is one.
    pub open spec fn spec_boundary(self, prev: Option<CharProperties>, next: CharProperties) -> bool {
        match prev {
            None => true,
            Some(prev) => {
                if gb3(prev, next) {
                    false
                } else if gb4_gb5(prev, next) {
                    true
                } else {
                    !(gb6(prev, next) || gb7(prev, next) || gb8(prev, next) || gb9(next) || gb9a(
                        next,
                    ) || gb9b(prev) || gb9c(self, prev, next) || gb11(self, prev, next)
                        || gb12_gb13(self, prev, next))
                }
            },
        }
    }

    /// The state after the next character. An `ExtendedPictographic` and
    /// an `InCB=Consonant` each open their pattern from any state; every
    /// other character moves on or abandons the pattern that is open.
    pub open spec fn spec_next_state(self, next: CharProperties) -> State {
        if next.gcb() == GCBProperty::ExtendedPictographic {
            State::GB11BeforeZWJ
        } else if next.incb() == InCBProperty::Consonant {
            State::GB9cConsonant
        } else {
            match self {
                State::Base => if next.gcb() == GCBProperty::RegionalIndicator {
                    State::AwaitEmojiFlag
                } else {
                    State::Base
                },
                State::AwaitEmojiFlag => State::Base,
                State::GB11BeforeZWJ => if next.gcb() == GCBProperty::ZWJ {
                    State::GB11AfterZWJ
                } else if next.gcb() == GCBProperty::Extend {
                    State::GB11BeforeZWJ
                } else {
                    State::Base
                },
                State::GB11AfterZWJ => State::Base,
                State::GB9cConsonant => if next.incb() == InCBProperty::Linker {
                    State::GB9cLinker
                } else if next.incb() == InCBProperty::Extend {
                    State::GB9cConsonant
                } else {
                    State::Base
                },
                State::GB9cLinker => if next.incb() == InCBProperty::Linker || next.incb()
                    == InCBProperty::Extend {
                    State::GB9cLinker
                } else {
                    State::Base
                },
            }
        }
    }

    /// Given the properties of the previous character, if there is one,
    /// and of the next, returns whether a grapheme cluster boundary lies
    /// between the two in this state, and the state to use for the
    /// character after.
    ///
    /// The state returned is meant for a call whose `prev` is the `next`
    /// of this one.
    pub fn transition(self, prev: Option<CharProperties>, next: CharProperties) -> (result: (
        bool,
        State,
    ))
        ensures
            result.0 == self.spec_boundary(prev, next),
            result.1 == self.spec_next_state(next),
    {
        let next_state = self.next_state(next);
        let prev = match prev {
            Some(prev) => prev,
            // At the start of the text there is no cluster to extend.
            None => {
                return (true, next_state);
            },
        };
        let prev_gcb = prev.gcb_property();
        let next_gcb = next.gcb_property();

        // GB3: Do not break between a CR and LF...
        if matches!(prev_gcb, GCBProperty::CR) && matches!(next_gcb, GCBProperty::LF) {
            return (false, next_state);
        }
        // GB4 and GB5: ...otherwise, break before and after controls.
        if prev.is_any_control() || next.is_any_control() {
            return (true, next_state);
        }
        // GB6: Do not break Hangul syllable or other conjoining sequences.
        if matches!(prev_gcb, GCBProperty::L) && matches!(
            next_gcb,
            GCBProperty::L | GCBProperty::V | GCBProperty::LV | GCBProperty::LVT
        ) {
            return (false, next_state);
        }
        // GB7: Do not break Hangul syllable or other conjoining sequences.
        if matches!(prev_gcb, GCBProperty::LV | GCBProperty::V) && matches!(
            next_gcb,
            GCBProperty::V | GCBProperty::T
        ) {
            return (false, next_state);
        }
        // GB8: Do not break Hangul syllable or other conjoining sequences.
        if matches!(prev_gcb, GCBProperty::LVT | GCBProperty::T) && matches!(
            next_gcb,
            GCBProperty::T
        ) {
            return (false, next_state);
        }
        // GB9: Do not break before extending characters or ZWJ.
        if matches!(next_gcb, GCBProperty::Extend | GCBProperty::ZWJ) {
            return (false, next_state);
        }
        // GB9a: Do not break before SpacingMarks...
        if matches!(next_gcb, GCBProperty::SpacingMark) {
            return (false, next_state);
        }
        // GB9b: ...or after Prepend characters.
        if matches!(prev_gcb, GCBProperty::Prepend) {
            return (false, next_state);
        }
        // GB9c: Do not break within certain combinations with
        // Indic_Conjunct_Break (InCB)=Linker.
        if self.gb9c_active() {
            if matches!(prev.incb_property(), InCBProperty::Linker | InCBProperty::Extend)
                && matches!(next.incb_property(), InCBProperty::Consonant) {
                return (false, next_state);
            }
        }
        // GB11: Do not break within emoji modifier sequences or emoji zwj
        // sequences.
        if self.gb11_active() {
            if matches!(prev_gcb, GCBProperty::ZWJ) && matches!(
                next_gcb,
                GCBProperty::ExtendedPictographic
            ) {
                return (false, next_state);
            }
        }
        // GB12 and GB13: Do not break within emoji flag sequences.
        if self.gb13_active() {
            if matches!(prev_gcb, GCBProperty::RegionalIndicator) && matches!(
                next_gcb,
                GCBProperty::RegionalIndicator
            ) {
                return (false, next_state);
            }
        }
        // GB999: Otherwise, break everywhere.
        (true, next_state)
    }

    /// Returns the state that the automaton moves to from this one when it
    /// meets a character with the given properties.
    pub fn next_state(self, next: CharProperties) -> (state: State)
        ensures
            state == self.spec_next_state(next),
    {
        let gcb = next.gcb_property();
        let incb = next.incb_property();
        // Two of the patterns begin whatever came before, so the arms for
        // the single states need not cover them.
        if matches!(gcb, GCBProperty::ExtendedPictographic) {
            return State::GB11BeforeZWJ;
        }
        if matches!(incb, InCBProperty::Consonant) {
            return State::GB9cConsonant;
        }
        match self {
            State::Base => match gcb {
                GCBProperty::RegionalIndicator => State::AwaitEmojiFlag,
                _ => State::Base,
            },
            State::AwaitEmojiFlag => State::Base,
            State::GB11BeforeZWJ => match gcb {
                GCBProperty::ZWJ => State::GB11AfterZWJ,
                GCBProperty::Extend => State::GB11BeforeZWJ,
                _ => State::Base,
            },
            State::GB11AfterZWJ => State::Base,
            State::GB9cConsonant => match incb {
                InCBProperty::Linker => State::GB9cLinker,
                InCBProperty::Extend => State::GB9cConsonant,
                _ => State::Base,
            },
            State::GB9cLinker => match incb {
                InCBProperty::Linker | InCBProperty::Extend => State::GB9cLinker,
                _ => State::Base,
            },
        }
    }

    /// Returns `true` in the one state in which GB9c can apply.
    pub fn gb9c_active(self) -> (active: bool)
        ensures
            active == (self == State::GB9cLinker),
    {
        matches!(self, State::GB9cLinker)
    }

    /// Returns `true` in the one state in which GB11 can apply.
    pub fn gb11_active(self) -> (active: bool)
        ensures
            active == (self == State::GB11AfterZWJ),
    {
        matches!(self, State::GB11AfterZWJ)
    }

    /// Returns `true` in the one state in which GB12 and GB13 can apply.
    pub fn gb13_active(self) -> (active: bool)
        ensures
            active == (self == State::AwaitEmojiFlag),
    {
        matches!(self, State::AwaitEmojiFlag)
    }
}

} // verus!
