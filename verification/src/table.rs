//! A table from characters to their properties, made of ranges of
//! characters that share a pair of properties.

use vstd::prelude::*;
use u8char::u8char;
use crate::encoded::{scalar_value, to_scalar};
use crate::properties::{CharProperties, GCBProperty, InCBProperty};

verus! {

/// A run of consecutive characters, `first` to `last` inclusive, that all
/// have the properties `props`.
#[derive(Debug, Clone, Copy)]
struct PropertyRange {
    first: char,
    last: char,
    props: CharProperties,
}

impl PropertyRange {
    /// Whether the character lies in the range.
    spec fn covers(self, c: char) -> bool {
        self.first as u32 <= c as u32 && c as u32 <= self.last as u32
    }
}

/// The characters `first` to `last`, each with the properties `props`.
pub open spec fn run_of(first: char, last: char, props: CharProperties) -> Map<
    char,
    CharProperties,
> {
    Map::new(|c: char| first as u32 <= c as u32 && c as u32 <= last as u32, |c: char| props)
}

/// The properties of the characters that a table does not list: neither
/// property has a value.
pub open spec fn unlisted() -> CharProperties {
    CharProperties::pair(GCBProperty::Other, InCBProperty::Other)
}

/// A table that gives every character its properties.
///
/// The table lists ranges of characters in ascending order, none
/// overlapping another; a character in none of them has no value for
/// either property. A lookup is a binary search over the ranges.
#[derive(Debug)]
pub struct PropertyTable {
    ranges: Vec<PropertyRange>,
}

impl View for PropertyTable {
    type V = Map<char, CharProperties>;

    /// The characters that the table lists, each with its properties.
    closed spec fn view(&self) -> Map<char, CharProperties> {
        Map::new(
            |c: char| exists|i: int| 0 <= i < self.ranges@.len() && (#[trigger] self.ranges@[i]).covers(c),
            |c: char|
                self.ranges@[choose|i: int|
                    0 <= i < self.ranges@.len() && (#[trigger] self.ranges@[i]).covers(c)].props,
        )
    }
}

impl PropertyTable {
    /// Every range holds at least one character and ends before the next
    /// one begins.
    #[verifier::type_invariant]
    closed spec fn ascending(self) -> bool {
        &&& forall|i: int|
            0 <= i < self.ranges@.len() ==> (#[trigger] self.ranges@[i]).first as u32
                <= self.ranges@[i].last as u32
        &&& forall|i: int, j: int|
            0 <= i < j < self.ranges@.len() ==> ((#[trigger] self.ranges@[i]).last as u32) < (
            #[trigger] self.ranges@[j]).first as u32
    }

    /// The properties that the table gives the character: those it lists
    /// for it, or none.
    pub open spec fn spec_lookup(self, c: char) -> CharProperties {
        if self@.dom().contains(c) {
            self@[c]
        } else {
            unlisted()
        }
    }

    /// The properties that the table gives the characters of a text, one
    /// for each.
    pub open spec fn properties_of(self, text: Seq<char>) -> Seq<CharProperties> {
        Seq::new(text.len(), |i: int| self.spec_lookup(text[i]))
    }

    /// Whether a range that begins at `first` lies after every character
    /// listed so far.
    pub open spec fn all_before(self, first: char) -> bool {
        forall|c: char| self@.dom().contains(c) ==> (c as u32) < first as u32
    }

    /// Returns a table that lists no character.
    pub fn new() -> (table: Self)
        ensures
            table@ == Map::<char, CharProperties>::empty(),
    {
        let table = PropertyTable { ranges: Vec::new() };
        assert(table@ =~= Map::<char, CharProperties>::empty());
        table
    }

    /// Lists the characters `first` to `last` with the given properties,
    /// if the range holds a character and lies after all those listed
    /// before; returns whether it did. A range that is refused leaves the
    /// table as it was.
    pub fn push_range(&mut self, first: char, last: char, props: CharProperties) -> (accepted: bool)
        ensures
            accepted == (first as u32 <= last as u32 && old(self).all_before(first)),
            accepted ==> final(self)@ == old(self)@.union_prefer_right(run_of(first, last, props)),
            !accepted ==> final(self)@ == old(self)@,
    {
        proof {
            use_type_invariant(&*self);
        }
        let ghost before = self.ranges@;
        let n = self.ranges.len();
        if first as u32 > last as u32 {
            return false;
        }
        if n > 0 {
            let top = self.ranges[n - 1].last;
            if top as u32 >= first as u32 {
                proof {
                    assert(before[n - 1].covers(top));
                    assert(self@.dom().contains(top));
                }
                return false;
            }
        }
        let range = PropertyRange { first, last, props };
        let mut ranges: Vec<PropertyRange> = Vec::new();
        std::mem::swap(&mut self.ranges, &mut ranges);
        ranges.push(range);
        std::mem::swap(&mut self.ranges, &mut ranges);
        proof {
            let after = self.ranges@;
            assert(after == before.push(range));
            assert forall|i: int| 0 <= i < before.len() implies after[i] == before[i] by {}
            let added = run_of(first, last, props);
            let old_view = old(self)@;
            assert forall|c: char| old_view.dom().contains(c) implies (c as u32) < first as u32 by {
                let i = choose|i: int| 0 <= i < before.len() && (#[trigger] before[i]).covers(c);
                if i < n - 1 {
                    assert((before[i].last as u32) < before[n - 1].first as u32);
                }
            }
            assert forall|c: char| #[trigger]
                self@.dom().contains(c) == old_view.union_prefer_right(added).dom().contains(c) by {
                if old_view.dom().contains(c) {
                    let i = choose|i: int| 0 <= i < before.len() && (#[trigger] before[i]).covers(c);
                    assert(after[i].covers(c));
                }
                if added.dom().contains(c) {
                    assert(after[n as int].covers(c));
                }
                if self@.dom().contains(c) {
                    let i = choose|i: int| 0 <= i < after.len() && (#[trigger] after[i]).covers(c);
                    if i < n {
                        assert(before[i].covers(c));
                    }
                }
            }
            assert forall|c: char| self@.dom().contains(c) implies #[trigger] self@[c]
                == old_view.union_prefer_right(added)[c] by {
                let i = choose|i: int| 0 <= i < after.len() && (#[trigger] after[i]).covers(c);
                if added.dom().contains(c) {
                    if i < n {
                        assert(before[i].covers(c));
                        assert(old_view.dom().contains(c));
                    }
                } else {
                    assert(before[i].covers(c));
                    let j = choose|j: int| 0 <= j < before.len() && (#[trigger] before[j]).covers(c);
                    if i < j {
                        assert((before[i].last as u32) < before[j].first as u32);
                    }
                    if j < i {
                        assert((before[j].last as u32) < before[i].first as u32);
                    }
                }
            }
            assert(self@ =~= old_view.union_prefer_right(added));
        }
        true
    }

    /// Returns the properties of the character: those of the range that
    /// holds it, or no value for either property if no range does.
    pub fn lookup(&self, c: char) -> (props: CharProperties)
        ensures
            props == self.spec_lookup(c),
    {
        proof {
            use_type_invariant(self);
        }
        let code: u32 = c as u32;
        let mut low: usize = 0;
        let mut high: usize = self.ranges.len();
        while low < high
            invariant
                self.ascending(),
                code == c as u32,
                low <= high <= self.ranges@.len(),
                forall|i: int| 0 <= i < low ==> ((#[trigger] self.ranges@[i]).last as u32) < code,
                forall|i: int|
                    high <= i < self.ranges@.len() ==> code < (#[trigger] self.ranges@[i]).first as u32,
            decreases high - low,
        {
            let mid = low + (high - low) / 2;
            let range = self.ranges[mid];
            if (range.last as u32) < code {
                proof {
                    assert forall|i: int| 0 <= i < mid + 1 implies ((#[trigger] self.ranges@[i]).last
                        as u32) < code by {
                        if i < mid {
                            assert((self.ranges@[i].last as u32) < self.ranges@[mid as int].first as u32);
                        }
                    }
                }
                low = mid + 1;
            } else if code < range.first as u32 {
                proof {
                    assert forall|i: int| mid <= i < self.ranges@.len() implies code < (
                    #[trigger] self.ranges@[i]).first as u32 by {
                        if mid < i {
                            assert((self.ranges@[mid as int].last as u32) < self.ranges@[i].first as u32);
                        }
                    }
                }
                high = mid;
            } else {
                proof {
                    assert(self.ranges@[mid as int].covers(c));
                    let i = choose|i: int|
                        0 <= i < self.ranges@.len() && (#[trigger] self.ranges@[i]).covers(c);
                    if i < mid {
                        assert((self.ranges@[i].last as u32) < self.ranges@[mid as int].first as u32);
                    }
                    if mid < i {
                        assert((self.ranges@[mid as int].last as u32) < self.ranges@[i].first as u32);
                    }
                }
                return range.props;
            }
        }
        proof {
            assert(!self@.dom().contains(c)) by {
                if self@.dom().contains(c) {
                    let i = choose|i: int|
                        0 <= i < self.ranges@.len() && (#[trigger] self.ranges@[i]).covers(c);
                    assert(i < low || i >= high);
                }
            }
        }
        CharProperties::new(GCBProperty::Other, InCBProperty::Other)
    }
}

impl CharProperties {
    /// Returns the properties that the table gives the character.
    pub fn for_char(c: char, table: &PropertyTable) -> (props: Self)
        ensures
            props == table.spec_lookup(c),
    {
        table.lookup(c)
    }

    /// Returns the properties that the table gives the character held in
    /// its UTF-8 form: those of the scalar value that it encodes.
    pub fn for_u8char(c: u8char, table: &PropertyTable) -> (props: Self)
        ensures
            props == table.spec_lookup(scalar_value(c)),
    {
        table.lookup(to_scalar(c))
    }
}

} // verus!
