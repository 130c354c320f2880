//! Grapheme cluster boundaries for text that arrives one character at a
//! time, after the grapheme cluster rules of
//! [UAX #29: Unicode Text Segmentation](https://www.unicode.org/reports/tr29/)
//! as of Unicode 16.0.0 (GB3 to GB13, GB999).
//!
//! [`GraphemeMachine`] is the main type. Feed it the characters of a
//! stream in order, and for each it says whether the character extends the
//! grapheme cluster in progress or begins a new one. The machine buffers
//! nothing: it keeps the properties of the last character and a
//! [`State`] that sums up the characters before it.
//!
//! The rules speak of classes of characters, not of single characters.
//! Those classes are public as [`GCBProperty`], [`InCBProperty`] and the
//! pair of them, [`CharProperties`]. A [`PropertyTable`] maps characters to
//! their properties; the machine takes either the properties themselves or
//! a character and the table to look it up in. A character can be given as
//! a [`char`] or, in its UTF-8 form, as a [`u8char::u8char`].
//!
//! The functions of the crate are verified with Verus against their
//! contracts. The one exception is the call into the `u8char` crate in
//! [`encoded`], whose contract is stated there and taken on trust. The
//! contracts of the machine are stated over a model of it, [`MachineView`];
//! the module [`laws`] proves from that model what holds of every stream.

pub mod encoded;
pub mod laws;
pub mod machine;
pub mod properties;
pub mod state;
pub mod table;

pub use machine::{ClusterAction, GraphemeMachine, MachineView};
pub use properties::{CharProperties, GCBProperty, InCBProperty};
pub use state::State;
pub use table::PropertyTable;
