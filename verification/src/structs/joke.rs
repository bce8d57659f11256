//! A decoded joke: its text in one or two parts, and what the service says
//! of it.

use vstd::prelude::*;

verus! {

/// The content classes that the service marked the joke with. They describe
/// the joke that came back, whatever the request asked to leave out.
#[derive(Clone, Copy, Debug, PartialEq, Eq, Structural)]
pub struct Flags {
    pub nsfw: bool,
    pub religious: bool,
    pub political: bool,
    pub racist: bool,
    pub sexist: bool,
    pub explicit: bool,
}

/// The text of a joke, in one part or in two.
#[derive(Clone, Debug, PartialEq, Eq)]
pub enum DataKind {
    TwoPart { setup: String, delivery: String },
    Single { joke: String },
}

/// The mathematical content of a [`DataKind`].
pub enum DataKindView {
    TwoPart { setup: Seq<char>, delivery: Seq<char> },
    Single { joke: Seq<char> },
}

impl DataKindView {
    /// The joke as one text: a one-part joke as it is, a two-part joke as
    /// its setup, one line feed, and its delivery.
    pub open spec fn text(self) -> Seq<char> {
        match self {
            DataKindView::Single { joke } => joke,
            DataKindView::TwoPart { setup, delivery } => setup + seq!['\n'] + delivery,
        }
    }
}

impl View for DataKind {
    type V = DataKindView;

    open spec fn view(&self) -> DataKindView {
        match self {
            DataKind::TwoPart { setup, delivery } => DataKindView::TwoPart {
                setup: setup@,
                delivery: delivery@,
            },
            DataKind::Single { joke } => DataKindView::Single { joke: joke@ },
        }
    }
}

/// A joke as the service returned it.
#[derive(Clone, Debug, PartialEq, Eq)]
pub struct Data {
    pub error: bool,
    pub category: String,
    pub kind: DataKind,
    pub flags: Flags,
    pub id: i64,
    pub safe: bool,
    pub lang: String,
}

/// The mathematical content of a [`Data`].
pub struct DataView {
    pub error: bool,
    pub category: Seq<char>,
    pub kind: DataKindView,
    pub flags: Flags,
    pub id: i64,
    pub safe: bool,
    pub lang: Seq<char>,
}

impl View for Data {
    type V = DataView;

    open spec fn view(&self) -> DataView {
        DataView {
            error: self.error,
            category: self.category@,
            kind: self.kind@,
            flags: self.flags,
            id: self.id,
            safe: self.safe,
            lang: self.lang@,
        }
    }
}

impl Data {
    /// The joke as one text. The record is left as it was.
    pub fn joke(&mut self) -> (r: String)
        ensures
            r@ == old(self)@.kind.text(),
            *final(self) == *old(self),
    {
        match &self.kind {
            DataKind::Single { joke } => joke.clone(),
            DataKind::TwoPart { setup, delivery } => {
                let mut out = setup.clone();
                proof {
                    reveal_strlit("\n");
                    assert("\n"@ =~= seq!['\n']);
                }
                out.append("\n");
                out.append(delivery.as_str());
                out
            },
        }
    }
}

} // verus!
