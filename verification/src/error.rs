//! The failures that configuring a request or reading a reply can end in.

use crate::text::{join, joined, texts};
use crate::vocabulary::Vocabulary;
use vstd::prelude::*;

verus! {

/// A member of the reply object.
#[derive(Clone, Copy, Debug, PartialEq, Eq, Structural)]
pub enum Field {
    Error,
    Category,
    Type,
    Joke,
    Setup,
    Delivery,
    Flags,
    Id,
    Safe,
    Lang,
}

impl Field {
    /// The member's name on the wire.
    pub open spec fn name(self) -> Seq<char> {
        match self {
            Field::Error => "error"@,
            Field::Category => "category"@,
            Field::Type => "type"@,
            Field::Joke => "joke"@,
            Field::Setup => "setup"@,
            Field::Delivery => "delivery"@,
            Field::Flags => "flags"@,
            Field::Id => "id"@,
            Field::Safe => "safe"@,
            Field::Lang => "lang"@,
        }
    }

    /// The member's name on the wire.
    pub fn as_name(&self) -> (r: &'static str)
        ensures
            r@ == self.name(),
    {
        match self {
            Field::Error => "error",
            Field::Category => "category",
            Field::Type => "type",
            Field::Joke => "joke",
            Field::Setup => "setup",
            Field::Delivery => "delivery",
            Field::Flags => "flags",
            Field::Id => "id",
            Field::Safe => "safe",
            Field::Lang => "lang",
        }
    }
}

/// Why a reply could not be read as a joke.
#[derive(Clone, Debug, PartialEq, Eq)]
pub enum DecodeFault {
    /// The body is not a JSON object whose members have the expected types.
    Malformed { detail: String },
    /// A member that the reply must have is absent.
    Missing { field: Field },
    /// The member `type` holds a word other than `single` and `twopart`.
    UnknownType { found: String },
}

/// The mathematical content of a [`DecodeFault`].
pub enum DecodeFaultView {
    Malformed { detail: Seq<char> },
    Missing { field: Field },
    UnknownType { found: Seq<char> },
}

impl View for DecodeFault {
    type V = DecodeFaultView;

    open spec fn view(&self) -> DecodeFaultView {
        match self {
            DecodeFault::Malformed { detail } => DecodeFaultView::Malformed { detail: detail@ },
            DecodeFault::Missing { field } => DecodeFaultView::Missing { field: *field },
            DecodeFault::UnknownType { found } => DecodeFaultView::UnknownType { found: found@ },
        }
    }
}

impl DecodeFaultView {
    /// What the fault says of itself, after the common headline.
    pub open spec fn note(self) -> Seq<char> {
        match self {
            DecodeFaultView::Malformed { detail } => detail,
            DecodeFaultView::Missing { field } => "missing field "@ + field.name(),
            DecodeFaultView::UnknownType { found } => "unknown type "@ + found,
        }
    }
}

/// A failure of the library.
#[derive(Clone, Debug, PartialEq, Eq)]
pub enum JokeError {
    /// A filter was given no word of its vocabulary. `given` holds the
    /// lowercased input, `vocabulary` names the list it was held against.
    InvalidArgument { vocabulary: Vocabulary, given: Vec<String> },
    /// The request could not be completed.
    Transport { cause: String },
    /// A reply arrived and is not a joke of the expected shape.
    Decode { fault: DecodeFault },
}

/// The mathematical content of a [`JokeError`].
pub enum JokeErrorView {
    InvalidArgument { vocabulary: Vocabulary, given: Seq<Seq<char>> },
    Transport { cause: Seq<char> },
    Decode { fault: DecodeFaultView },
}

impl View for JokeError {
    type V = JokeErrorView;

    open spec fn view(&self) -> JokeErrorView {
        match self {
            JokeError::InvalidArgument { vocabulary, given } => JokeErrorView::InvalidArgument {
                vocabulary: *vocabulary,
                given: texts(given@),
            },
            JokeError::Transport { cause } => JokeErrorView::Transport { cause: cause@ },
            JokeError::Decode { fault } => JokeErrorView::Decode { fault: fault@ },
        }
    }
}

impl Vocabulary {
    /// The sentence that opens the message of a rejected filter.
    pub open spec fn complaint(self) -> Seq<char> {
        match self {
            Vocabulary::JokeTypes => "Invalid joke type"@,
            Vocabulary::Categories => "Invalid categories"@,
            Vocabulary::BlacklistFlags => "Invalid flags"@,
        }
    }
}

impl JokeErrorView {
    /// The message of the failure: a headline, a colon and what is known of
    /// the cause. For a rejected filter that is the lowercased input, joined
    /// by commas, then the allowed words in brackets.
    pub open spec fn message(self) -> Seq<char> {
        match self {
            JokeErrorView::InvalidArgument { vocabulary, given } => vocabulary.complaint() + ": "@
                + joined(given, ","@) + " (allowed: "@ + joined(vocabulary.words(), ","@) + ")"@,
            JokeErrorView::Transport { cause } => "Couldn't get the URL: "@ + cause,
            JokeErrorView::Decode { fault } => "Couldn't parse the data: "@ + fault.note(),
        }
    }
}

impl JokeError {
    /// The message of the failure, for display.
    pub fn message(&self) -> (r: String)
        ensures
            r@ == self@.message(),
    {
        match self {
            JokeError::InvalidArgument { vocabulary, given } => {
                let headline = match vocabulary {
                    Vocabulary::JokeTypes => "Invalid joke type",
                    Vocabulary::Categories => "Invalid categories",
                    Vocabulary::BlacklistFlags => "Invalid flags",
                };
                let mut out = String::from_str(headline);
                out.append(": ");
                out.append(join(given, ",").as_str());
                out.append(" (allowed: ");
                out.append(join(&vocabulary.allowed(), ",").as_str());
                out.append(")");
                out
            },
            JokeError::Transport { cause } => {
                let mut out = String::from_str("Couldn't get the URL: ");
                out.append(cause.as_str());
                out
            },
            JokeError::Decode { fault } => {
                let mut out = String::from_str("Couldn't parse the data: ");
                match fault {
                    DecodeFault::Malformed { detail } => {
                        out.append(detail.as_str());
                    },
                    DecodeFault::Missing { field } => {
                        out.append("missing field ");
                        out.append(field.as_name());
                    },
                    DecodeFault::UnknownType { found } => {
                        out.append("unknown type ");
                        out.append(found.as_str());
                    },
                }
                proof {
                    assert(out@ =~= self@.message());
                }
                out
            },
        }
    }
}

} // verus!
