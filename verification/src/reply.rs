//! Reading a reply: from the members of the wire object to a joke, or to the
//! failure that says why not.

use crate::error::{DecodeFault, DecodeFaultView, Field, JokeError, JokeErrorView};
use crate::structs::joke::{Data, DataKind, DataKindView, DataView, Flags};
use crate::vocabulary::JokeType;
use vstd::prelude::*;

verus! {

/// The members of a reply object, each present or absent. Members that the
/// library does not know are not kept.
#[derive(Clone, Debug, PartialEq, Eq)]
pub struct Payload {
    pub error: Option<bool>,
    pub category: Option<String>,
    /// The member `type`, which tells the two shapes of a joke apart.
    pub joke_type: Option<String>,
    pub joke: Option<String>,
    pub setup: Option<String>,
    pub delivery: Option<String>,
    pub flags: Option<Flags>,
    pub id: Option<i64>,
    pub safe: Option<bool>,
    pub lang: Option<String>,
}

impl Payload {
    /// The shape that the member `type` declares, where it is present and
    /// reads `single` or `twopart` exactly.
    pub open spec fn shape(&self) -> Option<JokeType> {
        match self.joke_type {
            Some(word) => JokeType::named(word@),
            None => None,
        }
    }

    /// What keeps the payload from being a joke: the first fault met when
    /// the members are gone through in wire order, the text members of the
    /// declared shape right after `type`. `None` where nothing is wrong.
    pub open spec fn fault(&self) -> Option<DecodeFaultView> {
        if self.error is None {
            Some(DecodeFaultView::Missing { field: Field::Error })
        } else if self.category is None {
            Some(DecodeFaultView::Missing { field: Field::Category })
        } else if self.joke_type is None {
            Some(DecodeFaultView::Missing { field: Field::Type })
        } else if self.shape() is None {
            Some(DecodeFaultView::UnknownType { found: self.joke_type->0@ })
        } else if self.shape() == Some(JokeType::Single) && self.joke is None {
            Some(DecodeFaultView::Missing { field: Field::Joke })
        } else if self.shape() == Some(JokeType::TwoPart) && self.setup is None {
            Some(DecodeFaultView::Missing { field: Field::Setup })
        } else if self.shape() == Some(JokeType::TwoPart) && self.delivery is None {
            Some(DecodeFaultView::Missing { field: Field::Delivery })
        } else if self.flags is None {
            Some(DecodeFaultView::Missing { field: Field::Flags })
        } else if self.id is None {
            Some(DecodeFaultView::Missing { field: Field::Id })
        } else if self.safe is None {
            Some(DecodeFaultView::Missing { field: Field::Safe })
        } else if self.lang is None {
            Some(DecodeFaultView::Missing { field: Field::Lang })
        } else {
            None
        }
    }

    /// The text of the joke in the declared shape. Members of the other
    /// shape are not looked at.
    pub open spec fn kind(&self) -> DataKindView {
        if self.shape() == Some(JokeType::Single) {
            DataKindView::Single { joke: self.joke->0@ }
        } else {
            DataKindView::TwoPart { setup: self.setup->0@, delivery: self.delivery->0@ }
        }
    }

    /// The joke that a payload without fault holds.
    pub open spec fn joke_data(&self) -> DataView {
        DataView {
            error: self.error->0,
            category: self.category->0@,
            kind: self.kind(),
            flags: self.flags->0,
            id: self.id->0,
            safe: self.safe->0,
            lang: self.lang->0@,
        }
    }

    /// What reading the payload gives: the joke, or the fault as a decode
    /// error.
    pub open spec fn reading(&self) -> Result<DataView, JokeErrorView> {
        match self.fault() {
            None => Ok(self.joke_data()),
            Some(fault) => Err(JokeErrorView::Decode { fault }),
        }
    }
}

/// What came back from one request.
#[derive(Clone, Debug, PartialEq, Eq)]
pub enum Reply {
    /// The request could not be completed.
    Unreachable { cause: String },
    /// A body arrived that is not a JSON object with members of the
    /// expected types.
    Malformed { detail: String },
    /// A body arrived and was taken apart into its members.
    Received { payload: Payload },
}

impl Reply {
    /// The reply that stands for a request that failed with `message`: an
    /// unreadable body where it failed while the body was decoded, a
    /// request that did not get through otherwise.
    pub fn failed(while_decoding: bool, message: String) -> (r: Reply)
        ensures
            r == if while_decoding {
                Reply::Malformed { detail: message }
            } else {
                Reply::Unreachable { cause: message }
            },
    {
        if while_decoding {
            Reply::Malformed { detail: message }
        } else {
            Reply::Unreachable { cause: message }
        }
    }

    /// What the caller of a fetch is handed for this reply.
    pub open spec fn outcome(&self) -> Result<DataView, JokeErrorView> {
        match self {
            Reply::Unreachable { cause } => Err(JokeErrorView::Transport { cause: cause@ }),
            Reply::Malformed { detail } => Err(
                JokeErrorView::Decode { fault: DecodeFaultView::Malformed { detail: detail@ } },
            ),
            Reply::Received { payload } => payload.reading(),
        }
    }
}

/// The mathematical content of a result of reading.
pub open spec fn seen(r: Result<Data, JokeError>) -> Result<DataView, JokeErrorView> {
    match r {
        Ok(data) => Ok(data@),
        Err(e) => Err(e@),
    }
}

fn missing(field: Field) -> (e: JokeError)
    ensures
        e@ == (JokeErrorView::Decode { fault: DecodeFaultView::Missing { field } }),
{
    JokeError::Decode { fault: DecodeFault::Missing { field } }
}

/// Reads a payload as a joke. Every member but the text members of the
/// other shape must be present, and `type` must read `single` or `twopart`;
/// nothing is filled in for what is absent.
pub fn decode(payload: Payload) -> (r: Result<Data, JokeError>)
    ensures
        seen(r) == payload.reading(),
{
    let Payload { error, category, joke_type, joke, setup, delivery, flags, id, safe, lang } =
        payload;
    let error = match error {
        Some(v) => v,
        None => return Err(missing(Field::Error)),
    };
    let category = match category {
        Some(v) => v,
        None => return Err(missing(Field::Category)),
    };
    let word = match joke_type {
        Some(v) => v,
        None => return Err(missing(Field::Type)),
    };
    let kind = match JokeType::from_word(word.as_str()) {
        None => return Err(JokeError::Decode { fault: DecodeFault::UnknownType { found: word } }),
        Some(JokeType::Single) => match joke {
            Some(joke) => DataKind::Single { joke },
            None => return Err(missing(Field::Joke)),
        },
        Some(JokeType::TwoPart) => {
            let setup = match setup {
                Some(v) => v,
                None => return Err(missing(Field::Setup)),
            };
            match delivery {
                Some(delivery) => DataKind::TwoPart { setup, delivery },
                None => return Err(missing(Field::Delivery)),
            }
        },
    };
    let flags = match flags {
        Some(v) => v,
        None => return Err(missing(Field::Flags)),
    };
    let id = match id {
        Some(v) => v,
        None => return Err(missing(Field::Id)),
    };
    let safe = match safe {
        Some(v) => v,
        None => return Err(missing(Field::Safe)),
    };
    let lang = match lang {
        Some(v) => v,
        None => return Err(missing(Field::Lang)),
    };
    Ok(Data { error, category, kind, flags, id, safe, lang })
}

/// Turns what came back from a request into what the caller is handed: a
/// transport failure and an unreadable body each become their error, and a
/// payload is read as [`decode`] reads it.
pub fn conclude(reply: Reply) -> (r: Result<Data, JokeError>)
    ensures
        seen(r) == reply.outcome(),
{
    match reply {
        Reply::Unreachable { cause } => Err(JokeError::Transport { cause }),
        Reply::Malformed { detail } => Err(
            JokeError::Decode { fault: DecodeFault::Malformed { detail } },
        ),
        Reply::Received { payload } => decode(payload),
    }
}

/// A payload is read as a decode error where its `type` is absent or is
/// neither of the two words, and where it lacks a text member of the shape
/// that it declares, whatever its other members hold.
pub proof fn lemma_incomplete_payload_is_refused(payload: Payload)
    requires
        payload.shape() is None || (payload.shape() == Some(JokeType::Single) && payload.joke
            is None) || (payload.shape() == Some(JokeType::TwoPart) && (payload.setup is None
            || payload.delivery is None)),
    ensures
        payload.reading() matches Err(JokeErrorView::Decode { .. }),
        (Reply::Received { payload }).outcome() matches Err(JokeErrorView::Decode { .. }),
{
}

/// A joke that was read is whole: every member that it needs was present in
/// the payload, and the joke holds each of them as it came.
pub proof fn lemma_read_joke_is_whole(payload: Payload)
    requires
        payload.reading() is Ok,
    ensures
        payload.reading() matches Ok(data) && payload.error == Some(data.error)
            && payload.category is Some && payload.category->0@ == data.category
            && payload.flags == Some(data.flags) && payload.id == Some(data.id) && payload.safe
            == Some(data.safe) && payload.lang is Some && payload.lang->0@ == data.lang && (
        match data.kind {
            DataKindView::Single { joke } => payload.shape() == Some(JokeType::Single)
                && payload.joke is Some && payload.joke->0@ == joke,
            DataKindView::TwoPart { setup, delivery } => payload.shape() == Some(
                JokeType::TwoPart,
            ) && payload.setup is Some && payload.setup->0@ == setup && payload.delivery is Some
                && payload.delivery->0@ == delivery,
        }),
{
}

/// The text of a joke that was read: the member `joke` of a one-part
/// payload as it came; of a two-part payload the setup, one line feed and
/// the delivery, with nothing added.
pub proof fn lemma_text_of_read_joke(payload: Payload)
    requires
        payload.reading() is Ok,
    ensures
        payload.shape() == Some(JokeType::Single) ==> payload.reading()->Ok_0.kind.text()
            == payload.joke->0@,
        payload.shape() == Some(JokeType::TwoPart) ==> payload.reading()->Ok_0.kind.text()
            == payload.setup->0@ + seq!['\n'] + payload.delivery->0@,
{
}

} // verus!
