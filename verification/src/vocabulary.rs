//! The fixed word lists that the request filters are held against.

use crate::text::{same, texts};
use vstd::prelude::*;

verus! {

/// How a joke is delivered: as one text, or as a setup and its delivery.
#[derive(Clone, Copy, Debug, PartialEq, Eq, Structural)]
pub enum JokeType {
    Single,
    TwoPart,
}

impl JokeType {
    /// The word that stands for this type, in a filter and on the wire.
    pub open spec fn word(self) -> Seq<char> {
        match self {
            JokeType::Single => "single"@,
            JokeType::TwoPart => "twopart"@,
        }
    }

    /// The query parameter that asks for this type.
    pub open spec fn param(self) -> Seq<char> {
        match self {
            JokeType::Single => "type=single"@,
            JokeType::TwoPart => "type=twopart"@,
        }
    }

    /// The type that a lowercase word names, if it names one.
    pub open spec fn named(word: Seq<char>) -> Option<JokeType> {
        if word == "single"@ {
            Some(JokeType::Single)
        } else if word == "twopart"@ {
            Some(JokeType::TwoPart)
        } else {
            None
        }
    }

    /// Reads a type from its lowercase word. The match is exact: no case
    /// folding or trimming happens here.
    pub fn from_word(word: &str) -> (r: Option<JokeType>)
        ensures
            r == JokeType::named(word@),
    {
        if same(word, "single") {
            Some(JokeType::Single)
        } else if same(word, "twopart") {
            Some(JokeType::TwoPart)
        } else {
            None
        }
    }

    /// The query parameter of this type.
    pub fn as_param(&self) -> (r: &'static str)
        ensures
            r@ == self.param(),
    {
        match self {
            JokeType::Single => "type=single",
            JokeType::TwoPart => "type=twopart",
        }
    }
}

/// One of the three closed word lists.
#[derive(Clone, Copy, Debug, PartialEq, Eq, Structural)]
pub enum Vocabulary {
    JokeTypes,
    Categories,
    BlacklistFlags,
}

impl Vocabulary {
    /// The words of this list, all lowercase, in their documented order.
    pub open spec fn words(self) -> Seq<Seq<char>> {
        match self {
            Vocabulary::JokeTypes => seq!["single"@, "twopart"@],
            Vocabulary::Categories => seq![
                "programming"@,
                "misc"@,
                "dark"@,
                "pun"@,
                "spooky"@,
                "christmas"@,
            ],
            Vocabulary::BlacklistFlags => seq![
                "nsfw"@,
                "religious"@,
                "political"@,
                "racist"@,
                "sexist"@,
                "explicit"@,
            ],
        }
    }

    /// Whether `word` is one of the words of this list, letter for letter.
    pub open spec fn has(self, word: Seq<char>) -> bool {
        self.words().contains(word)
    }

    /// Whether at least one of `tokens` is a word of this list.
    pub open spec fn has_any(self, tokens: Seq<Seq<char>>) -> bool {
        exists|i: int| 0 <= i < tokens.len() && self.has(#[trigger] tokens[i])
    }

    /// Whether `word` is one of the words of this list.
    pub fn contains(&self, word: &str) -> (r: bool)
        ensures
            r == self.has(word@),
    {
        let ghost w = self.words();
        match self {
            Vocabulary::JokeTypes => {
                let r = same(word, "single") || same(word, "twopart");
                proof {
                    if r {
                        assert(w[0] == word@ || w[1] == word@);
                    }
                }
                r
            },
            Vocabulary::Categories => {
                let r = same(word, "programming") || same(word, "misc") || same(word, "dark")
                    || same(word, "pun") || same(word, "spooky") || same(word, "christmas");
                proof {
                    if r {
                        assert(w[0] == word@ || w[1] == word@ || w[2] == word@ || w[3] == word@
                            || w[4] == word@ || w[5] == word@);
                    }
                }
                r
            },
            Vocabulary::BlacklistFlags => {
                let r = same(word, "nsfw") || same(word, "religious") || same(word, "political")
                    || same(word, "racist") || same(word, "sexist") || same(word, "explicit");
                proof {
                    if r {
                        assert(w[0] == word@ || w[1] == word@ || w[2] == word@ || w[3] == word@
                            || w[4] == word@ || w[5] == word@);
                    }
                }
                r
            },
        }
    }

    /// Whether at least one of `tokens` is a word of this list.
    pub fn contains_any(&self, tokens: &Vec<String>) -> (r: bool)
        ensures
            r == self.has_any(texts(tokens@)),
    {
        let mut i: usize = 0;
        while i < tokens.len()
            invariant
                i <= tokens@.len(),
                forall|k: int| 0 <= k < i ==> !self.has(#[trigger] texts(tokens@)[k]),
            decreases tokens@.len() - i,
        {
            if self.contains(tokens[i].as_str()) {
                assert(self.has(texts(tokens@)[i as int]));
                return true;
            }
            i += 1;
        }
        false
    }

    /// The words of this list as owned strings.
    pub fn allowed(&self) -> (r: Vec<String>)
        ensures
            texts(r@) == self.words(),
    {
        let mut out: Vec<String> = Vec::new();
        match self {
            Vocabulary::JokeTypes => {
                out.push(String::from_str("single"));
                out.push(String::from_str("twopart"));
            },
            Vocabulary::Categories => {
                out.push(String::from_str("programming"));
                out.push(String::from_str("misc"));
                out.push(String::from_str("dark"));
                out.push(String::from_str("pun"));
                out.push(String::from_str("spooky"));
                out.push(String::from_str("christmas"));
            },
            Vocabulary::BlacklistFlags => {
                out.push(String::from_str("nsfw"));
                out.push(String::from_str("religious"));
                out.push(String::from_str("political"));
                out.push(String::from_str("racist"));
                out.push(String::from_str("sexist"));
                out.push(String::from_str("explicit"));
            },
        }
        assert(texts(out@) =~= self.words());
        out
    }
}

/// One token that is a word of the list makes a list of tokens acceptable,
/// whatever stands beside it. A list without tokens holds no such word.
pub proof fn lemma_one_known_token_suffices(
    vocabulary: Vocabulary,
    tokens: Seq<Seq<char>>,
    i: int,
)
    requires
        0 <= i < tokens.len(),
        vocabulary.has(tokens[i]),
    ensures
        vocabulary.has_any(tokens),
        !vocabulary.has_any(Seq::empty()),
{
}

} // verus!
