//! The request builder: each filter is validated when it is set, and the
//! request address is assembled from whatever has been set.

use crate::error::{JokeError, JokeErrorView};
use crate::text::{join, joined, lower_all, lowercase, lowercase_all, texts, to_lowercase};
use crate::vocabulary::{JokeType, Vocabulary};
use vstd::prelude::*;

verus! {

/// The address that every request starts with.
pub const BASE_URL: &'static str = "https://v2.jokeapi.dev/joke/";

/// What a builder has been told so far.
pub struct RequestConfig {
    /// Where requests go; the same for every builder.
    pub base_url: Seq<char>,
    /// The joke type asked for; `None` asks for any.
    pub joke_type: Option<JokeType>,
    /// The lowercased category tokens, in input order; empty asks for any.
    pub categories: Seq<Seq<char>>,
    /// The lowercased blacklist tokens, in input order; empty excludes
    /// nothing.
    pub blacklist_flags: Seq<Seq<char>>,
    /// Whether only jokes that the service calls safe are asked for.
    pub safe_mode: bool,
}

impl RequestConfig {
    /// The configuration of a fresh builder.
    pub open spec fn initial() -> RequestConfig {
        RequestConfig {
            base_url: BASE_URL@,
            joke_type: None,
            categories: Seq::empty(),
            blacklist_flags: Seq::empty(),
            safe_mode: false,
        }
    }

    /// The base address is the fixed one, and a filter that is set names at
    /// least one word of its vocabulary.
    pub open spec fn valid(self) -> bool {
        &&& self.base_url == BASE_URL@
        &&& self.categories.len() > 0 ==> Vocabulary::Categories.has_any(self.categories)
        &&& self.blacklist_flags.len() > 0 ==> Vocabulary::BlacklistFlags.has_any(
            self.blacklist_flags,
        )
    }

    /// This configuration, asking for jokes of type `t`.
    pub open spec fn with_type(self, t: JokeType) -> RequestConfig {
        RequestConfig { joke_type: Some(t), ..self }
    }

    /// This configuration, asking for the categories `tokens`.
    pub open spec fn with_categories(self, tokens: Seq<Seq<char>>) -> RequestConfig {
        RequestConfig { categories: tokens, ..self }
    }

    /// This configuration, leaving out jokes flagged with `tokens`.
    pub open spec fn with_blacklist(self, tokens: Seq<Seq<char>>) -> RequestConfig {
        RequestConfig { blacklist_flags: tokens, ..self }
    }

    /// This configuration, with safe mode on.
    pub open spec fn with_safe_mode(self) -> RequestConfig {
        RequestConfig { safe_mode: true, ..self }
    }

    /// The last segment of the path: the category tokens joined by commas,
    /// or `Any` where none were set.
    pub open spec fn categories_segment(self) -> Seq<char> {
        if self.categories.len() == 0 {
            "Any"@
        } else {
            joined(self.categories, ","@)
        }
    }

    /// The type parameter: empty where no type was set.
    pub open spec fn type_param(self) -> Seq<char> {
        match self.joke_type {
            Some(t) => t.param(),
            None => Seq::empty(),
        }
    }

    /// The blacklist parameter: its key and the tokens joined by commas,
    /// or empty where none were set.
    pub open spec fn blacklist_param(self) -> Seq<char> {
        if self.blacklist_flags.len() == 0 {
            Seq::empty()
        } else {
            "blacklistFlags="@ + joined(self.blacklist_flags, ","@)
        }
    }

    /// The safe-mode parameter: empty where safe mode is off.
    pub open spec fn safe_param(self) -> Seq<char> {
        if self.safe_mode {
            "safe-mode"@
        } else {
            Seq::empty()
        }
    }

    /// The query: the three parameters in their fixed order, with `&`
    /// between them whether or not they are empty.
    pub open spec fn query(self) -> Seq<char> {
        self.type_param() + "&"@ + self.blacklist_param() + "&"@ + self.safe_param()
    }

    /// The address of the request.
    pub open spec fn request_url(self) -> Seq<char> {
        self.base_url + self.categories_segment() + "?"@ + self.query()
    }
}

/// The error of a setter that turns `tokens` down: it names the vocabulary
/// that none of them belongs to, and holds the tokens as they were compared.
pub open spec fn rejection(vocabulary: Vocabulary, tokens: Seq<Seq<char>>) -> JokeErrorView {
    JokeErrorView::InvalidArgument { vocabulary, given: tokens }
}

/// A request in the making.
#[derive(Debug, PartialEq, Eq)]
pub struct Joke {
    url: String,
    joke_type: Option<JokeType>,
    categories: Vec<String>,
    blacklist_flags: Vec<String>,
    safe: bool,
}

impl View for Joke {
    type V = RequestConfig;

    closed spec fn view(&self) -> RequestConfig {
        RequestConfig {
            base_url: self.url@,
            joke_type: self.joke_type,
            categories: texts(self.categories@),
            blacklist_flags: texts(self.blacklist_flags@),
            safe_mode: self.safe,
        }
    }
}

impl Clone for Joke {
    /// A second builder with the same configuration.
    fn clone(&self) -> (r: Self)
        ensures
            r@ == self@,
    {
        proof {
            use_type_invariant(self);
        }
        let r = Joke {
            url: self.url.clone(),
            joke_type: self.joke_type,
            categories: self.categories.clone(),
            blacklist_flags: self.blacklist_flags.clone(),
            safe: self.safe,
        };
        assert(texts(r.categories@) =~= texts(self.categories@));
        assert(texts(r.blacklist_flags@) =~= texts(self.blacklist_flags@));
        r
    }
}

impl Joke {
    /// Every builder is valid: its fields are private, and each method
    /// leaves a valid configuration behind.
    #[verifier::type_invariant]
    spec fn well_formed(&self) -> bool {
        self@.valid()
    }

    /// A builder with no filter set and safe mode off.
    pub fn new() -> (r: Joke)
        ensures
            r@ == RequestConfig::initial(),
            r@.valid(),
    {
        let r = Joke {
            url: String::from_str(BASE_URL),
            joke_type: None,
            categories: Vec::new(),
            blacklist_flags: Vec::new(),
            safe: false,
        };
        assert(r@.categories =~= Seq::empty());
        assert(r@.blacklist_flags =~= Seq::empty());
        r
    }

    /// Asks for jokes of the type that `word` names. `word` is taken as it
    /// is: `single` or `twopart`, in lowercase.
    pub fn select_type(&mut self, word: &str) -> (r: Result<&mut Self, JokeError>)
        ensures
            match JokeType::named(word@) {
                Some(t) => r matches Ok(j) && j@ == old(self)@.with_type(t) && *final(self)
                    == *final(j),
                None => r matches Err(e) && e@ == rejection(Vocabulary::JokeTypes, seq![word@])
                    && *final(self) == *old(self),
            },
    {
        proof {
            use_type_invariant(&*self);
        }
        match JokeType::from_word(word) {
            Some(t) => {
                self.joke_type = Some(t);
                Ok(self)
            },
            None => {
                let mut given: Vec<String> = Vec::new();
                given.push(String::from_str(word));
                assert(texts(given@) =~= seq![word@]);
                Err(JokeError::InvalidArgument { vocabulary: Vocabulary::JokeTypes, given })
            },
        }
    }

    /// Asks for jokes of one type. `joke_type` is lowercased and must then
    /// read `single` or `twopart`; any other input is rejected and leaves
    /// the builder as it was.
    pub fn of_type(&mut self, joke_type: &str) -> (r: Result<&mut Self, JokeError>)
        ensures
            match JokeType::named(lowercase(joke_type@)) {
                Some(t) => r matches Ok(j) && j@ == old(self)@.with_type(t) && *final(self)
                    == *final(j),
                None => r matches Err(e) && e@ == rejection(
                    Vocabulary::JokeTypes,
                    seq![lowercase(joke_type@)],
                ) && *final(self) == *old(self),
            },
    {
        let word = to_lowercase(joke_type);
        self.select_type(word.as_str())
    }

    /// Asks for jokes of the categories `tokens`, taken as they are. At
    /// least one token must be a category; then all of them are kept, the
    /// unknown ones too.
    pub fn select_categories(&mut self, tokens: Vec<String>) -> (r: Result<&mut Self, JokeError>)
        ensures
            if Vocabulary::Categories.has_any(texts(tokens@)) {
                r matches Ok(j) && j@ == old(self)@.with_categories(texts(tokens@)) && *final(self)
                    == *final(j)
            } else {
                r matches Err(e) && e@ == rejection(Vocabulary::Categories, texts(tokens@))
                    && *final(self) == *old(self)
            },
    {
        proof {
            use_type_invariant(&*self);
        }
        if Vocabulary::Categories.contains_any(&tokens) {
            self.categories = tokens;
            Ok(self)
        } else {
            Err(JokeError::InvalidArgument { vocabulary: Vocabulary::Categories, given: tokens })
        }
    }

    /// Asks for jokes of certain categories. Every entry is lowercased; at
    /// least one must then be a category, and all of them are kept in input
    /// order. Otherwise the input is rejected and the builder is left as it
    /// was.
    pub fn categories(&mut self, categories: Vec<String>) -> (r: Result<&mut Self, JokeError>)
        ensures
            if Vocabulary::Categories.has_any(lowercase_all(texts(categories@))) {
                r matches Ok(j) && j@ == old(self)@.with_categories(
                    lowercase_all(texts(categories@)),
                ) && *final(self) == *final(j)
            } else {
                r matches Err(e) && e@ == rejection(
                    Vocabulary::Categories,
                    lowercase_all(texts(categories@)),
                ) && *final(self) == *old(self)
            },
    {
        let tokens = lower_all(&categories);
        self.select_categories(tokens)
    }

    /// Leaves out jokes flagged with `tokens`, taken as they are. At least
    /// one token must be a flag; then all of them are kept.
    pub fn select_blacklist(&mut self, tokens: Vec<String>) -> (r: Result<&mut Self, JokeError>)
        ensures
            if Vocabulary::BlacklistFlags.has_any(texts(tokens@)) {
                r matches Ok(j) && j@ == old(self)@.with_blacklist(texts(tokens@)) && *final(self)
                    == *final(j)
            } else {
                r matches Err(e) && e@ == rejection(Vocabulary::BlacklistFlags, texts(tokens@))
                    && *final(self) == *old(self)
            },
    {
        proof {
            use_type_invariant(&*self);
        }
        if Vocabulary::BlacklistFlags.contains_any(&tokens) {
            self.blacklist_flags = tokens;
            Ok(self)
        } else {
            Err(
                JokeError::InvalidArgument {
                    vocabulary: Vocabulary::BlacklistFlags,
                    given: tokens,
                },
            )
        }
    }

    /// Leaves out jokes that carry certain flags. Every entry is
    /// lowercased; at least one must then be a flag, and all of them are
    /// kept in input order. Otherwise the input is rejected and the builder
    /// is left as it was.
    pub fn blacklist(&mut self, blacklist_flags: Vec<String>) -> (r: Result<&mut Self, JokeError>)
        ensures
            if Vocabulary::BlacklistFlags.has_any(lowercase_all(texts(blacklist_flags@))) {
                r matches Ok(j) && j@ == old(self)@.with_blacklist(
                    lowercase_all(texts(blacklist_flags@)),
                ) && *final(self) == *final(j)
            } else {
                r matches Err(e) && e@ == rejection(
                    Vocabulary::BlacklistFlags,
                    lowercase_all(texts(blacklist_flags@)),
                ) && *final(self) == *old(self)
            },
    {
        let tokens = lower_all(&blacklist_flags);
        self.select_blacklist(tokens)
    }

    /// Turns safe mode on. Nothing turns it off again.
    pub fn safe(&mut self) -> (r: &mut Self)
        ensures
            r@ == old(self)@.with_safe_mode(),
            *final(self) == *final(r),
    {
        proof {
            use_type_invariant(&*self);
        }
        self.safe = true;
        self
    }

    /// The joke type asked for, if one was set.
    pub fn joke_type(&self) -> (r: Option<JokeType>)
        ensures
            r == self@.joke_type,
    {
        self.joke_type
    }

    /// The category tokens that were set; empty where none were. In every
    /// builder a list that is not empty holds at least one category.
    pub fn category_tokens(&self) -> (r: &Vec<String>)
        ensures
            texts(r@) == self@.categories,
            r@.len() > 0 ==> Vocabulary::Categories.has_any(texts(r@)),
    {
        proof {
            use_type_invariant(self);
        }
        &self.categories
    }

    /// The blacklist tokens that were set; empty where none were. In every
    /// builder a list that is not empty holds at least one flag.
    pub fn blacklist_tokens(&self) -> (r: &Vec<String>)
        ensures
            texts(r@) == self@.blacklist_flags,
            r@.len() > 0 ==> Vocabulary::BlacklistFlags.has_any(texts(r@)),
    {
        proof {
            use_type_invariant(self);
        }
        &self.blacklist_flags
    }

    /// Whether safe mode is on.
    pub fn is_safe(&self) -> (r: bool)
        ensures
            r == self@.safe_mode,
    {
        self.safe
    }

    /// The last segment of the path: the category tokens joined by commas,
    /// or `Any` where none were set.
    pub fn categories_segment(&self) -> (r: String)
        ensures
            r@ == self@.categories_segment(),
    {
        if self.categories.len() == 0 {
            String::from_str("Any")
        } else {
            join(&self.categories, ",")
        }
    }

    /// The type parameter: empty where no type was set.
    pub fn type_param(&self) -> (r: String)
        ensures
            r@ == self@.type_param(),
    {
        match self.joke_type {
            Some(t) => String::from_str(t.as_param()),
            None => String::new(),
        }
    }

    /// The blacklist parameter: its key and the tokens joined by commas, or
    /// empty where none were set.
    pub fn blacklist_param(&self) -> (r: String)
        ensures
            r@ == self@.blacklist_param(),
    {
        if self.blacklist_flags.len() == 0 {
            String::new()
        } else {
            let mut out = String::from_str("blacklistFlags=");
            out.append(join(&self.blacklist_flags, ",").as_str());
            out
        }
    }

    /// The safe-mode parameter: empty where safe mode is off.
    pub fn safe_param(&self) -> (r: String)
        ensures
            r@ == self@.safe_param(),
    {
        if self.safe {
            String::from_str("safe-mode")
        } else {
            String::new()
        }
    }

    /// The query: the three parameters in their fixed order, with `&`
    /// between them whether or not they are empty.
    pub fn query(&self) -> (r: String)
        ensures
            r@ == self@.query(),
    {
        let mut out = self.type_param();
        out.append("&");
        out.append(self.blacklist_param().as_str());
        out.append("&");
        out.append(self.safe_param().as_str());
        out
    }

    /// The address that a request made now would go to. The configuration
    /// of every builder is valid, so the address starts with [`BASE_URL`].
    pub fn request_url(&self) -> (r: String)
        ensures
            r@ == self@.request_url(),
            self@.valid(),
    {
        proof {
            use_type_invariant(self);
        }
        let mut out = self.url.clone();
        out.append(self.categories_segment().as_str());
        out.append("?");
        out.append(self.query().as_str());
        out
    }
}

/// The words that name a joke type are the words of the joke-type
/// vocabulary, and no others.
pub proof fn lemma_type_words_are_the_vocabulary(word: Seq<char>)
    ensures
        JokeType::named(word) is Some <==> Vocabulary::JokeTypes.has(word),
        JokeType::named(word) matches Some(t) ==> t.word() == word,
{
    let w = Vocabulary::JokeTypes.words();
    if JokeType::named(word) is Some {
        assert(w[0] == word || w[1] == word);
    }
}

/// A fresh configuration is valid. Setting a type or safe mode keeps a valid
/// configuration valid, and so does setting a filter of which at least one
/// token is a word of its vocabulary, whatever its other tokens are.
pub proof fn lemma_valid_is_kept(c: RequestConfig, t: JokeType, tokens: Seq<Seq<char>>)
    requires
        c.valid(),
    ensures
        RequestConfig::initial().valid(),
        c.with_type(t).valid(),
        c.with_safe_mode().valid(),
        Vocabulary::Categories.has_any(tokens) ==> c.with_categories(tokens).valid(),
        Vocabulary::BlacklistFlags.has_any(tokens) ==> c.with_blacklist(tokens).valid(),
{
}

/// Once a type is set, the query names it: the query starts with the type's
/// parameter, which reads `type=single` or `type=twopart`, followed by `&`
/// and the other two parameters. Setting a filter or safe mode afterwards
/// does not change the type parameter.
pub proof fn lemma_type_reaches_the_query(c: RequestConfig, t: JokeType, tokens: Seq<Seq<char>>)
    ensures
        t.param() == "type=single"@ || t.param() == "type=twopart"@,
        c.with_type(t).query() == t.param() + "&"@ + c.blacklist_param() + "&"@ + c.safe_param(),
        c.with_type(t).request_url() == c.base_url + c.categories_segment() + "?"@ + (t.param()
            + "&"@ + c.blacklist_param() + "&"@ + c.safe_param()),
        c.with_type(t).with_categories(tokens).type_param() == t.param(),
        c.with_type(t).with_blacklist(tokens).type_param() == t.param(),
        c.with_type(t).with_safe_mode().type_param() == t.param(),
{
}

/// A filter that was set shows in the address with all its tokens, known or
/// not, in input order and joined by commas: the categories as the last
/// segment of the path, the blacklist behind its key.
pub proof fn lemma_filters_reach_the_address(c: RequestConfig, tokens: Seq<Seq<char>>)
    requires
        tokens.len() > 0,
    ensures
        c.with_categories(tokens).categories_segment() == joined(tokens, ","@),
        c.with_blacklist(tokens).blacklist_param() == "blacklistFlags="@ + joined(tokens, ","@),
{
}

} // verus!
