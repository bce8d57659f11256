use jokeapi_rs::builder::BASE_URL;
use jokeapi_rs::error::JokeError;
use jokeapi_rs::vocabulary::{JokeType, Vocabulary};
use jokeapi_rs::Joke;

fn strings(words: &[&str]) -> Vec<String> {
    words.iter().map(|w| w.to_string()).collect()
}

#[test]
fn fresh_builder_asks_for_any_joke() {
    let joke = Joke::new();
    assert_eq!(joke.joke_type(), None);
    assert!(joke.category_tokens().is_empty());
    assert!(joke.blacklist_tokens().is_empty());
    assert!(!joke.is_safe());
    assert_eq!(joke.request_url(), "https://v2.jokeapi.dev/joke/Any?&&");
}

#[test]
fn base_url_is_the_service_address() {
    assert_eq!(BASE_URL, "https://v2.jokeapi.dev/joke/");
    assert!(Joke::new().request_url().starts_with(BASE_URL));
}

#[test]
fn of_type_single_sets_the_type_parameter() {
    let mut joke = Joke::new();
    assert!(joke.of_type("single").is_ok());
    assert_eq!(joke.joke_type(), Some(JokeType::Single));
    assert_eq!(joke.request_url(), "https://v2.jokeapi.dev/joke/Any?type=single&&");
}

#[test]
fn of_type_twopart_sets_the_type_parameter() {
    let mut joke = Joke::new();
    assert!(joke.of_type("twopart").is_ok());
    assert_eq!(joke.joke_type(), Some(JokeType::TwoPart));
    assert_eq!(joke.request_url(), "https://v2.jokeapi.dev/joke/Any?type=twopart&&");
}

#[test]
fn of_type_takes_every_case_variant() {
    for word in ["single", "SINGLE", "Single", "sInGlE"] {
        let mut joke = Joke::new();
        assert!(joke.of_type(word).is_ok(), "{}", word);
        assert_eq!(joke.joke_type(), Some(JokeType::Single));
        assert_eq!(joke.request_url(), "https://v2.jokeapi.dev/joke/Any?type=single&&");
    }
    for word in ["twopart", "TWOPART", "TwoPart", "tWOpART"] {
        let mut joke = Joke::new();
        assert!(joke.of_type(word).is_ok(), "{}", word);
        assert_eq!(joke.joke_type(), Some(JokeType::TwoPart));
        assert_eq!(joke.request_url(), "https://v2.jokeapi.dev/joke/Any?type=twopart&&");
    }
}

#[test]
fn of_type_rejects_an_unknown_word() {
    let mut joke = Joke::new();
    let before = joke.clone();
    let err = joke.of_type("triple").err();
    assert_eq!(
        err,
        Some(JokeError::InvalidArgument {
            vocabulary: Vocabulary::JokeTypes,
            given: strings(&["triple"]),
        })
    );
    assert_eq!(joke, before);
    assert_eq!(joke.request_url(), "https://v2.jokeapi.dev/joke/Any?&&");
}

#[test]
fn of_type_reports_the_lowercased_word() {
    let mut joke = Joke::new();
    let err = joke.of_type("TRIPLE").err();
    assert_eq!(
        err,
        Some(JokeError::InvalidArgument {
            vocabulary: Vocabulary::JokeTypes,
            given: strings(&["triple"]),
        })
    );
}

#[test]
fn of_type_does_not_trim_or_guess() {
    for word in ["", " single", "single ", "singles", "two part", "two-part", "any"] {
        let mut joke = Joke::new();
        assert!(joke.of_type(word).is_err(), "{:?}", word);
        assert_eq!(joke.joke_type(), None);
    }
}

#[test]
fn a_rejected_type_keeps_the_earlier_one() {
    let mut joke = Joke::new();
    joke.of_type("twopart").unwrap();
    assert!(joke.of_type("triple").is_err());
    assert_eq!(joke.joke_type(), Some(JokeType::TwoPart));
}

#[test]
fn select_type_matches_letter_for_letter() {
    let mut joke = Joke::new();
    assert!(joke.select_type("SINGLE").is_err());
    assert_eq!(joke.joke_type(), None);
    assert!(joke.select_type("single").is_ok());
    assert_eq!(joke.joke_type(), Some(JokeType::Single));
    assert!(joke.select_type("twopart").is_ok());
    assert_eq!(joke.joke_type(), Some(JokeType::TwoPart));
}

#[test]
fn categories_keep_unknown_tokens_beside_a_known_one() {
    let mut joke = Joke::new();
    assert!(joke.categories(strings(&["Programming", "NotAThing"])).is_ok());
    assert_eq!(joke.category_tokens(), &strings(&["programming", "notathing"]));
    assert_eq!(
        joke.request_url(),
        "https://v2.jokeapi.dev/joke/programming,notathing?&&"
    );
}

#[test]
fn categories_without_a_known_token_are_rejected() {
    let mut joke = Joke::new();
    let before = joke.clone();
    let err = joke.categories(strings(&["bogus1", "bogus2"])).err();
    assert_eq!(
        err,
        Some(JokeError::InvalidArgument {
            vocabulary: Vocabulary::Categories,
            given: strings(&["bogus1", "bogus2"]),
        })
    );
    assert_eq!(joke, before);
    assert_eq!(joke.request_url(), "https://v2.jokeapi.dev/joke/Any?&&");
}

#[test]
fn an_empty_category_list_is_rejected() {
    let mut joke = Joke::new();
    let err = joke.categories(Vec::new()).err();
    assert_eq!(
        err,
        Some(JokeError::InvalidArgument { vocabulary: Vocabulary::Categories, given: Vec::new() })
    );
    assert!(joke.category_tokens().is_empty());
}

#[test]
fn every_category_is_known() {
    for word in ["programming", "misc", "dark", "pun", "spooky", "christmas"] {
        let mut joke = Joke::new();
        assert!(joke.categories(strings(&[word])).is_ok(), "{}", word);
        assert_eq!(joke.request_url(), format!("https://v2.jokeapi.dev/joke/{}?&&", word));
    }
}

#[test]
fn a_flag_is_no_category() {
    let mut joke = Joke::new();
    assert!(joke.categories(strings(&["nsfw"])).is_err());
    assert!(joke.blacklist(strings(&["pun"])).is_err());
}

#[test]
fn categories_keep_order_and_repeats() {
    let mut joke = Joke::new();
    joke.categories(strings(&["Pun", "dark", "PUN", ""])).unwrap();
    assert_eq!(joke.category_tokens(), &strings(&["pun", "dark", "pun", ""]));
    assert_eq!(joke.request_url(), "https://v2.jokeapi.dev/joke/pun,dark,pun,?&&");
}

#[test]
fn categories_are_lowercased_as_unicode_text() {
    let mut joke = Joke::new();
    joke.categories(strings(&["DAR\u{212A}", "\u{c4}RGER"])).unwrap();
    assert_eq!(joke.category_tokens(), &strings(&["dark", "\u{e4}rger"]));
}

#[test]
fn later_categories_replace_earlier_ones() {
    let mut joke = Joke::new();
    joke.categories(strings(&["pun"])).unwrap();
    joke.categories(strings(&["spooky", "misc"])).unwrap();
    assert_eq!(joke.category_tokens(), &strings(&["spooky", "misc"]));
    assert!(joke.categories(strings(&["bogus"])).is_err());
    assert_eq!(joke.category_tokens(), &strings(&["spooky", "misc"]));
}

#[test]
fn select_categories_takes_tokens_as_they_are() {
    let mut joke = Joke::new();
    assert!(joke.select_categories(strings(&["Pun"])).is_err());
    assert!(joke.select_categories(strings(&["Pun", "pun"])).is_ok());
    assert_eq!(joke.category_tokens(), &strings(&["Pun", "pun"]));
    assert_eq!(joke.request_url(), "https://v2.jokeapi.dev/joke/Pun,pun?&&");
}

#[test]
fn blacklist_is_written_behind_its_key() {
    let mut joke = Joke::new();
    assert!(joke.blacklist(strings(&["Sexist", "NSFW"])).is_ok());
    assert_eq!(joke.blacklist_tokens(), &strings(&["sexist", "nsfw"]));
    assert_eq!(
        joke.request_url(),
        "https://v2.jokeapi.dev/joke/Any?&blacklistFlags=sexist,nsfw&"
    );
}

#[test]
fn blacklist_keeps_unknown_tokens_beside_a_known_one() {
    let mut joke = Joke::new();
    assert!(joke.blacklist(strings(&["rude", "racist"])).is_ok());
    assert_eq!(
        joke.request_url(),
        "https://v2.jokeapi.dev/joke/Any?&blacklistFlags=rude,racist&"
    );
}

#[test]
fn blacklist_without_a_known_token_is_rejected() {
    let mut joke = Joke::new();
    let before = joke.clone();
    let err = joke.blacklist(strings(&["rude", "crude"])).err();
    assert_eq!(
        err,
        Some(JokeError::InvalidArgument {
            vocabulary: Vocabulary::BlacklistFlags,
            given: strings(&["rude", "crude"]),
        })
    );
    assert_eq!(joke, before);
    assert!(joke.blacklist(Vec::new()).is_err());
}

#[test]
fn every_flag_is_known() {
    for word in ["nsfw", "religious", "political", "racist", "sexist", "explicit"] {
        let mut joke = Joke::new();
        assert!(joke.blacklist(strings(&[word])).is_ok(), "{}", word);
    }
}

#[test]
fn select_blacklist_takes_tokens_as_they_are() {
    let mut joke = Joke::new();
    assert!(joke.select_blacklist(strings(&["NSFW"])).is_err());
    assert!(joke.select_blacklist(strings(&["nsfw", "NSFW"])).is_ok());
    assert_eq!(
        joke.request_url(),
        "https://v2.jokeapi.dev/joke/Any?&blacklistFlags=nsfw,NSFW&"
    );
}

#[test]
fn safe_mode_adds_its_token() {
    let mut joke = Joke::new();
    joke.safe();
    assert!(joke.is_safe());
    assert_eq!(joke.request_url(), "https://v2.jokeapi.dev/joke/Any?&&safe-mode");
    joke.safe();
    assert!(joke.is_safe());
    assert_eq!(joke.request_url(), "https://v2.jokeapi.dev/joke/Any?&&safe-mode");
}

#[test]
fn setters_chain() {
    let mut joke = Joke::new();
    let url = joke
        .of_type("single")
        .unwrap()
        .categories(strings(&["programming", "pun"]))
        .unwrap()
        .blacklist(strings(&["sexist", "nsfw"]))
        .unwrap()
        .request_url();
    assert_eq!(
        url,
        "https://v2.jokeapi.dev/joke/programming,pun?type=single&blacklistFlags=sexist,nsfw&"
    );
    let url = joke.safe().request_url();
    assert_eq!(
        url,
        "https://v2.jokeapi.dev/joke/programming,pun?type=single&blacklistFlags=sexist,nsfw&safe-mode"
    );
}

#[test]
fn the_type_outlasts_later_settings() {
    let mut joke = Joke::new();
    joke.of_type("TwoPart").unwrap();
    joke.categories(strings(&["misc"])).unwrap();
    joke.blacklist(strings(&["explicit"])).unwrap();
    joke.safe();
    assert_eq!(joke.joke_type(), Some(JokeType::TwoPart));
    assert_eq!(
        joke.request_url(),
        "https://v2.jokeapi.dev/joke/misc?type=twopart&blacklistFlags=explicit&safe-mode"
    );
}

#[test]
fn two_builders_do_not_share_state() {
    let mut first = Joke::new();
    let mut second = Joke::new();
    first.of_type("single").unwrap().safe();
    second.categories(strings(&["spooky"])).unwrap();
    assert_eq!(first.request_url(), "https://v2.jokeapi.dev/joke/Any?type=single&&safe-mode");
    assert_eq!(second.request_url(), "https://v2.jokeapi.dev/joke/spooky?&&");
    assert_eq!(first.request_url(), "https://v2.jokeapi.dev/joke/Any?type=single&&safe-mode");
}

#[test]
fn asking_for_the_address_changes_nothing() {
    let mut joke = Joke::new();
    joke.of_type("single").unwrap();
    let before = joke.clone();
    let first = joke.request_url();
    let second = joke.request_url();
    assert_eq!(first, second);
    assert_eq!(joke, before);
}
