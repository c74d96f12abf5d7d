//! Structured documents, read with `serde_json`.
//!
//! Of a document, this crate reads the strings that it holds: each is found
//! by the keys that lead to it from the top, one for each object passed
//! through. A document that is itself a string holds that string under no
//! key at all; an object holds, under a key followed by more keys, what its
//! member of that key holds under the keys that follow; anything else, an
//! array too, holds no string that keys lead to.
//!
//! A `serde_json::Value` stays what `serde_json` made it: the verifier does
//! not look inside, and what the functions of `serde_json` do to it is
//! stated here and not proved.

use vstd::prelude::*;
use crate::text::{optional_text, texts};

verus! {

/// Makes `serde_json::Value` known as a type whose inside is not looked at.
#[verifier::external_type_specification]
#[verifier::external_body]
pub struct ExJsonValue(serde_json::Value);

/// Makes `serde_json::Error` known as a type whose inside is not looked at.
#[verifier::external_type_specification]
#[verifier::external_body]
pub struct ExJsonError(serde_json::Error);

/// The strings of a document, each under its keys.
pub type Strings = Map<Seq<Seq<char>>, Seq<char>>;

/// The strings that a document holds, each under the keys that lead to it.
pub uninterp spec fn json_strings(doc: serde_json::Value) -> Strings;

/// The strings of the document that `serde_json` reads from a text, where it
/// reads one.
pub uninterp spec fn parsed_json(text: Seq<char>) -> Option<Strings>;

/// The strings found below `keys`, each under the keys that remain.
pub open spec fn strings_under(strings: Strings, keys: Seq<Seq<char>>) -> Strings {
    Map::new(
        |rest: Seq<Seq<char>>| strings.contains_key(keys + rest),
        |rest: Seq<Seq<char>>| strings[keys + rest],
    )
}

/// The string under `keys`, if there is one.
pub open spec fn string_under(strings: Strings, keys: Seq<Seq<char>>) -> Option<Seq<char>> {
    if strings.contains_key(keys) {
        Some(strings[keys])
    } else {
        None
    }
}

/// Calls `serde_json::from_str` for a `serde_json::Value`. Not proved:
/// whether the text is a document, and which strings the document holds,
/// depends on the text alone.
#[verifier::external_body]
pub(crate) fn parse_json(text: &str) -> (doc: Result<serde_json::Value, serde_json::Error>)
    ensures
        match doc {
            Ok(d) => parsed_json(text@) == Some(json_strings(d)),
            Err(_) => parsed_json(text@) is None,
        },
{
    serde_json::from_str(text)
}

/// Indexes a `serde_json::Value` by a key, with `[]`. Not proved: where the
/// value is an object with a member of that key, the result is that member,
/// so it holds under any keys what the value holds under the key followed by
/// them; where it is not, the result is null, which holds no string.
#[verifier::external_body]
pub(crate) fn json_member<'a>(doc: &'a serde_json::Value, key: &str) -> (member:
    &'a serde_json::Value)
    ensures
        json_strings(*member) == strings_under(json_strings(*doc), seq![key@]),
{
    &doc[key]
}

/// Calls `serde_json::Value::as_str`. Not proved: there is a result exactly
/// where the value is itself a string, and it is that string.
#[verifier::external_body]
pub(crate) fn json_text<'a>(doc: &'a serde_json::Value) -> (text: Option<&'a str>)
    ensures
        match text {
            Some(t) => string_under(json_strings(*doc), Seq::empty()) == Some(t@),
            None => string_under(json_strings(*doc), Seq::empty()) is None,
        },
{
    doc.as_str()
}

/// Going down by `first` and then by `then` is going down by both at once.
pub proof fn lemma_strings_under_twice(
    strings: Strings,
    first: Seq<Seq<char>>,
    then: Seq<Seq<char>>,
)
    ensures
        strings_under(strings_under(strings, first), then) == strings_under(strings, first + then),
{
    assert forall|rest: Seq<Seq<char>>| #[trigger] (first + (then + rest)) == (first + then) + rest by {
        assert(first + (then + rest) =~= (first + then) + rest);
    }
    assert(strings_under(strings_under(strings, first), then) =~= strings_under(
        strings,
        first + then,
    ));
}

/// The string at the end of a path of keys, each taken in the object that the
/// one before led to. There is none where a key is missing, where something
/// else than an object stands on the way, or where the path ends at
/// something else than a string.
pub fn string_at(doc: &serde_json::Value, path: &Vec<String>) -> (found: Option<String>)
    ensures
        optional_text(found) == string_under(json_strings(*doc), texts(path@)),
{
    let ghost keys = texts(path@);
    let mut current = doc;
    let mut i: usize = 0;
    proof {
        assert forall|rest: Seq<Seq<char>>| #[trigger] (keys.take(0) + rest) == rest by {
            assert(keys.take(0) + rest =~= rest);
        }
        assert(json_strings(*doc) =~= strings_under(json_strings(*doc), keys.take(0)));
    }
    while i < path.len()
        invariant
            i <= path.len(),
            keys == texts(path@),
            json_strings(*current) == strings_under(json_strings(*doc), keys.take(i as int)),
        decreases path.len() - i,
    {
        let member = json_member(current, path[i].as_str());
        proof {
            lemma_strings_under_twice(json_strings(*doc), keys.take(i as int), seq![path@[i as int]@]);
            assert(keys.take(i as int) + seq![path@[i as int]@] =~= keys.take(i + 1));
        }
        current = member;
        i += 1;
    }
    proof {
        assert(keys.take(i as int) =~= keys);
        assert(keys + Seq::<Seq<char>>::empty() =~= keys);
    }
    match json_text(current) {
        Some(text) => Some(text.to_owned()),
        None => None,
    }
}

} // verus!
