//! The description of a packaging project, read from the manifest of its
//! package.

use vstd::prelude::*;
use vstd::string::*;
use vstd::utf8::{decode_utf8, valid_utf8};
use base64::Engine;
use crate::text::{chars_of, string_of, starts_with, texts, truncate, truncated};
use crate::text::fields::{lines, lines_of};
use crate::text::search::{append, join, joined, remove_all, without};
use crate::text::trim::{trim, trimmed};
use crate::types::File;

verus! {

broadcast use vstd::string::group_string_axioms;

/// How many package names a description lists at most.
pub const MAX_PACKAGE_NAMES: usize = 16;

/// How many characters a description has at most.
pub const MAX_DESCRIPTION_LENGTH: usize = 2000;

/// What a line says under `key`: where the line, trimmed, begins with
/// `key`, the rest of it, with every occurrence of `key` taken out.
pub open spec fn entry_of(key: Seq<char>) -> spec_fn(Seq<char>) -> Option<Seq<char>> {
    |line: Seq<char>|
        if key.is_prefix_of(trimmed(line)) {
            Some(without(trimmed(line), key))
        } else {
            None
        }
}

/// The first of `entries` that is not empty, or the empty text.
pub open spec fn first_filled(entries: Seq<Seq<char>>) -> Seq<char>
    decreases entries.len(),
{
    if entries.len() == 0 {
        Seq::empty()
    } else if first_filled(entries.drop_last()).len() > 0 {
        first_filled(entries.drop_last())
    } else {
        entries.last()
    }
}

/// The names that a description lists: the first sixteen, and an ellipsis
/// where there are more.
pub open spec fn listed_names(names: Seq<Seq<char>>) -> Seq<Seq<char>> {
    if names.len() > MAX_PACKAGE_NAMES {
        names.take(MAX_PACKAGE_NAMES as int).push("..."@)
    } else {
        names
    }
}

/// The description that a manifest gives, at full length: its first
/// `pkgdesc`, an empty line, and the names of its packages.
pub open spec fn full_description(srcinfo: Seq<char>) -> Seq<char> {
    let found = lines_of(srcinfo);
    let description = first_filled(found.filter_map(entry_of("pkgdesc = "@)));
    let names = found.filter_map(entry_of("pkgname = "@));
    description + "\n\npackages: "@ + joined(listed_names(names), " "@)
}

/// The description that a manifest gives: the full one, cut at two thousand
/// characters.
pub open spec fn package_description(srcinfo: Seq<char>) -> Seq<char> {
    truncated(full_description(srcinfo), MAX_DESCRIPTION_LENGTH as nat)
}

/// What the lines of a manifest say under `key`, in order.
pub fn entries(found: &Vec<Vec<char>>, key: &Vec<char>) -> (values: Vec<Vec<char>>)
    ensures
        texts(values@) == texts(found@).filter_map(entry_of(key@)),
{
    let mut values: Vec<Vec<char>> = Vec::new();
    let mut i: usize = 0;
    while i < found.len()
        invariant
            i <= found.len(),
            texts(values@) == texts(found@).take(i as int).filter_map(entry_of(key@)),
        decreases found.len() - i,
    {
        let line = trim(&found[i]);
        if starts_with(&line, key) {
            let value = remove_all(&line, key);
            values.push(value);
        }
        i += 1;
        proof {
            let upto = texts(found@).take(i as int);
            assert(upto.drop_last() =~= texts(found@).take(i - 1));
        }
    }
    assert(texts(found@).take(found@.len() as int) =~= texts(found@));
    values
}

/// The first of `values` that is not empty.
fn first_filled_of(values: &Vec<Vec<char>>) -> (first: Vec<char>)
    ensures
        first@ == first_filled(texts(values@)),
{
    let mut first: Vec<char> = Vec::new();
    let mut i: usize = 0;
    while i < values.len()
        invariant
            i <= values.len(),
            first@ == first_filled(texts(values@).take(i as int)),
        decreases values.len() - i,
    {
        if first.len() == 0 {
            first = Vec::new();
            append(&mut first, &values[i]);
        }
        i += 1;
        proof {
            let upto = texts(values@).take(i as int);
            assert(upto.drop_last() =~= texts(values@).take(i - 1));
        }
    }
    assert(texts(values@).take(values@.len() as int) =~= texts(values@));
    first
}

/// The names that a description lists.
fn list_names(names: Vec<Vec<char>>) -> (listed: Vec<Vec<char>>)
    ensures
        texts(listed@) == listed_names(texts(names@)),
{
    if names.len() <= MAX_PACKAGE_NAMES {
        return names;
    }
    let mut listed: Vec<Vec<char>> = Vec::new();
    let mut i: usize = 0;
    while i < MAX_PACKAGE_NAMES
        invariant
            i <= MAX_PACKAGE_NAMES < names.len(),
            listed@.len() == i,
            forall|k: int| 0 <= k < i ==> (#[trigger] listed@[k])@ == names@[k]@,
        decreases MAX_PACKAGE_NAMES - i,
    {
        let mut name: Vec<char> = Vec::new();
        append(&mut name, &names[i]);
        listed.push(name);
        i += 1;
    }
    listed.push(chars_of("..."));
    listed
}

/// The description that the manifest `srcinfo` gives.
pub fn describe_packages(srcinfo: &str) -> (description: String)
    ensures
        description@ == package_description(srcinfo@),
{
    let found = lines(&chars_of(srcinfo));
    let described = entries(&found, &chars_of("pkgdesc = "));
    let names = entries(&found, &chars_of("pkgname = "));
    let mut whole = first_filled_of(&described);
    append(&mut whole, &chars_of("\n\npackages: "));
    let listed = list_names(names);
    append(&mut whole, &join(&listed, &chars_of(" ")));
    string_of(&truncate(whole, MAX_DESCRIPTION_LENGTH))
}

/// What can be wrong with the content of a manifest.
#[derive(Debug, Clone, Copy, PartialEq, Eq, Structural)]
pub enum DescriptionError {
    /// The content is not base64 text.
    InvalidBase64,
    /// The content does not decode to UTF-8 text.
    InvalidUtf8,
}

/// Why the `base64` crate could not decode a text. The library looks at
/// nothing in it.
#[verifier::external_type_specification]
#[verifier::external_body]
pub struct ExDecodeError(base64::DecodeError);

/// The bytes that a text stands for in base64, with the standard alphabet
/// and padding, as the `base64` crate's `STANDARD` engine decodes it; nothing
/// where the engine refuses the text.
pub uninterp spec fn base64_decoded(content: Seq<char>) -> Option<Seq<u8>>;

/// Decodes base64 text, through `Engine::decode` of the `base64` crate's
/// `STANDARD` engine. The result is named by `base64_decoded`: the bytes
/// where the engine accepts the text, an error where it does not.
#[verifier::external_body]
fn decode_base64(content: &str) -> (decoded: Result<Vec<u8>, base64::DecodeError>)
    ensures
        decoded matches Ok(bytes) ==> base64_decoded(content@) == Some(bytes@),
        decoded is Err ==> base64_decoded(content@) is None,
{
    base64::engine::general_purpose::STANDARD.decode(content)
}

/// Reads bytes as UTF-8 text, through `String::from_utf8`: the text that
/// the bytes encode, and nothing where they are not valid UTF-8.
#[verifier::external_body]
fn utf8_text(bytes: Vec<u8>) -> (text: Option<String>)
    ensures
        text is Some == valid_utf8(bytes@),
        text matches Some(read) ==> read@ == decode_utf8(bytes@),
{
    String::from_utf8(bytes).ok()
}

/// The description that the decoded content of a manifest gives: an error
/// where the content was no base64 text or the bytes are no UTF-8 text.
pub open spec fn description_of_decoded(
    decoded: Option<Seq<u8>>,
) -> Result<Seq<char>, DescriptionError> {
    match decoded {
        None => Err(DescriptionError::InvalidBase64),
        Some(bytes) => if valid_utf8(bytes) {
            Ok(package_description(decode_utf8(bytes)))
        } else {
            Err(DescriptionError::InvalidUtf8)
        },
    }
}

/// A description or an error, with the description as text.
pub open spec fn outcome(
    description: Result<String, DescriptionError>,
) -> Result<Seq<char>, DescriptionError> {
    match description {
        Ok(text) => Ok(text@),
        Err(error) => Err(error),
    }
}

/// The description that a packaging project should have: empty where it has
/// no manifest, else what the manifest's content gives.
pub open spec fn expected_description(srcinfo: Option<&File>) -> Result<Seq<char>, DescriptionError> {
    match srcinfo {
        None => Ok(Seq::empty()),
        Some(file) => description_of_decoded(base64_decoded(file.content@)),
    }
}

/// The description that the bytes of a manifest give.
pub fn describe_manifest(bytes: Vec<u8>) -> (description: Result<String, DescriptionError>)
    ensures
        outcome(description) == description_of_decoded(Some(bytes@)),
{
    match utf8_text(bytes) {
        Some(srcinfo) => Ok(describe_packages(srcinfo.as_str())),
        None => Err(DescriptionError::InvalidUtf8),
    }
}

/// The description that a packaging project should have. `srcinfo` is the
/// manifest on the project's main branch, with its content in base64; where
/// the project has none, the description is empty.
pub fn project_description_from_packaging_srcinfo(
    srcinfo: Option<&File>,
) -> (description: Result<String, DescriptionError>)
    ensures
        outcome(description) == expected_description(srcinfo),
{
    match srcinfo {
        None => Ok(String::new()),
        Some(file) => match decode_base64(file.content.as_str()) {
            Ok(bytes) => describe_manifest(bytes),
            Err(_) => Err(DescriptionError::InvalidBase64),
        },
    }
}

} // verus!
