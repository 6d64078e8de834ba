//! Call metadata: the header names and values of a call, kept in tonic's
//! `MetadataMap`, and the rules by which a name or a value is accepted.

use tonic::metadata::AsciiMetadataKey;
use tonic::metadata::AsciiMetadataValue;
use tonic::metadata::MetadataMap;
use vstd::prelude::*;
use vstd::utf8::encode_utf8;

verus! {

/// tonic's `MetadataMap`, opaque to the verifier; what it holds is
/// `metadata_entries`.
#[verifier::external_type_specification]
#[verifier::external_body]
pub struct ExMetadataMap(tonic::metadata::MetadataMap);

/// What a metadata map holds: each header name, in its lower-case form, with
/// the bytes of its values in the order in which they were added.
pub type Entries = Map<Seq<char>, Seq<Seq<u8>>>;

/// The contents of a `MetadataMap`.
pub uninterp spec fn metadata_entries(m: MetadataMap) -> Map<Seq<char>, Seq<Seq<u8>>>;

/// The largest number of names that a metadata map may hold for the router to
/// add to it. The header map in which tonic keeps the entries cannot grow its
/// index beyond 32768 slots, and a map of this size is never asked to.
pub const MAX_NAMES: usize = 4096;

/// The characters of a header name: letters, digits and the punctuation of an
/// HTTP token.
pub open spec fn is_name_char(c: char) -> bool {
    ||| 'a' <= c <= 'z'
    ||| 'A' <= c <= 'Z'
    ||| '0' <= c <= '9'
    ||| c == '!' || c == '#' || c == '$' || c == '%' || c == '&' || c == '\''
    ||| c == '*' || c == '+' || c == '-' || c == '.' || c == '^' || c == '_'
    ||| c == '`' || c == '|' || c == '~'
}

/// An upper-case letter becomes its lower-case letter; any other character stays.
pub open spec fn lower_char(c: char) -> char {
    if 'A' <= c <= 'Z' {
        ((c as u32) + 32) as char
    } else {
        c
    }
}

/// A header name is accepted when it has between 1 and 65535 characters, all
/// of them name characters.
pub open spec fn name_valid(key: Seq<char>) -> bool {
    &&& 1 <= key.len() <= 65535
    &&& forall|i: int| 0 <= i < key.len() ==> is_name_char(#[trigger] key[i])
}

/// The form under which a name is stored and looked up: all in lower case.
pub open spec fn canonical_name(key: Seq<char>) -> Seq<char> {
    Seq::new(key.len(), |i: int| lower_char(key[i]))
}

/// Names that end in `-bin` are kept for binary values.
pub open spec fn is_binary_name(name: Seq<char>) -> bool {
    &&& name.len() >= 4
    &&& name[name.len() - 4] == '-'
    &&& name[name.len() - 3] == 'b'
    &&& name[name.len() - 2] == 'i'
    &&& name[name.len() - 1] == 'n'
}

/// A name under which a text value can be stored: a header name that is not
/// kept for binary values.
pub open spec fn text_key_valid(key: Seq<char>) -> bool {
    name_valid(key) && !is_binary_name(canonical_name(key))
}

/// The characters of a text value: the tab, and everything from the space
/// upwards but the delete character. Characters beyond ASCII are among them.
pub open spec fn is_value_char(c: char) -> bool {
    (c >= ' ' && c != '\x7f') || c == '\t'
}

/// A text value is accepted when all its characters are value characters.
pub open spec fn text_value_valid(value: Seq<char>) -> bool {
    forall|i: int| 0 <= i < value.len() ==> is_value_char(#[trigger] value[i])
}

/// Whether `entries` has a value under `key`, looked up without regard to the
/// case of its letters. A key that is no header name is under no entry.
pub open spec fn has_entry(entries: Entries, key: Seq<char>) -> bool {
    name_valid(key) && entries.dom().contains(canonical_name(key))
}

/// Whether `entries` holds exactly `n` names.
pub open spec fn holds_names(entries: Entries, n: nat) -> bool {
    entries.dom().finite() && entries.dom().len() == n
}

/// Whether the router may still add a name to `entries`.
pub open spec fn has_room(entries: Entries) -> bool {
    entries.dom().finite() && entries.dom().len() <= MAX_NAMES
}

/// `entries` after `value` has been stored under `key`, in place of whatever
/// stood there: the name is stored in lower case, the value as its UTF-8
/// bytes.
pub open spec fn with_text(entries: Entries, key: Seq<char>, value: Seq<char>) -> Entries {
    entries.insert(canonical_name(key), seq![encode_utf8(value)])
}

/// `MetadataMap::contains_key` with a string key: true exactly when the key is
/// a header name and the map holds a value under its lower-case form.
#[verifier::external_body]
pub(crate) fn contains_key(m: &MetadataMap, key: &str) -> (found: bool)
    ensures
        found == has_entry(metadata_entries(*m), key@),
{
    m.contains_key(key)
}

/// `MetadataMap::keys_len`: the number of names in the map, which is finite.
#[verifier::external_body]
pub(crate) fn keys_len(m: &MetadataMap) -> (n: usize)
    ensures
        holds_names(metadata_entries(*m), n as nat),
{
    m.keys_len()
}

/// `MetadataKey::<Ascii>::from_bytes`: succeeds exactly on a header name
/// whose lower-case form does not end in `-bin`.
#[verifier::external_body]
pub(crate) fn is_text_key(key: &str) -> (ok: bool)
    ensures
        ok == text_key_valid(key@),
{
    AsciiMetadataKey::from_bytes(key.as_bytes()).is_ok()
}

/// `MetadataValue::<Ascii>::from_str`: succeeds exactly on a string none of
/// whose bytes is a control character other than the tab, which is to say on
/// a string of value characters.
#[verifier::external_body]
pub(crate) fn is_text_value(value: &str) -> (ok: bool)
    ensures
        ok == text_value_valid(value@),
{
    value.parse::<AsciiMetadataValue>().is_ok()
}

/// `MetadataMap::insert` with a key from `MetadataKey::<Ascii>::from_bytes`
/// and a value from `MetadataValue::<Ascii>::from_str`: the value replaces all
/// values of that name, and no other name changes. `insert` panics when the
/// header map underneath would have to grow its index beyond 32768 slots;
/// with at most `MAX_NAMES` names in the map it never has to.
#[verifier::external_body]
pub(crate) fn insert_text(m: &mut MetadataMap, key: &str, value: &str)
    requires
        text_key_valid(key@),
        text_value_valid(value@),
        has_room(metadata_entries(*old(m))),
    ensures
        metadata_entries(*final(m)) == with_text(metadata_entries(*old(m)), key@, value@),
{
    let parsed_key = AsciiMetadataKey::from_bytes(key.as_bytes());
    let parsed_value = value.parse::<AsciiMetadataValue>();
    if let (Ok(k), Ok(v)) = (parsed_key, parsed_value) {
        m.insert(k, v);
    }
}

/// Whether the router may still add a name to `metadata`.
pub fn within_limit(metadata: &MetadataMap) -> (fits: bool)
    ensures
        fits == has_room(metadata_entries(*metadata)),
{
    keys_len(metadata) <= MAX_NAMES
}

} // verus!
