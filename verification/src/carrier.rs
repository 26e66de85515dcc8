//! The carrier of a trace context: call metadata as a map from names to text.
//!
//! The client writes the pairs of a trace context into the metadata of a
//! request with [`set`]; the server reads them back with [`get`] and
//! [`keys`]. The map itself is tonic's `MetadataMap`. What tonic does is
//! stated here without proof, in the contracts of the private functions that
//! call it; what this module adds is proved against those contracts.
//!
//! The model of a map is [`metadata_entries`]: for each name in the map, the
//! bytes of the first value under that name. A name can have further values;
//! nothing here reads or writes them, except that writing a name leaves it
//! with one value.

use vstd::prelude::*;
use vstd::utf8::encode_utf8;
use tonic::metadata::{Ascii, KeyRef, MetadataKey, MetadataMap, MetadataValue};

verus! {

/// tonic's map of call metadata.
#[verifier::external_type_specification]
#[verifier::external_body]
pub struct ExMetadataMap(MetadataMap);

/// A metadata key for text values, as tonic made it from a text: a
/// `MetadataKey<Ascii>`. tonic bounds the parameter of that type by a trait
/// that it does not export, so the type cannot be declared as the map is;
/// this struct carries a value of it from one call to the next, unseen.
#[verifier::external_body]
pub struct AsciiKey {
    inner: MetadataKey<Ascii>,
}

/// A metadata value for text keys, as tonic made it from a text: a
/// `MetadataValue<Ascii>`, carried unseen like a key.
#[verifier::external_body]
pub struct AsciiValue {
    inner: MetadataValue<Ascii>,
}

/// A metadata value that stands in a map: a reference to a
/// `MetadataValue<Ascii>`, carried unseen like a key.
#[verifier::external_body]
pub struct StoredValue<'a> {
    inner: &'a MetadataValue<Ascii>,
}

/// What a map holds: each of its names, with the bytes of the first value
/// under that name.
pub uninterp spec fn metadata_entries(map: MetadataMap) -> Map<Seq<char>, Seq<u8>>;

/// The name of a key: what `MetadataKey::as_str` returns for it.
pub uninterp spec fn key_name(key: AsciiKey) -> Seq<char>;

/// The bytes of a value: what `MetadataValue::as_bytes` returns for it.
pub uninterp spec fn value_bytes(value: AsciiValue) -> Seq<u8>;

/// The bytes of a value in a map: what `MetadataValue::as_bytes` returns
/// for it.
pub uninterp spec fn stored_bytes(value: StoredValue<'_>) -> Seq<u8>;

/// The name of the key that `MetadataKey::<Ascii>::from_bytes` makes of the
/// bytes of a text, or `None` where it refuses the text.
pub uninterp spec fn ascii_key(text: Seq<char>) -> Option<Seq<char>>;

/// The name under which `MetadataMap::get` searches for a text, or `None`
/// where it does not search at all.
pub uninterp spec fn lookup_name(text: Seq<char>) -> Option<Seq<char>>;

/// A map with fewer names than this takes one more. tonic's map refuses to
/// grow beyond 32768 slots, and does not try to before it holds 6554 names.
pub const ROOM: usize = 4096;

/// A byte that a metadata value may hold: a tab, or any byte from 32 on but
/// 127.
pub open spec fn is_value_byte(b: u8) -> bool {
    b == 9 || (b >= 32 && b != 127)
}

/// A byte that a metadata value shows as text: a tab, or a byte from 32 to
/// 126.
pub open spec fn is_text_byte(b: u8) -> bool {
    b == 9 || (32 <= b && b < 127)
}

/// Every byte of the text is one that a metadata value may hold.
pub open spec fn is_value(text: Seq<char>) -> bool {
    forall|i: int|
        0 <= i < encode_utf8(text).len() ==> is_value_byte(#[trigger] encode_utf8(text)[i])
}

/// Every one of the bytes shows as text.
pub open spec fn is_text(bytes: Seq<u8>) -> bool {
    forall|i: int| 0 <= i < bytes.len() ==> is_text_byte(#[trigger] bytes[i])
}

/// The text of bytes that all show as text: one character for each byte.
pub open spec fn text_of(bytes: Seq<u8>) -> Seq<char> {
    Seq::new(bytes.len(), |i: int| bytes[i] as char)
}

/// A search under `name` finds something in the entries.
pub open spec fn finds(entries: Map<Seq<char>, Seq<u8>>, name: Option<Seq<char>>) -> bool {
    name is Some && entries.contains_key(name->Some_0)
}

/// What a search under `name` finds in the entries.
pub open spec fn found(entries: Map<Seq<char>, Seq<u8>>, name: Option<Seq<char>>) -> Seq<u8>
    recommends
        finds(entries, name),
{
    entries[name->Some_0]
}

/// The map has room for one more name.
pub open spec fn has_room(map: MetadataMap) -> bool {
    metadata_entries(map).len() < ROOM
}

/// `MetadataKey::<Ascii>::from_bytes`, on the bytes of the text. Whether
/// tonic accepts the text as a key, and the name of the key, depend on the
/// text alone. A text that it accepts is later searched for under that name.
#[verifier::external_body]
fn parse_key(text: &str) -> (key: Option<AsciiKey>)
    ensures
        key is Some <==> ascii_key(text@) is Some,
        key is Some ==> ascii_key(text@) == Some(key_name(key->Some_0)),
        key is Some ==> lookup_name(text@) == Some(key_name(key->Some_0)),
{
    MetadataKey::from_bytes(text.as_bytes()).ok().map(|inner| AsciiKey { inner })
}

/// `MetadataValue::<Ascii>::try_from`, on a string. tonic accepts the string
/// where each of its bytes is one that a value may hold, and the value then
/// holds the bytes of the string.
#[verifier::external_body]
fn parse_value(text: &String) -> (value: Option<AsciiValue>)
    ensures
        value is Some <==> is_value(text@),
        value is Some ==> value_bytes(value->Some_0) == encode_utf8(text@),
{
    MetadataValue::try_from(text).ok().map(|inner| AsciiValue { inner })
}

/// `MetadataMap::insert`. The name of the key then has the value as its one
/// value; every other name keeps what it had. tonic panics where the map
/// cannot grow any more, which a map with room never has to.
#[verifier::external_body]
fn insert(map: &mut MetadataMap, key: AsciiKey, value: AsciiValue)
    requires
        has_room(*old(map)),
    ensures
        metadata_entries(*final(map)) == metadata_entries(*old(map)).insert(
            key_name(key),
            value_bytes(value),
        ),
{
    map.insert(key.inner, value.inner);
}

/// `MetadataMap::get`, with a text as the key. It finds the first value
/// under the name that it searches for.
#[verifier::external_body]
fn lookup<'a>(map: &'a MetadataMap, key: &str) -> (value: Option<StoredValue<'a>>)
    ensures
        value is Some <==> finds(metadata_entries(*map), lookup_name(key@)),
        value is Some ==> stored_bytes(value->Some_0) == found(
            metadata_entries(*map),
            lookup_name(key@),
        ),
{
    map.get(key).map(|inner| StoredValue { inner })
}

/// `MetadataValue::to_str`. It gives the value as text where all its bytes
/// show as text, one character for each byte.
#[verifier::external_body]
fn to_text<'a>(value: StoredValue<'a>) -> (text: Option<&'a str>)
    ensures
        text is Some <==> is_text(stored_bytes(value)),
        text is Some ==> text->Some_0@ == text_of(stored_bytes(value)),
{
    value.inner.to_str().ok()
}

/// `MetadataMap::keys`, each key as its name. Every name of the map comes
/// once.
#[verifier::external_body]
fn key_names<'a>(map: &'a MetadataMap) -> (names: Vec<&'a str>)
    ensures
        names@.map_values(|name: &str| name@).no_duplicates(),
        names@.map_values(|name: &str| name@).to_set() == metadata_entries(*map).dom(),
{
    map.keys().map(
        |key|
            match key {
                KeyRef::Ascii(k) => k.as_str(),
                KeyRef::Binary(k) => k.as_str(),
            },
    ).collect()
}

/// `MetadataMap::keys_len`: the number of names in the map.
#[verifier::external_body]
fn keys_len(map: &MetadataMap) -> (n: usize)
    ensures
        n == metadata_entries(*map).len(),
{
    map.keys_len()
}

/// What a map holds after the pair of `key` and `value` was offered to it:
/// the pair, under the name of the key, where the key and the value are both
/// accepted; else what it held before.
pub open spec fn entries_after_set(
    entries: Map<Seq<char>, Seq<u8>>,
    key: Seq<char>,
    value: Seq<char>,
) -> Map<Seq<char>, Seq<u8>> {
    if ascii_key(key) is Some && is_value(value) {
        entries.insert(ascii_key(key)->Some_0, encode_utf8(value))
    } else {
        entries
    }
}

/// What reading `key` from a map gives: the text of the first value under
/// the name that is searched for, where there is one and it shows as text.
pub open spec fn text_at(entries: Map<Seq<char>, Seq<u8>>, key: Seq<char>) -> Option<Seq<char>> {
    if finds(entries, lookup_name(key)) && is_text(found(entries, lookup_name(key))) {
        Some(text_of(found(entries, lookup_name(key))))
    } else {
        None
    }
}

/// The view of a text that may be missing.
pub open spec fn text_view(text: Option<&str>) -> Option<Seq<char>> {
    match text {
        Some(t) => Some(t@),
        None => None,
    }
}

/// The text is made of characters that show as text: tabs, and the
/// characters from the space to the tilde.
pub open spec fn is_printable(text: Seq<char>) -> bool {
    forall|i: int|
        0 <= i < text.len() ==> (#[trigger] text[i] == '\t' || (' ' <= text[i] && text[i] <= '~'))
}

/// The bytes of a printable text are its characters, one byte each: they
/// may stand in a value, they show as text, and the text they show is the
/// text itself.
pub proof fn lemma_printable_text_is_kept(text: Seq<char>)
    requires
        is_printable(text),
    ensures
        is_value(text),
        is_text(encode_utf8(text)),
        text_of(encode_utf8(text)) == text,
{
    vstd::utf8::is_ascii_chars_encode_utf8(text);
    assert(text_of(encode_utf8(text)) =~= text);
}

/// Writes the pair into the map, where the key and the value are both
/// accepted; a pair with a key or a value that is not accepted is dropped.
///
/// A printable value that was written under an accepted key is what [`get`]
/// then reads under that key.
pub fn set(map: &mut MetadataMap, key: &str, value: String)
    requires
        has_room(*old(map)),
    ensures
        metadata_entries(*final(map)) == entries_after_set(
            metadata_entries(*old(map)),
            key@,
            value@,
        ),
        ascii_key(key@) is Some && is_printable(value@) ==> text_at(
            metadata_entries(*final(map)),
            key@,
        ) == Some(value@),
{
    proof {
        if is_printable(value@) {
            lemma_printable_text_is_kept(value@);
        }
    }
    if let Some(name) = parse_key(key) {
        if let Some(val) = parse_value(&value) {
            insert(map, name, val);
        }
    }
}

/// Writes the pair into the map as [`set`] does, where the map has room, and
/// says whether it had.
pub fn try_set(map: &mut MetadataMap, key: &str, value: String) -> (room: bool)
    ensures
        room == has_room(*old(map)),
        room ==> metadata_entries(*final(map)) == entries_after_set(
            metadata_entries(*old(map)),
            key@,
            value@,
        ),
        room && ascii_key(key@) is Some && is_printable(value@) ==> text_at(
            metadata_entries(*final(map)),
            key@,
        ) == Some(value@),
        !room ==> metadata_entries(*final(map)) == metadata_entries(*old(map)),
{
    if keys_len(map) < ROOM {
        set(map, key, value);
        true
    } else {
        false
    }
}

/// Reads the text under a key.
pub fn get<'a>(map: &'a MetadataMap, key: &str) -> (text: Option<&'a str>)
    ensures
        text_view(text) == text_at(metadata_entries(*map), key@),
{
    match lookup(map, key) {
        Some(value) => to_text(value),
        None => None,
    }
}

/// The names in the map, each once.
pub fn keys<'a>(map: &'a MetadataMap) -> (names: Vec<&'a str>)
    ensures
        names@.map_values(|name: &str| name@).no_duplicates(),
        names@.map_values(|name: &str| name@).to_set() == metadata_entries(*map).dom(),
{
    key_names(map)
}

} // verus!
