//! Digests and text encodings, as other crates compute them.
use vstd::prelude::*;

verus! {

/// The SHA-256 digest of a byte string.
pub uninterp spec fn sha256(data: Seq<u8>) -> Seq<u8>;

/// `solana_sha256_hasher::hash`, as bytes: the SHA-256 digest of `data`.
#[verifier::external_body]
pub(crate) fn sha256_digest(data: &[u8]) -> (digest: [u8; 32])
    ensures
        digest@ == sha256(data@),
{
    solana_sha256_hasher::hash(data).to_bytes()
}

/// The digits of base58, in order of their value.
pub const BASE58_DIGITS: &'static str =
    "123456789ABCDEFGHJKLMNPQRSTUVWXYZabcdefghijkmnopqrstuvwxyz";

/// The number of zero bytes that a byte string begins with.
pub open spec fn leading_zeros(data: Seq<u8>) -> nat
    decreases data.len(),
{
    if data.len() > 0 && data[0] == 0 {
        1 + leading_zeros(data.skip(1))
    } else {
        0
    }
}

/// The number that a byte string stands for, the high byte first.
pub open spec fn big_endian(data: Seq<u8>) -> nat
    decreases data.len(),
{
    if data.len() == 0 {
        0
    } else {
        256 * big_endian(data.drop_last()) + data.last() as nat
    }
}

/// The base58 digits of a number, the high one first; zero has none.
pub open spec fn base58_digits(value: nat) -> Seq<char>
    decreases value,
{
    if value == 0 {
        Seq::empty()
    } else {
        base58_digits(value / 58).push(BASE58_DIGITS@[(value % 58) as int])
    }
}

/// The base58 text of a byte string: the zero digit for every zero byte it
/// begins with, then the digits of the number it stands for.
pub open spec fn base58(data: Seq<u8>) -> Seq<char> {
    Seq::new(leading_zeros(data), |i: int| BASE58_DIGITS@[0]) + base58_digits(big_endian(data))
}

/// `bs58::encode`, with the default alphabet: the base58 text of `data`.
#[verifier::external_body]
pub(crate) fn base58_text(data: &[u8]) -> (text: String)
    ensures
        text@ == base58(data@),
{
    bs58::encode(data).into_string()
}

/// The lowercase hexadecimal digit of a number below sixteen.
pub open spec fn hex_digit(value: int) -> char {
    if value < 10 {
        (48 + value) as char
    } else {
        (87 + value) as char
    }
}

/// The lowercase hexadecimal text of a byte string: two digits a byte, the
/// high one first.
pub open spec fn hex(data: Seq<u8>) -> Seq<char> {
    Seq::new(
        2 * data.len(),
        |i: int|
            if i % 2 == 0 {
                hex_digit(data[i / 2] as int / 16)
            } else {
                hex_digit(data[i / 2] as int % 16)
            },
    )
}

/// `hex::encode`: the lowercase hexadecimal text of `data`.
#[verifier::external_body]
pub(crate) fn hex_text(data: &[u8]) -> (text: String)
    ensures
        text@ == hex(data@),
{
    hex::encode(data)
}

/// The SHA-256 digest of a wire transaction in hexadecimal, by which a
/// transaction is compared from end to end.
pub fn wire_sha256(wire: &[u8]) -> (text: String)
    ensures
        text@ == hex(sha256(wire@)),
{
    let digest = sha256_digest(wire);
    hex_text(digest.as_slice())
}

/// A scalar member of a JSON object.
pub enum JsonField {
    Null,
    Bool(bool),
    Number(u64),
    Text(String),
}

/// A scalar member of a JSON object, as a mathematical value.
pub enum JsonModel {
    Null,
    Bool(bool),
    Number(u64),
    Text(Seq<char>),
}

impl View for JsonField {
    type V = JsonModel;

    open spec fn view(&self) -> JsonModel {
        match *self {
            JsonField::Null => JsonModel::Null,
            JsonField::Bool(value) => JsonModel::Bool(value),
            JsonField::Number(value) => JsonModel::Number(value),
            JsonField::Text(text) => JsonModel::Text(text@),
        }
    }
}

/// A JSON object of `serde_json`.
#[verifier::external_type_specification]
#[verifier::external_body]
#[verifier::reject_recursive_types(K)]
#[verifier::reject_recursive_types(V)]
pub struct ExJsonMap<K, V>(serde_json::Map<K, V>);

/// A JSON value of `serde_json`.
#[verifier::external_type_specification]
#[verifier::external_body]
pub struct ExJsonValue(serde_json::Value);

/// The members of a JSON object.
pub uninterp spec fn json_members(
    object: serde_json::Map<String, serde_json::Value>,
) -> Map<Seq<char>, JsonModel>;

/// The text of a JSON object with the given members.
pub uninterp spec fn json_text(members: Map<Seq<char>, JsonModel>) -> Seq<char>;

/// The members of an empty JSON object.
pub open spec fn no_members() -> Map<Seq<char>, JsonModel> {
    Map::empty()
}

/// `serde_json::Map::new`: an object without members.
#[verifier::external_body]
pub(crate) fn json_object() -> (object: serde_json::Map<String, serde_json::Value>)
    ensures
        json_members(object) == no_members(),
{
    serde_json::Map::new()
}

/// `serde_json::Map::insert`: sets a member.
#[verifier::external_body]
pub(crate) fn json_insert(
    object: &mut serde_json::Map<String, serde_json::Value>,
    key: &str,
    field: JsonField,
)
    ensures
        json_members(*final(object)) == json_members(*old(object)).insert(key@, field@),
{
    let value = match field {
        JsonField::Null => serde_json::Value::Null,
        JsonField::Bool(value) => serde_json::Value::Bool(value),
        JsonField::Number(value) => serde_json::Value::from(value),
        JsonField::Text(text) => serde_json::Value::String(text),
    };
    object.insert(key.to_string(), value);
}

/// A text holds no control character below the space, and so no line break.
pub open spec fn is_one_line(text: Seq<char>) -> bool {
    forall|i: int| 0 <= i < text.len() ==> #[trigger] text[i] >= ' '
}

/// `serde_json::Value::to_string` of an object: its compact text, which depends
/// on its members alone. Control characters below the space are escaped, and
/// nothing is written between the members but commas.
#[verifier::external_body]
pub(crate) fn json_line(object: serde_json::Map<String, serde_json::Value>) -> (text: String)
    ensures
        text@ == json_text(json_members(object)),
        is_one_line(text@),
{
    serde_json::Value::Object(object).to_string()
}

/// An optional text as a member of a JSON object.
pub open spec fn json_of_text(text: Option<Seq<char>>) -> JsonModel {
    match text {
        Some(text) => JsonModel::Text(text),
        None => JsonModel::Null,
    }
}

/// An optional flag as a member of a JSON object.
pub open spec fn json_of_flag(flag: Option<bool>) -> JsonModel {
    match flag {
        Some(flag) => JsonModel::Bool(flag),
        None => JsonModel::Null,
    }
}

/// Turns an optional text into a member of a JSON object.
pub fn text_field(text: &Option<String>) -> (field: JsonField)
    ensures
        field@ == json_of_text(crate::config::text_of(*text)),
{
    match text {
        Some(text) => JsonField::Text(text.clone()),
        None => JsonField::Null,
    }
}

/// Turns an optional flag into a member of a JSON object.
pub fn flag_field(flag: Option<bool>) -> (field: JsonField)
    ensures
        field@ == json_of_flag(flag),
{
    match flag {
        Some(flag) => JsonField::Bool(flag),
        None => JsonField::Null,
    }
}

/// A missing text or flag is null, and one that is there is itself.
pub proof fn law_optional_members_are_kept(text: Seq<char>, flag: bool)
    ensures
        json_of_text(None) == JsonModel::Null,
        json_of_text(Some(text)) == JsonModel::Text(text),
        json_of_flag(None) == JsonModel::Null,
        json_of_flag(Some(flag)) == JsonModel::Bool(flag),
{
}

/// A member is its value.
pub proof fn law_members_are_their_values(number: u64, flag: bool, text: String)
    ensures
        JsonField::Null@ == JsonModel::Null,
        JsonField::Bool(flag)@ == JsonModel::Bool(flag),
        JsonField::Number(number)@ == JsonModel::Number(number),
        JsonField::Text(text)@ == JsonModel::Text(text@),
{
}

} // verus!
