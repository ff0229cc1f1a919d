pub use bson::Uuid;
use crate::helpers::text::push_char;
use std::collections::hash_map::DefaultHasher;
use std::hash::{Hash, Hasher};
use vstd::prelude::*;
use vstd::string::StringSliceAdditionalSpecFns;
use vstd::utf8::encode_utf8;

verus! {

/// The bytes of a 16-byte text, as the bytes of an identifier.
pub fn to_be_bytes(hash: &str) -> (res: [u8; 16])
    requires
        hash.spec_bytes().len() == 16,
    ensures
        res@ == hash.spec_bytes(),
{
    let b = hash.as_bytes();
    let res: [u8; 16] = [
        b[0], b[1], b[2], b[3], b[4], b[5], b[6], b[7],
        b[8], b[9], b[10], b[11], b[12], b[13], b[14], b[15],
    ];
    assert(res@ =~= hash.spec_bytes());
    res
}

/// The character of a decimal digit.
pub open spec fn digit_char(d: nat) -> char {
    ((d + 48) as u32) as char
}

/// The decimal representation of `n`, most significant digit first.
pub open spec fn decimal(n: nat) -> Seq<char>
    decreases n,
{
    if n < 10 {
        seq![digit_char(n)]
    } else {
        decimal(n / 10) + seq![digit_char(n % 10)]
    }
}

/// The first 16 characters of the decimal representation of `n` (all of it when shorter).
pub open spec fn spec_hash_text(n: nat) -> Seq<char> {
    if decimal(n).len() <= 16 {
        decimal(n)
    } else {
        decimal(n).take(16)
    }
}

fn digit(d: u64) -> (res: char)
    requires
        d < 10,
    ensures
        res == digit_char(d as nat),
{
    match d {
        0 => '0',
        1 => '1',
        2 => '2',
        3 => '3',
        4 => '4',
        5 => '5',
        6 => '6',
        7 => '7',
        8 => '8',
        _ => '9',
    }
}

fn decimal_digits(n: u64) -> (res: Vec<char>)
    ensures
        res@ == decimal(n as nat),
    decreases n,
{
    if n < 10 {
        let mut v: Vec<char> = Vec::new();
        v.push(digit(n));
        assert(v@ =~= decimal(n as nat));
        v
    } else {
        let mut v = decimal_digits(n / 10);
        v.push(digit(n % 10));
        assert(v@ =~= decimal(n as nat));
        v
    }
}

/// The text of a hash: the first 16 digits of its decimal representation.
pub fn hash_text(hash: u64) -> (res: String)
    ensures
        res@ == spec_hash_text(hash as nat),
{
    let digits = decimal_digits(hash);
    let n: usize = if digits.len() <= 16 { digits.len() } else { 16 };
    let mut out = String::new();
    let mut i: usize = 0;
    while i < n
        invariant
            n <= digits.len(),
            i <= n,
            out@ == digits@.take(i as int),
        decreases n - i,
    {
        push_char(&mut out, digits[i]);
        assert(digits@.take(i + 1) =~= digits@.take(i as int).push(digits@[i as int]));
        i = i + 1;
    }
    if digits.len() <= 16 {
        assert(out@ =~= digits@);
    }
    out
}

/// Calls `Hash::hash` of a slice of texts, feeding them into `state`. Nothing is claimed of
/// the new state.
#[verifier::external_body]
fn feed_texts(seed: &[&String], state: &mut DefaultHasher) {
    seed.hash(state)
}

/// The text of the standard hash of `seed`: the first 16 digits of the hash's decimal
/// representation.
pub fn calculate_hash(seed: &[&String]) -> (res: String)
    ensures
        exists|h: u64| res@ == spec_hash_text(h as nat),
{
    let mut state = DefaultHasher::new();
    feed_texts(seed, &mut state);
    let h = state.finish();
    hash_text(h)
}

/// The identifier type of the database driver.
#[verifier::external_type_specification]
#[verifier::external_body]
pub struct ExUuid(bson::Uuid);

/// The identifier made of 16 bytes.
pub uninterp spec fn uuid_of_bytes(bytes: Seq<u8>) -> Uuid;

/// The identifier that a text reads as, if it is one.
pub uninterp spec fn uuid_of_text(text: Seq<char>) -> Option<Uuid>;

/// Calls `bson::Uuid::from_bytes`, which builds the identifier whose bytes are `bytes`; the
/// result is named `uuid_of_bytes` of the bytes.
#[verifier::external_body]
fn uuid_from_bytes(bytes: [u8; 16]) -> (res: Uuid)
    ensures
        res == uuid_of_bytes(bytes@),
{
    Uuid::from_bytes(bytes)
}

/// Calls `bson::Uuid::parse_str`, which reads an identifier written in hexadecimal; the
/// identifier read, or `None` where the text is not one, is named `uuid_of_text` of the
/// text.
#[verifier::external_body]
fn parse_uuid(text: &str) -> (res: Option<Uuid>)
    ensures
        res == uuid_of_text(text@),
{
    match Uuid::parse_str(text) {
        Ok(id) => Some(id),
        Err(_) => None,
    }
}

/// The identifier made of the bytes of a hash text, where it has exactly 16 of them.
pub open spec fn spec_uuid_from_text(text: Seq<char>) -> Option<Uuid> {
    if encode_utf8(text).len() == 16 {
        Some(uuid_of_bytes(encode_utf8(text)))
    } else {
        None
    }
}

/// The identifier made of the bytes of `hash`, where it has exactly 16 of them; `None`
/// otherwise.
pub fn uuid_from_hash_text(hash: &String) -> (res: Option<Uuid>)
    ensures
        res == spec_uuid_from_text(hash@),
{
    let text = hash.as_str();
    if text.as_bytes().len() == 16 {
        Some(uuid_from_bytes(to_be_bytes(text)))
    } else {
        None
    }
}

/// An identifier derived from six seed texts: the bytes of the text of their standard
/// hash (see `calculate_hash`). `None` where that text is shorter than 16 digits.
pub fn generate(seed: [&String; 6]) -> (res: Option<Uuid>)
    ensures
        exists|h: u64| res == spec_uuid_from_text(#[trigger] spec_hash_text(h as nat)),
{
    let hash = calculate_hash(seed.as_slice());
    uuid_from_hash_text(&hash)
}

/// The identifier written in `uuid`, which must be one.
pub fn from_str(uuid: String) -> (res: Uuid)
    requires
        uuid_of_text(uuid@) is Some,
    ensures
        uuid_of_text(uuid@) == Some(res),
{
    match parse_uuid(uuid.as_str()) {
        Some(id) => id,
        None => uuid_from_bytes([0u8; 16]),
    }
}

/// The identifier written in `uuid`, or `None` where it is not one.
pub fn try_from_str(uuid: String) -> (res: Option<Uuid>)
    ensures
        res == uuid_of_text(uuid@),
{
    match parse_uuid(uuid.as_str()) {
        Some(_) => Some(from_str(uuid)),
        None => None,
    }
}

} // verus!
