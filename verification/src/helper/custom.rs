//! The custom helpers: bounded numerics, identifiers, the shared index,
//! timestamps, random choice and paragraphs.
//!
//! The logic of each helper — argument reading, defaulting, range checks,
//! the use of a drawn number — is verified; only the draws themselves and
//! the identifier formats come from outside crates, through the trusted
//! wrappers at the end of this module.
use vstd::prelude::*;

verus! {

use vstd::string::StringExecFns;

use crate::error::Error;
use crate::helper::HelperKind;
use crate::session::SharedIndex;
use crate::value::Args;
use crate::value::PlainValue;
use crate::value::lookup_spec;
use crate::value::opt_i64_spec;
use crate::value::opt_u64_spec;

/// A lowercase hexadecimal digit.
pub open spec fn is_lower_hex_digit(c: char) -> bool {
    ('0' <= c && c <= '9') || ('a' <= c && c <= 'f')
}

/// Every character of `s` is a lowercase hexadecimal digit.
pub open spec fn all_lower_hex(s: Seq<char>) -> bool {
    forall|i: int| 0 <= i < s.len() ==> is_lower_hex_digit(s[i])
}

/// The canonical hyphenated form of a version-4 UUID: 36 characters in
/// groups of 8, 4, 4, 4 and 12 lowercase hexadecimal digits separated by
/// hyphens, with the version nibble `4` and a variant nibble of 8, 9, a
/// or b.
pub open spec fn uuid_v4_form(s: Seq<char>) -> bool {
    &&& s.len() == 36
    &&& forall|i: int|
        0 <= i < 36 ==> if i == 8 || i == 13 || i == 18 || i == 23 {
            s[i] == '-'
        } else {
            is_lower_hex_digit(s[i])
        }
    &&& s[14] == '4'
    &&& (s[19] == '8' || s[19] == '9' || s[19] == 'a' || s[19] == 'b')
}

/// A character of the url-safe identifier alphabet: letters, digits,
/// underscore and hyphen.
pub open spec fn is_url_safe_char(c: char) -> bool {
    ||| c == '_'
    ||| c == '-'
    ||| '0' <= c && c <= '9'
    ||| 'a' <= c && c <= 'z'
    ||| 'A' <= c && c <= 'Z'
}

/// Every character of `s` is from the url-safe identifier alphabet.
pub open spec fn all_url_safe(s: Seq<char>) -> bool {
    forall|i: int| 0 <= i < s.len() ==> is_url_safe_char(s[i])
}

/// What `integer` returns: with the resolved lower bound above the upper
/// bound the exact range error, otherwise a signed integer within the
/// resolved inclusive bounds. Absent bounds default to the type's extremes.
pub open spec fn integer_spec(a: Seq<(String, PlainValue)>, r: Result<PlainValue, Error>) -> bool {
    let lo = opt_i64_spec(lookup_spec(a, "start"@), i64::MIN);
    let hi = opt_i64_spec(lookup_spec(a, "end"@), i64::MAX);
    if lo > hi {
        r == Result::<PlainValue, Error>::Err(Error::InvalidRange(lo, hi))
    } else {
        match r {
            Result::Ok(PlainValue::Int(v)) => lo <= v <= hi,
            _ => false,
        }
    }
}

/// Generates a uniform random integer in `[start, end]`, both inclusive.
///
/// A missing `start` defaults to the type minimum and a missing `end` to
/// the type maximum; a resolved range with `start > end` is the caller's
/// error, never an empty or clamped result.
pub fn integer(args: &Args) -> (r: Result<PlainValue, Error>)
    ensures
        integer_spec(args@, r),
{
    let lo = args.get_i64_or("start", i64::MIN);
    let hi = args.get_i64_or("end", i64::MAX);
    if lo > hi {
        Err(Error::InvalidRange(lo, hi))
    } else {
        Ok(PlainValue::Int(rand_i64_range(lo, hi)))
    }
}

/// What `random` returns: an element of the given `values` sequence, and
/// an error when the sequence is empty or missing.
pub open spec fn random_spec(a: Seq<(String, PlainValue)>, r: Result<PlainValue, Error>) -> bool {
    match lookup_spec(a, "values"@) {
        Some(PlainValue::List(vs)) => if vs@.len() == 0 {
            r == Result::<PlainValue, Error>::Err(Error::EmptyValues)
        } else {
            exists|i: int| 0 <= i < vs@.len() && r == Result::<PlainValue, Error>::Ok(vs@[i])
        },
        _ => r == Result::<PlainValue, Error>::Err(Error::EmptyValues),
    }
}

/// Chooses one element of the `values` sequence uniformly at random.
///
/// The result is always an element of the given sequence; an empty or
/// missing sequence is the caller's error, not a silent default. A
/// fractional number among the values reaches this map as a null, since
/// fractional values have no plain form here.
pub fn random(args: &mut Args) -> (r: Result<PlainValue, Error>)
    ensures
        random_spec(old(args)@, r),
{
    match args.take_value("values") {
        Some(PlainValue::List(mut vs)) => {
            if vs.len() == 0 {
                Err(Error::EmptyValues)
            } else {
                let i = rand_index(vs.len());
                Ok(vs.swap_remove(i))
            }
        },
        _ => Err(Error::EmptyValues),
    }
}

/// Returns the session's current document index and advances it by one.
///
/// All workers of a session share one counter, so across the session the
/// returned values are exactly 0, 1, 2, ... with no skips and no repeats;
/// which worker sees which value depends on the interleaving.
pub fn index(counter: &SharedIndex) -> (r: Result<PlainValue, Error>)
    ensures
        r matches Ok(v) && v is Uint,
{
    Ok(PlainValue::Uint(counter.fetch_next()))
}

/// A uniform random value no later than the given clock reading.
pub fn timestamp_below(now: u64) -> (r: u64)
    ensures
        r <= now,
{
    rand_u64_range(0, now)
}

/// Generates a random timestamp: a whole number of seconds between the
/// Unix epoch and the current time.
pub fn timestamp() -> (r: Result<PlainValue, Error>)
    ensures
        r matches Ok(v) && v is Uint,
{
    let now = now_unix_seconds();
    Ok(PlainValue::Uint(timestamp_below(now)))
}

/// Generates a random version-4 UUID in its canonical hyphenated form.
pub fn uuid() -> (r: Result<PlainValue, Error>)
    ensures
        match r {
            Result::Ok(PlainValue::Text(s)) => uuid_v4_form(s@),
            _ => false,
        },
{
    Ok(PlainValue::Text(uuid_v4_hyphenated()))
}

/// Generates a random object identifier: 24 lowercase hexadecimal
/// characters.
pub fn object_id() -> (r: Result<PlainValue, Error>)
    ensures
        match r {
            Result::Ok(PlainValue::Text(s)) => s@.len() == 24 && all_lower_hex(s@),
            _ => false,
        },
{
    Ok(PlainValue::Text(object_id_hex()))
}

/// The identifier length `nanoid` uses: the `length` argument when it is a
/// representable non-negative number, 21 otherwise.
pub open spec fn nanoid_len_spec(a: Seq<(String, PlainValue)>) -> int {
    let l = opt_u64_spec(lookup_spec(a, "length"@), 21);
    if l <= usize::MAX {
        l as int
    } else {
        21
    }
}

/// Generates a random url-safe identifier of the requested length,
/// defaulting to 21 characters.
pub fn nanoid(args: &Args) -> (r: Result<PlainValue, Error>)
    ensures
        match r {
            Result::Ok(PlainValue::Text(s)) => s@.len() == nanoid_len_spec(args@)
                && all_url_safe(s@),
            _ => false,
        },
{
    let l = args.get_u64_or("length", 21);
    let len: usize = if l <= usize::MAX as u64 {
        l as usize
    } else {
        21
    };
    Ok(PlainValue::Text(nanoid_of(len)))
}

/// The characters of the given parts joined with single spaces.
pub open spec fn joined_spec(parts: Seq<String>) -> Seq<char>
    decreases parts.len(),
{
    if parts.len() == 0 {
        Seq::empty()
    } else if parts.len() == 1 {
        parts[0]@
    } else {
        joined_spec(parts.drop_last()) + " "@ + parts.last()@
    }
}

/// Joins the given parts with single spaces between them.
pub fn join_spaced(parts: &Vec<String>) -> (r: String)
    ensures
        r@ == joined_spec(parts@),
{
    let mut out = String::new();
    let mut i: usize = 0;
    while i < parts.len()
        invariant
            i <= parts@.len(),
            out@ == joined_spec(parts@.take(i as int)),
        decreases parts@.len() - i,
    {
        if i > 0 {
            out.append(" ");
        }
        out.append(parts[i].as_str());
        proof {
            assert(parts@.take(i + 1int).drop_last() =~= parts@.take(i as int));
            assert(parts@.take(i + 1int).last() == parts@[i as int]);
            assert(out@ =~= joined_spec(parts@.take(i + 1int)));
        }
        i = i + 1;
    }
    proof {
        assert(parts@.take(parts@.len() as int) =~= parts@);
    }
    out
}

/// Joining one or more non-empty parts gives a non-empty text.
proof fn lemma_joined_nonempty(parts: Seq<String>)
    requires
        parts.len() > 0,
        forall|i: int| 0 <= i < parts.len() ==> parts[i]@.len() > 0,
    ensures
        joined_spec(parts).len() > 0,
{
    if parts.len() == 1 {
        assert(parts[0]@.len() > 0);
    } else {
        reveal_strlit(" ");
    }
}

/// Generates a paragraph: seven lorem sentences joined with single
/// spaces; never empty.
pub fn paragraph() -> (r: Result<PlainValue, Error>)
    ensures
        match r {
            Result::Ok(PlainValue::Text(s)) => s@.len() > 0,
            _ => false,
        },
{
    let parts = fake_sentences(7);
    proof {
        lemma_joined_nonempty(parts@);
    }
    Ok(PlainValue::Text(join_spaced(&parts)))
}

/// The custom helpers under their registered names.
pub fn helpers() -> (r: Vec<(String, HelperKind)>)
    ensures
        r@.len() == 9,
        crate::helper::entry_is(r@, 0, "float"@, HelperKind::Float),
        crate::helper::entry_is(r@, 1, "index"@, HelperKind::Index),
        crate::helper::entry_is(r@, 2, "integer"@, HelperKind::Integer),
        crate::helper::entry_is(r@, 3, "nanoid"@, HelperKind::NanoId),
        crate::helper::entry_is(r@, 4, "objectId"@, HelperKind::ObjectId),
        crate::helper::entry_is(r@, 5, "paragraph"@, HelperKind::Paragraph),
        crate::helper::entry_is(r@, 6, "random"@, HelperKind::Random),
        crate::helper::entry_is(r@, 7, "timestamp"@, HelperKind::Timestamp),
        crate::helper::entry_is(r@, 8, "uuid"@, HelperKind::Uuid),
{
    let mut v: Vec<(String, HelperKind)> = Vec::new();
    v.push(("float".to_owned(), HelperKind::Float));
    v.push(("index".to_owned(), HelperKind::Index));
    v.push(("integer".to_owned(), HelperKind::Integer));
    v.push(("nanoid".to_owned(), HelperKind::NanoId));
    v.push(("objectId".to_owned(), HelperKind::ObjectId));
    v.push(("paragraph".to_owned(), HelperKind::Paragraph));
    v.push(("random".to_owned(), HelperKind::Random));
    v.push(("timestamp".to_owned(), HelperKind::Timestamp));
    v.push(("uuid".to_owned(), HelperKind::Uuid));
    v
}

/// Relies on `rand::random_range` over `lo..=hi`: a uniformly distributed
/// signed integer within the inclusive range. The call panics on an empty
/// range, so ordered bounds are required.
#[verifier::external_body]
fn rand_i64_range(lo: i64, hi: i64) -> (r: i64)
    requires
        lo <= hi,
    ensures
        lo <= r <= hi,
{
    rand::random_range(lo..=hi)
}

/// Relies on `rand::random_range` over `lo..=hi`: a uniformly distributed
/// unsigned integer within the inclusive range. The call panics on an
/// empty range, so ordered bounds are required.
#[verifier::external_body]
fn rand_u64_range(lo: u64, hi: u64) -> (r: u64)
    requires
        lo <= hi,
    ensures
        lo <= r <= hi,
{
    rand::random_range(lo..=hi)
}

/// Relies on `rand::random_range` over `0..n`: a uniformly distributed
/// position below `n`. The call panics on an empty range, so `n` must be
/// positive.
#[verifier::external_body]
pub(crate) fn rand_index(n: usize) -> (r: usize)
    requires
        n > 0,
    ensures
        r < n,
{
    rand::random_range(0..n)
}

/// Relies on `uuid::Uuid::new_v4` and its canonical rendering: the
/// version nibble is forced to 4 and the variant nibble to one of 8, 9,
/// a, b, and the display form is the hyphenated groups of 8, 4, 4, 4 and
/// 12 lowercase hexadecimal digits.
#[verifier::external_body]
fn uuid_v4_hyphenated() -> (r: String)
    ensures
        uuid_v4_form(r@),
{
    uuid::Uuid::new_v4().to_string()
}

/// Relies on `bson::oid::ObjectId::new` and `to_hex`: a fresh 12-byte
/// object identifier rendered as 24 lowercase hexadecimal characters.
/// The identifier embeds the current time, and its generation aborts when
/// the machine clock reads before the Unix epoch — an environment
/// condition, not an input.
#[verifier::external_body]
fn object_id_hex() -> (r: String)
    ensures
        r@.len() == 24,
        all_lower_hex(r@),
{
    bson::oid::ObjectId::new().to_hex()
}

/// Relies on `nanoid::format` with the 64-character url-safe alphabet: an
/// identifier of exactly `len` characters, each a letter, digit,
/// underscore or hyphen.
#[verifier::external_body]
fn nanoid_of(len: usize) -> (r: String)
    ensures
        r@.len() == len,
        all_url_safe(r@),
{
    nanoid::format(nanoid::rngs::default, &nanoid::alphabet::SAFE, len)
}

/// Relies on `std::time::SystemTime::now`: the clock reading in whole
/// seconds since the Unix epoch, or zero when the clock reads earlier than
/// the epoch. The value depends on the machine, so nothing more is stated.
#[verifier::external_body]
fn now_unix_seconds() -> u64 {
    match std::time::SystemTime::now().duration_since(std::time::UNIX_EPOCH) {
        Ok(d) => d.as_secs(),
        Err(_) => 0,
    }
}

/// Relies on fake's lorem `Sentences` faker: the range `n..n + 1` yields
/// exactly `n` sentences, and each sentence carries at least its closing
/// punctuation, so none is empty.
#[verifier::external_body]
fn fake_sentences(n: usize) -> (r: Vec<String>)
    requires
        n < usize::MAX,
    ensures
        r@.len() == n,
        forall|i: int| 0 <= i < r@.len() ==> r@[i]@.len() > 0,
{
    let parts: Vec<String> = fake::Fake::fake(&fake::faker::lorem::en::Sentences(n..n + 1));
    parts
}

} // verus!
