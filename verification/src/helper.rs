//! The helper registry: named generator functions a template can call.
//!
//! A helper is a named function from keyword arguments to a value. The
//! registry maps names to helper kinds; when one name is registered twice
//! the later registration wins. `helper_call` is the plain-value call
//! surface; the rendering engine reaches the same dispatch through the
//! closures registered with it.
use vstd::prelude::*;

pub mod custom;
pub mod fake;

verus! {

use crate::error::Error;
use crate::session::SharedIndex;
use vstd::string::StringExecFns;

use crate::value::Args;
use crate::value::PlainValue;
use crate::helper::custom::all_lower_hex;
use crate::helper::custom::all_url_safe;
use crate::helper::custom::integer_spec;
use crate::helper::custom::nanoid_len_spec;
use crate::helper::custom::random_spec;
use crate::helper::custom::uuid_v4_form;

/// Every helper the library registers by default.
#[derive(Clone, Copy, Debug, PartialEq, Eq)]
pub enum HelperKind {
    /// Uniform random true/false.
    Bool,
    /// A city name from the fake-data provider.
    City,
    /// A company name from the fake-data provider.
    Company,
    /// A domain suffix from the fake-data provider.
    Domain,
    /// An email address from the fake-data provider.
    Email,
    /// A first name from the fake-data provider.
    FirstName,
    /// An industry name from the fake-data provider.
    Industry,
    /// A last name from the fake-data provider.
    LastName,
    /// The decimal text of a random latitude from the fake-data provider.
    Latitude,
    /// The decimal text of a random longitude from the fake-data provider.
    Longitude,
    /// A full person name from the fake-data provider.
    Name,
    /// A phone number from the fake-data provider.
    Phone,
    /// A postcode from the fake-data provider.
    Postcode,
    /// A profession from the fake-data provider.
    Profession,
    /// A short lorem sentence from the fake-data provider.
    Sentence,
    /// A state name from the fake-data provider.
    State,
    /// A state abbreviation from the fake-data provider.
    StateCode,
    /// A street name from the fake-data provider.
    Street,
    /// A name title from the fake-data provider.
    Title,
    /// A browser user-agent string from the fake-data provider.
    UserAgent,
    /// A username from the fake-data provider.
    Username,
    /// A single lorem word from the fake-data provider.
    Word,
    /// A zip code from the fake-data provider.
    Zip,
    /// A fractional number in a range; it has no plain form here, so a
    /// caller registers its engine-side implementation itself.
    Float,
    /// The session's shared document index: read and advance.
    Index,
    /// A uniform random integer in an inclusive range.
    Integer,
    /// A random identifier of configurable length.
    NanoId,
    /// A random 24-character hexadecimal object identifier.
    ObjectId,
    /// A paragraph of lorem sentences.
    Paragraph,
    /// A uniform random choice out of a given value sequence.
    Random,
    /// A random timestamp between the epoch and now.
    Timestamp,
    /// A random version-4 UUID in canonical hyphenated form.
    Uuid,
}

/// The kind registered under `name`, taking the latest registration when a
/// name repeats.
pub open spec fn lookup_kind_spec(entries: Seq<(String, HelperKind)>, name: Seq<char>) -> Option<
    HelperKind,
>
    decreases entries.len(),
{
    if entries.len() == 0 {
        None
    } else if entries.last().0@ == name {
        Some(entries.last().1)
    } else {
        lookup_kind_spec(entries.drop_last(), name)
    }
}

/// What each helper kind returns for the given arguments: the numeric and
/// choice helpers have exact contracts, the identifier helpers fix the
/// shape and length of their text, and the delegated fake-data helpers
/// promise a text value. The fractional-range kind has no plain form in
/// this library and is refused here.
pub open spec fn helper_spec(kind: HelperKind, a: Seq<(String, PlainValue)>, r: Result<
    PlainValue,
    Error,
>) -> bool {
    match kind {
        HelperKind::Integer => integer_spec(a, r),
        HelperKind::Random => random_spec(a, r),
        HelperKind::Index => r matches Ok(v) && v is Uint,
        HelperKind::Timestamp => r matches Ok(v) && v is Uint,
        HelperKind::Bool => r matches Ok(v) && v is Bool,
        HelperKind::Uuid => match r {
            Result::Ok(PlainValue::Text(s)) => uuid_v4_form(s@),
            _ => false,
        },
        HelperKind::ObjectId => match r {
            Result::Ok(PlainValue::Text(s)) => s@.len() == 24 && all_lower_hex(s@),
            _ => false,
        },
        HelperKind::NanoId => match r {
            Result::Ok(PlainValue::Text(s)) => s@.len() == nanoid_len_spec(a) && all_url_safe(s@),
            _ => false,
        },
        HelperKind::Paragraph => match r {
            Result::Ok(PlainValue::Text(s)) => s@.len() > 0,
            _ => false,
        },
        HelperKind::Float => r == Result::<PlainValue, Error>::Err(Error::UnsupportedHelper),
        _ => r matches Ok(v) && v is Text,
    }
}

/// Looks `name` up in a registry; the latest registration wins.
pub fn lookup_helper(entries: &Vec<(String, HelperKind)>, name: &str) -> (r: Option<HelperKind>)
    ensures
        r == lookup_kind_spec(entries@, name@),
{
    let owned = name.to_owned();
    let mut i: usize = entries.len();
    proof {
        assert(entries@.take(i as int) =~= entries@);
    }
    while i > 0
        invariant
            i <= entries@.len(),
            owned@ == name@,
            lookup_kind_spec(entries@.take(i as int), name@) == lookup_kind_spec(entries@, name@),
        decreases i,
    {
        i = i - 1;
        if entries[i].0 == owned {
            proof {
                assert(entries@.take(i + 1int).last() == entries@[i as int]);
            }
            return Some(entries[i].1);
        }
        proof {
            assert(entries@.take(i + 1int).drop_last() =~= entries@.take(i as int));
            assert(entries@.take(i + 1int).last() == entries@[i as int]);
        }
    }
    proof {
        assert(entries@.take(0int) =~= Seq::<(String, HelperKind)>::empty());
    }
    None
}

/// Runs one helper of a known kind against its arguments.
pub fn run_helper(kind: HelperKind, args: &mut Args, counter: &SharedIndex) -> (r: Result<
    PlainValue,
    Error,
>)
    ensures
        helper_spec(kind, old(args)@, r),
{
    match kind {
        HelperKind::Integer => custom::integer(args),
        HelperKind::Random => custom::random(args),
        HelperKind::Index => custom::index(counter),
        HelperKind::Timestamp => custom::timestamp(),
        HelperKind::Uuid => custom::uuid(),
        HelperKind::ObjectId => custom::object_id(),
        HelperKind::NanoId => custom::nanoid(args),
        HelperKind::Paragraph => custom::paragraph(),
        HelperKind::Bool => fake::boolean(),
        HelperKind::Float => Err(Error::UnsupportedHelper),
        HelperKind::Latitude => Ok(PlainValue::Text(fake::fake_latitude())),
        HelperKind::Longitude => Ok(PlainValue::Text(fake::fake_longitude())),
        HelperKind::City => Ok(PlainValue::Text(fake::fake_city())),
        HelperKind::Company => Ok(PlainValue::Text(fake::fake_company())),
        HelperKind::Domain => Ok(PlainValue::Text(fake::fake_domain())),
        HelperKind::Email => Ok(PlainValue::Text(fake::fake_email())),
        HelperKind::FirstName => Ok(PlainValue::Text(fake::fake_first_name())),
        HelperKind::Industry => Ok(PlainValue::Text(fake::fake_industry())),
        HelperKind::LastName => Ok(PlainValue::Text(fake::fake_last_name())),
        HelperKind::Name => Ok(PlainValue::Text(fake::fake_name())),
        HelperKind::Phone => Ok(PlainValue::Text(fake::fake_phone())),
        HelperKind::Postcode => Ok(PlainValue::Text(fake::fake_postcode())),
        HelperKind::Profession => Ok(PlainValue::Text(fake::fake_profession())),
        HelperKind::Sentence => Ok(PlainValue::Text(fake::fake_sentence())),
        HelperKind::State => Ok(PlainValue::Text(fake::fake_state())),
        HelperKind::StateCode => Ok(PlainValue::Text(fake::fake_state_code())),
        HelperKind::Street => Ok(PlainValue::Text(fake::fake_street())),
        HelperKind::Title => Ok(PlainValue::Text(fake::fake_title())),
        HelperKind::UserAgent => Ok(PlainValue::Text(fake::fake_user_agent())),
        HelperKind::Username => Ok(PlainValue::Text(fake::fake_username())),
        HelperKind::Word => Ok(PlainValue::Text(fake::fake_word())),
        HelperKind::Zip => Ok(PlainValue::Text(fake::fake_zip())),
    }
}

/// Calls the helper registered under `name`: the plain-value form of the
/// call surface the rendering engine uses. An unregistered name is a
/// validation error; a registered one answers as its kind's contract says.
pub fn helper_call(
    entries: &Vec<(String, HelperKind)>,
    name: &str,
    args: &mut Args,
    counter: &SharedIndex,
) -> (r: Result<PlainValue, Error>)
    ensures
        match lookup_kind_spec(entries@, name@) {
            Some(kind) => helper_spec(kind, old(args)@, r),
            None => match r {
                Result::Err(e) => e is Validation,
                _ => false,
            },
        },
{
    match lookup_helper(entries, name) {
        Some(kind) => run_helper(kind, args, counter),
        None => {
            let mut m = "unknown helper: ".to_owned();
            m.append(name);
            Err(Error::Validation(m))
        },
    }
}

/// Entry `i` of a registry binds `name` to `kind`.
pub open spec fn entry_is(
    r: Seq<(String, HelperKind)>,
    i: int,
    name: Seq<char>,
    kind: HelperKind,
) -> bool {
    r[i].0@ == name && r[i].1 == kind
}

/// All built-in helpers: the custom generators followed by the fake-data
/// delegates, 32 names in all.
pub fn builtin() -> (r: Vec<(String, HelperKind)>)
    ensures
        r@.len() == 32,
        entry_is(r@, 0, "float"@, HelperKind::Float),
        entry_is(r@, 1, "index"@, HelperKind::Index),
        entry_is(r@, 2, "integer"@, HelperKind::Integer),
        entry_is(r@, 3, "nanoid"@, HelperKind::NanoId),
        entry_is(r@, 4, "objectId"@, HelperKind::ObjectId),
        entry_is(r@, 5, "paragraph"@, HelperKind::Paragraph),
        entry_is(r@, 6, "random"@, HelperKind::Random),
        entry_is(r@, 7, "timestamp"@, HelperKind::Timestamp),
        entry_is(r@, 8, "uuid"@, HelperKind::Uuid),
        entry_is(r@, 9, "bool"@, HelperKind::Bool),
        entry_is(r@, 10, "city"@, HelperKind::City),
        entry_is(r@, 11, "company"@, HelperKind::Company),
        entry_is(r@, 12, "domain"@, HelperKind::Domain),
        entry_is(r@, 13, "email"@, HelperKind::Email),
        entry_is(r@, 14, "firstName"@, HelperKind::FirstName),
        entry_is(r@, 15, "industry"@, HelperKind::Industry),
        entry_is(r@, 16, "lastName"@, HelperKind::LastName),
        entry_is(r@, 17, "latitude"@, HelperKind::Latitude),
        entry_is(r@, 18, "longitude"@, HelperKind::Longitude),
        entry_is(r@, 19, "name"@, HelperKind::Name),
        entry_is(r@, 20, "phone"@, HelperKind::Phone),
        entry_is(r@, 21, "postcode"@, HelperKind::Postcode),
        entry_is(r@, 22, "profession"@, HelperKind::Profession),
        entry_is(r@, 23, "sentence"@, HelperKind::Sentence),
        entry_is(r@, 24, "state"@, HelperKind::State),
        entry_is(r@, 25, "stateCode"@, HelperKind::StateCode),
        entry_is(r@, 26, "street"@, HelperKind::Street),
        entry_is(r@, 27, "title"@, HelperKind::Title),
        entry_is(r@, 28, "userAgent"@, HelperKind::UserAgent),
        entry_is(r@, 29, "username"@, HelperKind::Username),
        entry_is(r@, 30, "word"@, HelperKind::Word),
        entry_is(r@, 31, "zip"@, HelperKind::Zip),
{
    let mut v = custom::helpers();
    let mut f = fake::helpers();
    v.append(&mut f);
    v
}

} // verus!
