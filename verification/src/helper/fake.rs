//! Helpers delegated to the external fake-data provider.
//!
//! Each of these helpers is a zero-argument call that answers with a text
//! value; what the text looks like is the provider's business, so the
//! wrappers promise no more than that a string comes back. The uniform
//! random boolean comes from the random number generator directly.
use vstd::prelude::*;

verus! {

use crate::error::Error;
use crate::helper::HelperKind;
use crate::value::PlainValue;

/// Generates a uniform random boolean.
pub fn boolean() -> (r: Result<PlainValue, Error>)
    ensures
        r matches Ok(v) && v is Bool,
{
    Ok(PlainValue::Bool(rand_bool()))
}

/// The fake-data helpers under their registered names.
pub fn helpers() -> (r: Vec<(String, HelperKind)>)
    ensures
        r@.len() == 23,
        crate::helper::entry_is(r@, 0, "bool"@, HelperKind::Bool),
        crate::helper::entry_is(r@, 1, "city"@, HelperKind::City),
        crate::helper::entry_is(r@, 2, "company"@, HelperKind::Company),
        crate::helper::entry_is(r@, 3, "domain"@, HelperKind::Domain),
        crate::helper::entry_is(r@, 4, "email"@, HelperKind::Email),
        crate::helper::entry_is(r@, 5, "firstName"@, HelperKind::FirstName),
        crate::helper::entry_is(r@, 6, "industry"@, HelperKind::Industry),
        crate::helper::entry_is(r@, 7, "lastName"@, HelperKind::LastName),
        crate::helper::entry_is(r@, 8, "latitude"@, HelperKind::Latitude),
        crate::helper::entry_is(r@, 9, "longitude"@, HelperKind::Longitude),
        crate::helper::entry_is(r@, 10, "name"@, HelperKind::Name),
        crate::helper::entry_is(r@, 11, "phone"@, HelperKind::Phone),
        crate::helper::entry_is(r@, 12, "postcode"@, HelperKind::Postcode),
        crate::helper::entry_is(r@, 13, "profession"@, HelperKind::Profession),
        crate::helper::entry_is(r@, 14, "sentence"@, HelperKind::Sentence),
        crate::helper::entry_is(r@, 15, "state"@, HelperKind::State),
        crate::helper::entry_is(r@, 16, "stateCode"@, HelperKind::StateCode),
        crate::helper::entry_is(r@, 17, "street"@, HelperKind::Street),
        crate::helper::entry_is(r@, 18, "title"@, HelperKind::Title),
        crate::helper::entry_is(r@, 19, "userAgent"@, HelperKind::UserAgent),
        crate::helper::entry_is(r@, 20, "username"@, HelperKind::Username),
        crate::helper::entry_is(r@, 21, "word"@, HelperKind::Word),
        crate::helper::entry_is(r@, 22, "zip"@, HelperKind::Zip),
{
    let mut v: Vec<(String, HelperKind)> = Vec::new();
    v.push(("bool".to_owned(), HelperKind::Bool));
    v.push(("city".to_owned(), HelperKind::City));
    v.push(("company".to_owned(), HelperKind::Company));
    v.push(("domain".to_owned(), HelperKind::Domain));
    v.push(("email".to_owned(), HelperKind::Email));
    v.push(("firstName".to_owned(), HelperKind::FirstName));
    v.push(("industry".to_owned(), HelperKind::Industry));
    v.push(("lastName".to_owned(), HelperKind::LastName));
    v.push(("latitude".to_owned(), HelperKind::Latitude));
    v.push(("longitude".to_owned(), HelperKind::Longitude));
    v.push(("name".to_owned(), HelperKind::Name));
    v.push(("phone".to_owned(), HelperKind::Phone));
    v.push(("postcode".to_owned(), HelperKind::Postcode));
    v.push(("profession".to_owned(), HelperKind::Profession));
    v.push(("sentence".to_owned(), HelperKind::Sentence));
    v.push(("state".to_owned(), HelperKind::State));
    v.push(("stateCode".to_owned(), HelperKind::StateCode));
    v.push(("street".to_owned(), HelperKind::Street));
    v.push(("title".to_owned(), HelperKind::Title));
    v.push(("userAgent".to_owned(), HelperKind::UserAgent));
    v.push(("username".to_owned(), HelperKind::Username));
    v.push(("word".to_owned(), HelperKind::Word));
    v.push(("zip".to_owned(), HelperKind::Zip));
    v
}

/// Relies on `rand::random::<bool>()`: a uniform random boolean.
#[verifier::external_body]
fn rand_bool() -> bool {
    rand::random::<bool>()
}

/// Relies on fake's `CityName` faker.
#[verifier::external_body]
pub(crate) fn fake_city() -> String {
    fake::Fake::fake(&fake::faker::address::en::CityName())
}

/// Relies on fake's `CompanyName` faker.
#[verifier::external_body]
pub(crate) fn fake_company() -> String {
    fake::Fake::fake(&fake::faker::company::en::CompanyName())
}

/// Relies on fake's `DomainSuffix` faker.
#[verifier::external_body]
pub(crate) fn fake_domain() -> String {
    fake::Fake::fake(&fake::faker::internet::en::DomainSuffix())
}

/// Relies on fake's `FreeEmail` faker.
#[verifier::external_body]
pub(crate) fn fake_email() -> String {
    fake::Fake::fake(&fake::faker::internet::en::FreeEmail())
}

/// Relies on fake's `FirstName` faker.
#[verifier::external_body]
pub(crate) fn fake_first_name() -> String {
    fake::Fake::fake(&fake::faker::name::en::FirstName())
}

/// Relies on fake's `Industry` faker.
#[verifier::external_body]
pub(crate) fn fake_industry() -> String {
    fake::Fake::fake(&fake::faker::company::en::Industry())
}

/// Relies on fake's `Latitude` faker in its text form: the decimal
/// rendering of a random latitude.
#[verifier::external_body]
pub(crate) fn fake_latitude() -> String {
    let v: String = fake::Fake::fake(&fake::faker::address::en::Latitude());
    v
}

/// Relies on fake's `Longitude` faker in its text form: the decimal
/// rendering of a random longitude.
#[verifier::external_body]
pub(crate) fn fake_longitude() -> String {
    let v: String = fake::Fake::fake(&fake::faker::address::en::Longitude());
    v
}

/// Relies on fake's `LastName` faker.
#[verifier::external_body]
pub(crate) fn fake_last_name() -> String {
    fake::Fake::fake(&fake::faker::name::en::LastName())
}

/// Relies on fake's `Name` faker.
#[verifier::external_body]
pub(crate) fn fake_name() -> String {
    fake::Fake::fake(&fake::faker::name::en::Name())
}

/// Relies on fake's `CellNumber` faker.
#[verifier::external_body]
pub(crate) fn fake_phone() -> String {
    fake::Fake::fake(&fake::faker::phone_number::en::CellNumber())
}

/// Relies on fake's `PostCode` faker.
#[verifier::external_body]
pub(crate) fn fake_postcode() -> String {
    fake::Fake::fake(&fake::faker::address::en::PostCode())
}

/// Relies on fake's `Profession` faker.
#[verifier::external_body]
pub(crate) fn fake_profession() -> String {
    fake::Fake::fake(&fake::faker::company::en::Profession())
}

/// Relies on fake's lorem `Sentence` faker with four to six words.
#[verifier::external_body]
pub(crate) fn fake_sentence() -> String {
    fake::Fake::fake(&fake::faker::lorem::en::Sentence(4..7))
}

/// Relies on fake's `StateName` faker.
#[verifier::external_body]
pub(crate) fn fake_state() -> String {
    fake::Fake::fake(&fake::faker::address::en::StateName())
}

/// Relies on fake's `StateAbbr` faker.
#[verifier::external_body]
pub(crate) fn fake_state_code() -> String {
    fake::Fake::fake(&fake::faker::address::en::StateAbbr())
}

/// Relies on fake's `StreetName` faker.
#[verifier::external_body]
pub(crate) fn fake_street() -> String {
    fake::Fake::fake(&fake::faker::address::en::StreetName())
}

/// Relies on fake's name `Title` faker.
#[verifier::external_body]
pub(crate) fn fake_title() -> String {
    fake::Fake::fake(&fake::faker::name::en::Title())
}

/// Relies on fake's `UserAgent` faker.
#[verifier::external_body]
pub(crate) fn fake_user_agent() -> String {
    fake::Fake::fake(&fake::faker::internet::en::UserAgent())
}

/// Relies on fake's `Username` faker.
#[verifier::external_body]
pub(crate) fn fake_username() -> String {
    fake::Fake::fake(&fake::faker::internet::en::Username())
}

/// Relies on fake's lorem `Word` faker.
#[verifier::external_body]
pub(crate) fn fake_word() -> String {
    fake::Fake::fake(&fake::faker::lorem::en::Word())
}

/// Relies on fake's `ZipCode` faker.
#[verifier::external_body]
pub(crate) fn fake_zip() -> String {
    fake::Fake::fake(&fake::faker::address::en::ZipCode())
}

} // verus!
