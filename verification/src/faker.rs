//! The calls into the crates that draw the values: `fake` for texts, numbers
//! and truth values, `rand` for a choice among items, and `mongodb` for new
//! identifiers.
//!
//! Every function of this module is believed, not verified: its body is one call
//! into an outside crate, and its contract states what that crate's source
//! shows of every outcome. All texts are drawn for the English locale, with the
//! random generator of the calling thread.

use crate::registry::{follows_format, is_hyphenated_uuid};
use crate::value::ObjectId;
use fake::Fake;
use rand::seq::SliceRandom;
use vstd::prelude::*;

verus! {

/// `fake::faker::address::raw::BuildingNumber` as a `String`: a building
/// number. The text depends on chance, and nothing is claimed of it.
#[verifier::external_body]
pub(crate) fn building_number() -> (text: String) {
    fake::faker::address::raw::BuildingNumber(fake::locales::EN).fake::<String>()
}

/// `fake::faker::address::raw::CityName` as a `String`: the name of a city. The
/// text depends on chance, and nothing is claimed of it.
#[verifier::external_body]
pub(crate) fn city_name() -> (text: String) {
    fake::faker::address::raw::CityName(fake::locales::EN).fake::<String>()
}

/// `fake::faker::address::raw::CityPrefix` as a `String`: the first part of a
/// city's name. The text depends on chance, and nothing is claimed of it.
#[verifier::external_body]
pub(crate) fn city_prefix() -> (text: String) {
    fake::faker::address::raw::CityPrefix(fake::locales::EN).fake::<String>()
}

/// `fake::faker::address::raw::CitySuffix` as a `String`: the last part of a
/// city's name. The text depends on chance, and nothing is claimed of it.
#[verifier::external_body]
pub(crate) fn city_suffix() -> (text: String) {
    fake::faker::address::raw::CitySuffix(fake::locales::EN).fake::<String>()
}

/// `fake::faker::address::raw::CountryCode` as a `String`: the code of a
/// country. The text depends on chance, and nothing is claimed of it.
#[verifier::external_body]
pub(crate) fn country_code() -> (text: String) {
    fake::faker::address::raw::CountryCode(fake::locales::EN).fake::<String>()
}

/// `fake::faker::address::raw::CountryName` as a `String`: the name of a
/// country. The text depends on chance, and nothing is claimed of it.
#[verifier::external_body]
pub(crate) fn country_name() -> (text: String) {
    fake::faker::address::raw::CountryName(fake::locales::EN).fake::<String>()
}

/// `fake::faker::address::raw::Latitude` as a `String`: a latitude, written in
/// decimal. The text depends on chance, and nothing is claimed of it.
#[verifier::external_body]
pub(crate) fn latitude() -> (text: String) {
    fake::faker::address::raw::Latitude(fake::locales::EN).fake::<String>()
}

/// `fake::faker::address::raw::Longitude` as a `String`: a longitude, written
/// in decimal. The text depends on chance, and nothing is claimed of it.
#[verifier::external_body]
pub(crate) fn longitude() -> (text: String) {
    fake::faker::address::raw::Longitude(fake::locales::EN).fake::<String>()
}

/// `fake::faker::address::raw::PostCode` as a `String`: a post code. The text
/// depends on chance, and nothing is claimed of it.
#[verifier::external_body]
pub(crate) fn post_code() -> (text: String) {
    fake::faker::address::raw::PostCode(fake::locales::EN).fake::<String>()
}

/// `fake::faker::address::raw::SecondaryAddress` as a `String`: the second line
/// of an address. The text depends on chance, and nothing is claimed of it.
#[verifier::external_body]
pub(crate) fn secondary_address() -> (text: String) {
    fake::faker::address::raw::SecondaryAddress(fake::locales::EN).fake::<String>()
}

/// `fake::faker::address::raw::StateAbbr` as a `String`: the short form of a
/// state's name. The text depends on chance, and nothing is claimed of it.
#[verifier::external_body]
pub(crate) fn state_abbr() -> (text: String) {
    fake::faker::address::raw::StateAbbr(fake::locales::EN).fake::<String>()
}

/// `fake::faker::address::raw::StateName` as a `String`: the name of a state.
/// The text depends on chance, and nothing is claimed of it.
#[verifier::external_body]
pub(crate) fn state_name() -> (text: String) {
    fake::faker::address::raw::StateName(fake::locales::EN).fake::<String>()
}

/// `fake::faker::address::raw::StreetName` as a `String`: the name of a street.
/// The text depends on chance, and nothing is claimed of it.
#[verifier::external_body]
pub(crate) fn street_name() -> (text: String) {
    fake::faker::address::raw::StreetName(fake::locales::EN).fake::<String>()
}

/// `fake::faker::address::raw::StreetSuffix` as a `String`: the last part of a
/// street's name. The text depends on chance, and nothing is claimed of it.
#[verifier::external_body]
pub(crate) fn street_suffix() -> (text: String) {
    fake::faker::address::raw::StreetSuffix(fake::locales::EN).fake::<String>()
}

/// `fake::faker::address::raw::TimeZone` as a `String`: the name of a time
/// zone. The text depends on chance, and nothing is claimed of it.
#[verifier::external_body]
pub(crate) fn time_zone() -> (text: String) {
    fake::faker::address::raw::TimeZone(fake::locales::EN).fake::<String>()
}

/// `fake::faker::address::raw::ZipCode` as a `String`: a zip code. The text
/// depends on chance, and nothing is claimed of it.
#[verifier::external_body]
pub(crate) fn zip_code() -> (text: String) {
    fake::faker::address::raw::ZipCode(fake::locales::EN).fake::<String>()
}

/// `fake::faker::chrono::raw::Date` as a `String`: a date. The text depends on
/// chance, and nothing is claimed of it.
#[verifier::external_body]
pub(crate) fn chrono_date() -> (text: String) {
    fake::faker::chrono::raw::Date(fake::locales::EN).fake::<String>()
}

/// `fake::faker::chrono::raw::DateTime` as a `String`: a date with the time of
/// day. The text depends on chance, and nothing is claimed of it.
#[verifier::external_body]
pub(crate) fn chrono_date_time() -> (text: String) {
    fake::faker::chrono::raw::DateTime(fake::locales::EN).fake::<String>()
}

/// `fake::faker::chrono::raw::Time` as a `String`: a time of day. The text
/// depends on chance, and nothing is claimed of it.
#[verifier::external_body]
pub(crate) fn chrono_time() -> (text: String) {
    fake::faker::chrono::raw::Time(fake::locales::EN).fake::<String>()
}

/// `fake::faker::company::raw::Bs` as a `String`: a business slogan. The text
/// depends on chance, and nothing is claimed of it.
#[verifier::external_body]
pub(crate) fn bs() -> (text: String) {
    fake::faker::company::raw::Bs(fake::locales::EN).fake::<String>()
}

/// `fake::faker::company::raw::Buzzword` as a `String`: a business catchword.
/// The text depends on chance, and nothing is claimed of it.
#[verifier::external_body]
pub(crate) fn buzzword() -> (text: String) {
    fake::faker::company::raw::Buzzword(fake::locales::EN).fake::<String>()
}

/// `fake::faker::company::raw::CatchPhrase` as a `String`: a catch phrase. The
/// text depends on chance, and nothing is claimed of it.
#[verifier::external_body]
pub(crate) fn catch_phrase() -> (text: String) {
    fake::faker::company::raw::CatchPhrase(fake::locales::EN).fake::<String>()
}

/// `fake::faker::company::raw::CompanyName` as a `String`: the name of a
/// company. The text depends on chance, and nothing is claimed of it.
#[verifier::external_body]
pub(crate) fn company_name() -> (text: String) {
    fake::faker::company::raw::CompanyName(fake::locales::EN).fake::<String>()
}

/// `fake::faker::company::raw::Profession` as a `String`: a profession. The
/// text depends on chance, and nothing is claimed of it.
#[verifier::external_body]
pub(crate) fn profession() -> (text: String) {
    fake::faker::company::raw::Profession(fake::locales::EN).fake::<String>()
}

/// `fake::faker::name::raw::Suffix` as a `String`: what follows a person's
/// name, such as `Jr.`. The text depends on chance, and nothing is claimed of
/// it.
#[verifier::external_body]
pub(crate) fn name_suffix() -> (text: String) {
    fake::faker::name::raw::Suffix(fake::locales::EN).fake::<String>()
}

/// `fake::faker::company::raw::Industry` as a `String`: a branch of industry.
/// The text depends on chance, and nothing is claimed of it.
#[verifier::external_body]
pub(crate) fn industry() -> (text: String) {
    fake::faker::company::raw::Industry(fake::locales::EN).fake::<String>()
}

/// `fake::faker::creditcard::raw::CreditCardNumber` as a `String`: the number
/// of a credit card. The text depends on chance, and nothing is claimed of it.
#[verifier::external_body]
pub(crate) fn credit_card_number() -> (text: String) {
    fake::faker::creditcard::raw::CreditCardNumber(fake::locales::EN).fake::<String>()
}

/// `fake::faker::currency::raw::CurrencyCode` as a `String`: the code of a
/// currency. The text depends on chance, and nothing is claimed of it.
#[verifier::external_body]
pub(crate) fn currency_code() -> (text: String) {
    fake::faker::currency::raw::CurrencyCode(fake::locales::EN).fake::<String>()
}

/// `fake::faker::currency::raw::CurrencyName` as a `String`: the name of a
/// currency. The text depends on chance, and nothing is claimed of it.
#[verifier::external_body]
pub(crate) fn currency_name() -> (text: String) {
    fake::faker::currency::raw::CurrencyName(fake::locales::EN).fake::<String>()
}

/// `fake::faker::currency::raw::CurrencySymbol` as a `String`: the sign of a
/// currency. The text depends on chance, and nothing is claimed of it.
#[verifier::external_body]
pub(crate) fn currency_symbol() -> (text: String) {
    fake::faker::currency::raw::CurrencySymbol(fake::locales::EN).fake::<String>()
}

/// `fake::faker::filesystem::raw::FileExtension` as a `String`: the extension
/// of a file's name. The text depends on chance, and nothing is claimed of it.
#[verifier::external_body]
pub(crate) fn file_extension() -> (text: String) {
    fake::faker::filesystem::raw::FileExtension(fake::locales::EN).fake::<String>()
}

/// `fake::faker::filesystem::raw::FileName` as a `String`: the name of a file.
/// The text depends on chance, and nothing is claimed of it.
#[verifier::external_body]
pub(crate) fn file_name() -> (text: String) {
    fake::faker::filesystem::raw::FileName(fake::locales::EN).fake::<String>()
}

/// `fake::faker::filesystem::raw::FilePath` as a `String`: the path of a file.
/// The text depends on chance, and nothing is claimed of it.
#[verifier::external_body]
pub(crate) fn file_path() -> (text: String) {
    fake::faker::filesystem::raw::FilePath(fake::locales::EN).fake::<String>()
}

/// `fake::faker::filesystem::raw::MimeType` as a `String`: a media type. The
/// text depends on chance, and nothing is claimed of it.
#[verifier::external_body]
pub(crate) fn mime_type() -> (text: String) {
    fake::faker::filesystem::raw::MimeType(fake::locales::EN).fake::<String>()
}

/// `fake::faker::internet::raw::DomainSuffix` as a `String`: the last part of a
/// domain name. The text depends on chance, and nothing is claimed of it.
#[verifier::external_body]
pub(crate) fn domain_suffix() -> (text: String) {
    fake::faker::internet::raw::DomainSuffix(fake::locales::EN).fake::<String>()
}

/// `fake::faker::internet::raw::FreeEmail` as a `String`: an e-mail address at
/// a free provider. The text depends on chance, and nothing is claimed of it.
#[verifier::external_body]
pub(crate) fn free_email() -> (text: String) {
    fake::faker::internet::raw::FreeEmail(fake::locales::EN).fake::<String>()
}

/// `fake::faker::internet::raw::IPv4` as a `String`: an IPv4 address. The text
/// depends on chance, and nothing is claimed of it.
#[verifier::external_body]
pub(crate) fn ipv4() -> (text: String) {
    fake::faker::internet::raw::IPv4(fake::locales::EN).fake::<String>()
}

/// `fake::faker::internet::raw::IPv6` as a `String`: an IPv6 address. The text
/// depends on chance, and nothing is claimed of it.
#[verifier::external_body]
pub(crate) fn ipv6() -> (text: String) {
    fake::faker::internet::raw::IPv6(fake::locales::EN).fake::<String>()
}

/// `fake::faker::internet::raw::Username` as a `String`: a user name. The text
/// depends on chance, and nothing is claimed of it.
#[verifier::external_body]
pub(crate) fn username() -> (text: String) {
    fake::faker::internet::raw::Username(fake::locales::EN).fake::<String>()
}

/// `fake::faker::job::raw::Field` as a `String`: a field of work. The text
/// depends on chance, and nothing is claimed of it.
#[verifier::external_body]
pub(crate) fn job_field() -> (text: String) {
    fake::faker::job::raw::Field(fake::locales::EN).fake::<String>()
}

/// `fake::faker::job::raw::Position` as a `String`: a position. The text
/// depends on chance, and nothing is claimed of it.
#[verifier::external_body]
pub(crate) fn job_position() -> (text: String) {
    fake::faker::job::raw::Position(fake::locales::EN).fake::<String>()
}

/// `fake::faker::job::raw::Seniority` as a `String`: a level of seniority. The
/// text depends on chance, and nothing is claimed of it.
#[verifier::external_body]
pub(crate) fn job_seniority() -> (text: String) {
    fake::faker::job::raw::Seniority(fake::locales::EN).fake::<String>()
}

/// `fake::faker::job::raw::Title` as a `String`: a job title. The text depends
/// on chance, and nothing is claimed of it.
#[verifier::external_body]
pub(crate) fn job_title() -> (text: String) {
    fake::faker::job::raw::Title(fake::locales::EN).fake::<String>()
}

/// `fake::faker::lorem::raw::Word` as a `String`: a word of filler text. The
/// text depends on chance, and nothing is claimed of it.
#[verifier::external_body]
pub(crate) fn lorem_word() -> (text: String) {
    fake::faker::lorem::raw::Word(fake::locales::EN).fake::<String>()
}

/// `fake::faker::name::raw::FirstName` as a `String`: a first name. The text
/// depends on chance, and nothing is claimed of it.
#[verifier::external_body]
pub(crate) fn first_name() -> (text: String) {
    fake::faker::name::raw::FirstName(fake::locales::EN).fake::<String>()
}

/// `fake::faker::name::raw::LastName` as a `String`: a last name. The text
/// depends on chance, and nothing is claimed of it.
#[verifier::external_body]
pub(crate) fn last_name() -> (text: String) {
    fake::faker::name::raw::LastName(fake::locales::EN).fake::<String>()
}

/// `fake::faker::phone_number::raw::CellNumber` as a `String`: the number of a
/// mobile phone. The text depends on chance, and nothing is claimed of it.
#[verifier::external_body]
pub(crate) fn cell_number() -> (text: String) {
    fake::faker::phone_number::raw::CellNumber(fake::locales::EN).fake::<String>()
}

/// `fake::faker::number::raw::NumberWithFormat` as a `String`: `format`,
/// character for character, with a digit drawn for each `#` and a digit other
/// than 0 for each `^`.
#[verifier::external_body]
pub(crate) fn number_with_format(format: &str) -> (text: String)
    ensures
        follows_format(text@, format@),
{
    fake::faker::number::raw::NumberWithFormat(fake::locales::EN, format).fake::<String>()
}

/// `fake::faker::internet::raw::Password` as a `String`: as many characters
/// as a number drawn from `shortest..end`, each a digit or a letter of the
/// locale's list. The draw of the length rejects an empty range. The text has
/// at least `shortest` and fewer than `end` characters.
#[verifier::external_body]
pub(crate) fn password(shortest: usize, end: usize) -> (text: String)
    requires
        shortest < end,
    ensures
        shortest <= text@.len() < end,
{
    fake::faker::internet::raw::Password(fake::locales::EN, shortest..end).fake::<String>()
}

/// `fake::faker::lorem::raw::Sentence` as a `String`: as many words of filler
/// text as a number drawn from `fewest..end`, then a full stop. The draw of
/// the number rejects an empty range. Nothing is claimed of the text.
#[verifier::external_body]
pub(crate) fn lorem_sentence(fewest: usize, end: usize) -> (text: String)
    requires
        fewest < end,
{
    fake::faker::lorem::raw::Sentence(fake::locales::EN, fewest..end).fake::<String>()
}

/// `fake::faker::lorem::raw::Paragraph` as a `String`: as many sentences of
/// filler text as a number drawn from `fewest..end`, one to a line. The draw
/// of the number rejects an empty range. Nothing is claimed of the text.
#[verifier::external_body]
pub(crate) fn lorem_paragraph(fewest: usize, end: usize) -> (text: String)
    requires
        fewest < end,
{
    fake::faker::lorem::raw::Paragraph(fake::locales::EN, fewest..end).fake::<String>()
}

/// `fake::uuid::UUIDv4` as a `String`: sixteen random bytes, marked as a
/// version 4 identifier and written by `uuid`'s hyphenated form, which is 32
/// hexadecimal digits in lower case in groups of 8, 4, 4, 4 and 12 with a
/// hyphen between them.
#[verifier::external_body]
pub(crate) fn uuid_v4() -> (text: String)
    ensures
        is_hyphenated_uuid(text@),
{
    fake::uuid::UUIDv4.fake::<String>()
}

/// `fake::faker::boolean::raw::Boolean` as a `bool`: a number is drawn from
/// `0..100`, and the result says whether it is below `ratio`. So a ratio of 0
/// never gives `true`, and one of 100 or more always does.
#[verifier::external_body]
pub(crate) fn boolean(ratio: u8) -> (drawn: bool)
    ensures
        ratio == 0 ==> !drawn,
        ratio >= 100 ==> drawn,
{
    fake::faker::boolean::raw::Boolean(fake::locales::EN, ratio).fake::<bool>()
}

/// `fake`'s draw of a `u8` from the range `low..=high`, which is `rand`'s
/// `Uniform::new_inclusive` and rejects a range whose start is above its end.
/// The number lies in the range.
#[verifier::external_body]
pub(crate) fn u8_between(low: u8, high: u8) -> (drawn: u8)
    requires
        low <= high,
    ensures
        low <= drawn <= high,
{
    (low..=high).fake::<u8>()
}

/// `fake`'s draw of an `i32` from the range `low..=high`, which is `rand`'s
/// `Uniform::new_inclusive` and rejects a range whose start is above its end.
/// The number lies in the range.
#[verifier::external_body]
pub(crate) fn i32_between(low: i32, high: i32) -> (drawn: i32)
    requires
        low <= high,
    ensures
        low <= drawn <= high,
{
    (low..=high).fake::<i32>()
}

/// `fake`'s draw of a `u32` from the range `low..=high`, which is `rand`'s
/// `Uniform::new_inclusive` and rejects a range whose start is above its end.
/// The number lies in the range.
#[verifier::external_body]
pub(crate) fn u32_between(low: u32, high: u32) -> (drawn: u32)
    requires
        low <= high,
    ensures
        low <= drawn <= high,
{
    (low..=high).fake::<u32>()
}

/// `fake`'s draw of an `i64` from the range `low..=high`, which is `rand`'s
/// `Uniform::new_inclusive` and rejects a range whose start is above its end.
/// The number lies in the range.
#[verifier::external_body]
pub(crate) fn i64_between(low: i64, high: i64) -> (drawn: i64)
    requires
        low <= high,
    ensures
        low <= drawn <= high,
{
    (low..=high).fake::<i64>()
}

/// `fake`'s draw of a `u64` from the range `low..=high`, which is `rand`'s
/// `Uniform::new_inclusive` and rejects a range whose start is above its end.
/// The number lies in the range.
#[verifier::external_body]
pub(crate) fn u64_between(low: u64, high: u64) -> (drawn: u64)
    requires
        low <= high,
    ensures
        low <= drawn <= high,
{
    (low..=high).fake::<u64>()
}

/// `rand::seq::SliceRandom::choose` on the items of `items`: `None` for no
/// items, else a reference to one of them.
#[verifier::external_body]
pub(crate) fn choose_one<T>(items: &Vec<T>) -> (chosen: Option<&T>)
    ensures
        match chosen {
            Some(item) => items@.contains(*item),
            None => items@.len() == 0,
        },
{
    items.choose(&mut rand::thread_rng())
}

/// `mongodb::bson::oid::ObjectId::new`, as its twelve bytes: the time in
/// seconds, five bytes that the process drew once, and a counter of three
/// bytes. Nothing is claimed of the identifier; the call fails on a machine
/// whose clock stands before 1970 or after 2105.
#[verifier::external_body]
pub(crate) fn new_object_id() -> (id: ObjectId) {
    ObjectId { bytes: mongodb::bson::oid::ObjectId::new().bytes() }
}

} // verus!
