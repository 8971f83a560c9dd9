//! The registry of generators: which token names which generator, and what
//! kind of value each generator yields.

use crate::text::same_text;
use crate::value::{DoubleRange, Precision, Value};
use vstd::prelude::*;

verus! {

/// A generator of scalar values. Each is named by one token, made of a
/// namespace and a method with a dot between them.
#[derive(Clone, Copy, Debug, PartialEq, Eq, Hash)]
pub enum Generator {
    /// `address.buildingNumber`
    AddressBuildingNumber,
    /// `address.cityName`
    AddressCityName,
    /// `address.cityPrefix`
    AddressCityPrefix,
    /// `address.citySuffix`
    AddressCitySuffix,
    /// `address.countryCode`
    AddressCountryCode,
    /// `address.countryName`
    AddressCountryName,
    /// `address.latitude`
    AddressLatitude,
    /// `address.longitude`
    AddressLongitude,
    /// `address.postCode`
    AddressPostCode,
    /// `address.secondaryAddress`
    AddressSecondaryAddress,
    /// `address.stateAbbr`
    AddressStateAbbr,
    /// `address.stateName`
    AddressStateName,
    /// `address.streetName`
    AddressStreetName,
    /// `address.streetSuffix`
    AddressStreetSuffix,
    /// `address.timeZone`
    AddressTimeZone,
    /// `address.zipCode`
    AddressZipCode,
    /// `boolean.boolean`
    BooleanBoolean,
    /// `chrono.date`
    ChronoDate,
    /// `chrono.datetime`
    ChronoDatetime,
    /// `chrono.duration`
    ChronoDuration,
    /// `chrono.time`
    ChronoTime,
    /// `company.bs`
    CompanyBs,
    /// `company.buzzword`
    CompanyBuzzword,
    /// `company.catchPhrase`
    CompanyCatchPhrase,
    /// `company.name`
    CompanyName,
    /// `company.profession`
    CompanyProfession,
    /// `company.suffix`
    CompanySuffix,
    /// `company.industry`
    CompanyIndustry,
    /// `creditCard.number`
    CreditCardNumber,
    /// `currency.code`
    CurrencyCode,
    /// `currency.name`
    CurrencyName,
    /// `currency.symbol`
    CurrencySymbol,
    /// `fileSystem.extension`
    FileSystemExtension,
    /// `fileSystem.fileName`
    FileSystemFileName,
    /// `fileSystem.filePath`
    FileSystemFilePath,
    /// `fileSystem.mimeType`
    FileSystemMimeType,
    /// `internet.domainSuffix`
    InternetDomainSuffix,
    /// `internet.freeEmail`
    InternetFreeEmail,
    /// `internet.ipV4`
    InternetIpV4,
    /// `internet.ipV6`
    InternetIpV6,
    /// `internet.password`
    InternetPassword,
    /// `internet.email`
    InternetEmail,
    /// `internet.username`
    InternetUsername,
    /// `job.field`
    JobField,
    /// `job.position`
    JobPosition,
    /// `job.seniority`
    JobSeniority,
    /// `job.title`
    JobTitle,
    /// `lorem.sentence`
    LoremSentence,
    /// `lorem.word`
    LoremWord,
    /// `lorem.paragraph`
    LoremParagraph,
    /// `name.firstName`
    NameFirstName,
    /// `name.lastName`
    NameLastName,
    /// `name.fullName`
    NameFullName,
    /// `number.u8`
    NumberU8,
    /// `number.i32`
    NumberI32,
    /// `number.u32`
    NumberU32,
    /// `number.i64`
    NumberI64,
    /// `number.u64`
    NumberU64,
    /// `number.f32`
    NumberF32,
    /// `number.f64`
    NumberF64,
    /// `number.phoneNumber`
    NumberPhoneNumber,
    /// `random.uuid`
    RandomUuid,
}

/// The generator that `token` names.
pub open spec fn registry(token: Seq<char>) -> Option<Generator> {
    if token == "address.buildingNumber"@ {
        Some(Generator::AddressBuildingNumber)
    } else if token == "address.cityName"@ {
        Some(Generator::AddressCityName)
    } else if token == "address.cityPrefix"@ {
        Some(Generator::AddressCityPrefix)
    } else if token == "address.citySuffix"@ {
        Some(Generator::AddressCitySuffix)
    } else if token == "address.countryCode"@ {
        Some(Generator::AddressCountryCode)
    } else if token == "address.countryName"@ {
        Some(Generator::AddressCountryName)
    } else if token == "address.latitude"@ {
        Some(Generator::AddressLatitude)
    } else if token == "address.longitude"@ {
        Some(Generator::AddressLongitude)
    } else if token == "address.postCode"@ {
        Some(Generator::AddressPostCode)
    } else if token == "address.secondaryAddress"@ {
        Some(Generator::AddressSecondaryAddress)
    } else if token == "address.stateAbbr"@ {
        Some(Generator::AddressStateAbbr)
    } else if token == "address.stateName"@ {
        Some(Generator::AddressStateName)
    } else if token == "address.streetName"@ {
        Some(Generator::AddressStreetName)
    } else if token == "address.streetSuffix"@ {
        Some(Generator::AddressStreetSuffix)
    } else if token == "address.timeZone"@ {
        Some(Generator::AddressTimeZone)
    } else if token == "address.zipCode"@ {
        Some(Generator::AddressZipCode)
    } else if token == "boolean.boolean"@ {
        Some(Generator::BooleanBoolean)
    } else if token == "chrono.date"@ {
        Some(Generator::ChronoDate)
    } else if token == "chrono.datetime"@ {
        Some(Generator::ChronoDatetime)
    } else if token == "chrono.duration"@ {
        Some(Generator::ChronoDuration)
    } else if token == "chrono.time"@ {
        Some(Generator::ChronoTime)
    } else if token == "company.bs"@ {
        Some(Generator::CompanyBs)
    } else if token == "company.buzzword"@ {
        Some(Generator::CompanyBuzzword)
    } else if token == "company.catchPhrase"@ {
        Some(Generator::CompanyCatchPhrase)
    } else if token == "company.name"@ {
        Some(Generator::CompanyName)
    } else if token == "company.profession"@ {
        Some(Generator::CompanyProfession)
    } else if token == "company.suffix"@ {
        Some(Generator::CompanySuffix)
    } else if token == "company.industry"@ {
        Some(Generator::CompanyIndustry)
    } else if token == "creditCard.number"@ {
        Some(Generator::CreditCardNumber)
    } else if token == "currency.code"@ {
        Some(Generator::CurrencyCode)
    } else if token == "currency.name"@ {
        Some(Generator::CurrencyName)
    } else if token == "currency.symbol"@ {
        Some(Generator::CurrencySymbol)
    } else if token == "fileSystem.extension"@ {
        Some(Generator::FileSystemExtension)
    } else if token == "fileSystem.fileName"@ {
        Some(Generator::FileSystemFileName)
    } else if token == "fileSystem.filePath"@ {
        Some(Generator::FileSystemFilePath)
    } else if token == "fileSystem.mimeType"@ {
        Some(Generator::FileSystemMimeType)
    } else if token == "internet.domainSuffix"@ {
        Some(Generator::InternetDomainSuffix)
    } else if token == "internet.freeEmail"@ {
        Some(Generator::InternetFreeEmail)
    } else if token == "internet.ipV4"@ {
        Some(Generator::InternetIpV4)
    } else if token == "internet.ipV6"@ {
        Some(Generator::InternetIpV6)
    } else if token == "internet.password"@ {
        Some(Generator::InternetPassword)
    } else if token == "internet.email"@ {
        Some(Generator::InternetEmail)
    } else if token == "internet.username"@ {
        Some(Generator::InternetUsername)
    } else if token == "job.field"@ {
        Some(Generator::JobField)
    } else if token == "job.position"@ {
        Some(Generator::JobPosition)
    } else if token == "job.seniority"@ {
        Some(Generator::JobSeniority)
    } else if token == "job.title"@ {
        Some(Generator::JobTitle)
    } else if token == "lorem.sentence"@ {
        Some(Generator::LoremSentence)
    } else if token == "lorem.word"@ {
        Some(Generator::LoremWord)
    } else if token == "lorem.paragraph"@ {
        Some(Generator::LoremParagraph)
    } else if token == "name.firstName"@ {
        Some(Generator::NameFirstName)
    } else if token == "name.lastName"@ {
        Some(Generator::NameLastName)
    } else if token == "name.fullName"@ {
        Some(Generator::NameFullName)
    } else if token == "number.u8"@ {
        Some(Generator::NumberU8)
    } else if token == "number.i32"@ {
        Some(Generator::NumberI32)
    } else if token == "number.u32"@ {
        Some(Generator::NumberU32)
    } else if token == "number.i64"@ {
        Some(Generator::NumberI64)
    } else if token == "number.u64"@ {
        Some(Generator::NumberU64)
    } else if token == "number.f32"@ {
        Some(Generator::NumberF32)
    } else if token == "number.f64"@ {
        Some(Generator::NumberF64)
    } else if token == "number.phoneNumber"@ {
        Some(Generator::NumberPhoneNumber)
    } else if token == "random.uuid"@ {
        Some(Generator::RandomUuid)
    } else {
        None
    }
}

/// Looks `token` up in the registry.
pub fn find_generator(token: &str) -> (found: Option<Generator>)
    ensures
        found == registry(token@),
{
    if same_text(token, "address.buildingNumber") {
        Some(Generator::AddressBuildingNumber)
    } else if same_text(token, "address.cityName") {
        Some(Generator::AddressCityName)
    } else if same_text(token, "address.cityPrefix") {
        Some(Generator::AddressCityPrefix)
    } else if same_text(token, "address.citySuffix") {
        Some(Generator::AddressCitySuffix)
    } else if same_text(token, "address.countryCode") {
        Some(Generator::AddressCountryCode)
    } else if same_text(token, "address.countryName") {
        Some(Generator::AddressCountryName)
    } else if same_text(token, "address.latitude") {
        Some(Generator::AddressLatitude)
    } else if same_text(token, "address.longitude") {
        Some(Generator::AddressLongitude)
    } else if same_text(token, "address.postCode") {
        Some(Generator::AddressPostCode)
    } else if same_text(token, "address.secondaryAddress") {
        Some(Generator::AddressSecondaryAddress)
    } else if same_text(token, "address.stateAbbr") {
        Some(Generator::AddressStateAbbr)
    } else if same_text(token, "address.stateName") {
        Some(Generator::AddressStateName)
    } else if same_text(token, "address.streetName") {
        Some(Generator::AddressStreetName)
    } else if same_text(token, "address.streetSuffix") {
        Some(Generator::AddressStreetSuffix)
    } else if same_text(token, "address.timeZone") {
        Some(Generator::AddressTimeZone)
    } else if same_text(token, "address.zipCode") {
        Some(Generator::AddressZipCode)
    } else if same_text(token, "boolean.boolean") {
        Some(Generator::BooleanBoolean)
    } else if same_text(token, "chrono.date") {
        Some(Generator::ChronoDate)
    } else if same_text(token, "chrono.datetime") {
        Some(Generator::ChronoDatetime)
    } else if same_text(token, "chrono.duration") {
        Some(Generator::ChronoDuration)
    } else if same_text(token, "chrono.time") {
        Some(Generator::ChronoTime)
    } else if same_text(token, "company.bs") {
        Some(Generator::CompanyBs)
    } else if same_text(token, "company.buzzword") {
        Some(Generator::CompanyBuzzword)
    } else if same_text(token, "company.catchPhrase") {
        Some(Generator::CompanyCatchPhrase)
    } else if same_text(token, "company.name") {
        Some(Generator::CompanyName)
    } else if same_text(token, "company.profession") {
        Some(Generator::CompanyProfession)
    } else if same_text(token, "company.suffix") {
        Some(Generator::CompanySuffix)
    } else if same_text(token, "company.industry") {
        Some(Generator::CompanyIndustry)
    } else if same_text(token, "creditCard.number") {
        Some(Generator::CreditCardNumber)
    } else if same_text(token, "currency.code") {
        Some(Generator::CurrencyCode)
    } else if same_text(token, "currency.name") {
        Some(Generator::CurrencyName)
    } else if same_text(token, "currency.symbol") {
        Some(Generator::CurrencySymbol)
    } else if same_text(token, "fileSystem.extension") {
        Some(Generator::FileSystemExtension)
    } else if same_text(token, "fileSystem.fileName") {
        Some(Generator::FileSystemFileName)
    } else if same_text(token, "fileSystem.filePath") {
        Some(Generator::FileSystemFilePath)
    } else if same_text(token, "fileSystem.mimeType") {
        Some(Generator::FileSystemMimeType)
    } else if same_text(token, "internet.domainSuffix") {
        Some(Generator::InternetDomainSuffix)
    } else if same_text(token, "internet.freeEmail") {
        Some(Generator::InternetFreeEmail)
    } else if same_text(token, "internet.ipV4") {
        Some(Generator::InternetIpV4)
    } else if same_text(token, "internet.ipV6") {
        Some(Generator::InternetIpV6)
    } else if same_text(token, "internet.password") {
        Some(Generator::InternetPassword)
    } else if same_text(token, "internet.email") {
        Some(Generator::InternetEmail)
    } else if same_text(token, "internet.username") {
        Some(Generator::InternetUsername)
    } else if same_text(token, "job.field") {
        Some(Generator::JobField)
    } else if same_text(token, "job.position") {
        Some(Generator::JobPosition)
    } else if same_text(token, "job.seniority") {
        Some(Generator::JobSeniority)
    } else if same_text(token, "job.title") {
        Some(Generator::JobTitle)
    } else if same_text(token, "lorem.sentence") {
        Some(Generator::LoremSentence)
    } else if same_text(token, "lorem.word") {
        Some(Generator::LoremWord)
    } else if same_text(token, "lorem.paragraph") {
        Some(Generator::LoremParagraph)
    } else if same_text(token, "name.firstName") {
        Some(Generator::NameFirstName)
    } else if same_text(token, "name.lastName") {
        Some(Generator::NameLastName)
    } else if same_text(token, "name.fullName") {
        Some(Generator::NameFullName)
    } else if same_text(token, "number.u8") {
        Some(Generator::NumberU8)
    } else if same_text(token, "number.i32") {
        Some(Generator::NumberI32)
    } else if same_text(token, "number.u32") {
        Some(Generator::NumberU32)
    } else if same_text(token, "number.i64") {
        Some(Generator::NumberI64)
    } else if same_text(token, "number.u64") {
        Some(Generator::NumberU64)
    } else if same_text(token, "number.f32") {
        Some(Generator::NumberF32)
    } else if same_text(token, "number.f64") {
        Some(Generator::NumberF64)
    } else if same_text(token, "number.phoneNumber") {
        Some(Generator::NumberPhoneNumber)
    } else if same_text(token, "random.uuid") {
        Some(Generator::RandomUuid)
    } else {
        None
    }
}

impl Generator {
    /// The token that names this generator.
    pub open spec fn token(self) -> Seq<char> {
        match self {
            Generator::AddressBuildingNumber => "address.buildingNumber"@,
            Generator::AddressCityName => "address.cityName"@,
            Generator::AddressCityPrefix => "address.cityPrefix"@,
            Generator::AddressCitySuffix => "address.citySuffix"@,
            Generator::AddressCountryCode => "address.countryCode"@,
            Generator::AddressCountryName => "address.countryName"@,
            Generator::AddressLatitude => "address.latitude"@,
            Generator::AddressLongitude => "address.longitude"@,
            Generator::AddressPostCode => "address.postCode"@,
            Generator::AddressSecondaryAddress => "address.secondaryAddress"@,
            Generator::AddressStateAbbr => "address.stateAbbr"@,
            Generator::AddressStateName => "address.stateName"@,
            Generator::AddressStreetName => "address.streetName"@,
            Generator::AddressStreetSuffix => "address.streetSuffix"@,
            Generator::AddressTimeZone => "address.timeZone"@,
            Generator::AddressZipCode => "address.zipCode"@,
            Generator::BooleanBoolean => "boolean.boolean"@,
            Generator::ChronoDate => "chrono.date"@,
            Generator::ChronoDatetime => "chrono.datetime"@,
            Generator::ChronoDuration => "chrono.duration"@,
            Generator::ChronoTime => "chrono.time"@,
            Generator::CompanyBs => "company.bs"@,
            Generator::CompanyBuzzword => "company.buzzword"@,
            Generator::CompanyCatchPhrase => "company.catchPhrase"@,
            Generator::CompanyName => "company.name"@,
            Generator::CompanyProfession => "company.profession"@,
            Generator::CompanySuffix => "company.suffix"@,
            Generator::CompanyIndustry => "company.industry"@,
            Generator::CreditCardNumber => "creditCard.number"@,
            Generator::CurrencyCode => "currency.code"@,
            Generator::CurrencyName => "currency.name"@,
            Generator::CurrencySymbol => "currency.symbol"@,
            Generator::FileSystemExtension => "fileSystem.extension"@,
            Generator::FileSystemFileName => "fileSystem.fileName"@,
            Generator::FileSystemFilePath => "fileSystem.filePath"@,
            Generator::FileSystemMimeType => "fileSystem.mimeType"@,
            Generator::InternetDomainSuffix => "internet.domainSuffix"@,
            Generator::InternetFreeEmail => "internet.freeEmail"@,
            Generator::InternetIpV4 => "internet.ipV4"@,
            Generator::InternetIpV6 => "internet.ipV6"@,
            Generator::InternetPassword => "internet.password"@,
            Generator::InternetEmail => "internet.email"@,
            Generator::InternetUsername => "internet.username"@,
            Generator::JobField => "job.field"@,
            Generator::JobPosition => "job.position"@,
            Generator::JobSeniority => "job.seniority"@,
            Generator::JobTitle => "job.title"@,
            Generator::LoremSentence => "lorem.sentence"@,
            Generator::LoremWord => "lorem.word"@,
            Generator::LoremParagraph => "lorem.paragraph"@,
            Generator::NameFirstName => "name.firstName"@,
            Generator::NameLastName => "name.lastName"@,
            Generator::NameFullName => "name.fullName"@,
            Generator::NumberU8 => "number.u8"@,
            Generator::NumberI32 => "number.i32"@,
            Generator::NumberU32 => "number.u32"@,
            Generator::NumberI64 => "number.i64"@,
            Generator::NumberU64 => "number.u64"@,
            Generator::NumberF32 => "number.f32"@,
            Generator::NumberF64 => "number.f64"@,
            Generator::NumberPhoneNumber => "number.phoneNumber"@,
            Generator::RandomUuid => "random.uuid"@,
        }
    }
}

/// `token` is long enough for a token of the registry and begins with the
/// first three letters of one of its namespaces. A text that fails this test
/// names no generator.
pub open spec fn begins_like_a_namespace(token: Seq<char>) -> bool {
    &&& token.len() >= 9
    &&& {
        ||| token[0] == 'a' && token[1] == 'd' && token[2] == 'd'
        ||| token[0] == 'b' && token[1] == 'o' && token[2] == 'o'
        ||| token[0] == 'c' && token[1] == 'h' && token[2] == 'r'
        ||| token[0] == 'c' && token[1] == 'o' && token[2] == 'm'
        ||| token[0] == 'c' && token[1] == 'r' && token[2] == 'e'
        ||| token[0] == 'c' && token[1] == 'u' && token[2] == 'r'
        ||| token[0] == 'f' && token[1] == 'i' && token[2] == 'l'
        ||| token[0] == 'i' && token[1] == 'n' && token[2] == 't'
        ||| token[0] == 'j' && token[1] == 'o' && token[2] == 'b'
        ||| token[0] == 'l' && token[1] == 'o' && token[2] == 'r'
        ||| token[0] == 'n' && token[1] == 'a' && token[2] == 'm'
        ||| token[0] == 'n' && token[1] == 'u' && token[2] == 'm'
        ||| token[0] == 'r' && token[1] == 'a' && token[2] == 'n'
    }
}

/// Every generator is found by its token: no entry of the registry hides
/// another.
pub proof fn lemma_generator_is_found_by_its_token(generator: Generator)
    ensures
        registry(generator.token()) == Some(generator),
{
    // Tokens of different lengths differ; two of one length differ at one of the
    // positions that are read here.
    {
        reveal_strlit("address.buildingNumber");
        let t = "address.buildingNumber"@;
        assert(t.len() == 22);
    }
    {
        reveal_strlit("address.cityName");
        let t = "address.cityName"@;
        assert(t.len() == 16 && t[8] == 'c');
    }
    {
        reveal_strlit("address.cityPrefix");
        let t = "address.cityPrefix"@;
        assert(t.len() == 18 && t[0] == 'a' && t[12] == 'P');
    }
    {
        reveal_strlit("address.citySuffix");
        let t = "address.citySuffix"@;
        assert(t.len() == 18 && t[0] == 'a' && t[12] == 'S');
    }
    {
        reveal_strlit("address.countryCode");
        let t = "address.countryCode"@;
        assert(t.len() == 19 && t[0] == 'a' && t[15] == 'C');
    }
    {
        reveal_strlit("address.countryName");
        let t = "address.countryName"@;
        assert(t.len() == 19 && t[0] == 'a' && t[15] == 'N');
    }
    {
        reveal_strlit("address.latitude");
        let t = "address.latitude"@;
        assert(t.len() == 16 && t[8] == 'l');
    }
    {
        reveal_strlit("address.longitude");
        let t = "address.longitude"@;
        assert(t.len() == 17 && t[13] == 't');
    }
    {
        reveal_strlit("address.postCode");
        let t = "address.postCode"@;
        assert(t.len() == 16 && t[8] == 'p');
    }
    {
        reveal_strlit("address.secondaryAddress");
        let t = "address.secondaryAddress"@;
        assert(t.len() == 24);
    }
    {
        reveal_strlit("address.stateAbbr");
        let t = "address.stateAbbr"@;
        assert(t.len() == 17 && t[13] == 'A');
    }
    {
        reveal_strlit("address.stateName");
        let t = "address.stateName"@;
        assert(t.len() == 17 && t[13] == 'N');
    }
    {
        reveal_strlit("address.streetName");
        let t = "address.streetName"@;
        assert(t.len() == 18 && t[0] == 'a' && t[12] == 'e');
    }
    {
        reveal_strlit("address.streetSuffix");
        let t = "address.streetSuffix"@;
        assert(t.len() == 20 && t[0] == 'a');
    }
    {
        reveal_strlit("address.timeZone");
        let t = "address.timeZone"@;
        assert(t.len() == 16 && t[8] == 't');
    }
    {
        reveal_strlit("address.zipCode");
        let t = "address.zipCode"@;
        assert(t.len() == 15 && t[8] == 'z');
    }
    {
        reveal_strlit("boolean.boolean");
        let t = "boolean.boolean"@;
        assert(t.len() == 15 && t[8] == 'b');
    }
    {
        reveal_strlit("chrono.date");
        let t = "chrono.date"@;
        assert(t.len() == 11 && t[7] == 'd');
    }
    {
        reveal_strlit("chrono.datetime");
        let t = "chrono.datetime"@;
        assert(t.len() == 15 && t[8] == 'a');
    }
    {
        reveal_strlit("chrono.duration");
        let t = "chrono.duration"@;
        assert(t.len() == 15 && t[8] == 'u');
    }
    {
        reveal_strlit("chrono.time");
        let t = "chrono.time"@;
        assert(t.len() == 11 && t[7] == 't');
    }
    {
        reveal_strlit("company.bs");
        let t = "company.bs"@;
        assert(t.len() == 10 && t[7] == '.' && t[8] == 'b');
    }
    {
        reveal_strlit("company.buzzword");
        let t = "company.buzzword"@;
        assert(t.len() == 16 && t[8] == 'b');
    }
    {
        reveal_strlit("company.catchPhrase");
        let t = "company.catchPhrase"@;
        assert(t.len() == 19 && t[0] == 'c' && t[15] == 'r');
    }
    {
        reveal_strlit("company.name");
        let t = "company.name"@;
        assert(t.len() == 12 && t[0] == 'c');
    }
    {
        reveal_strlit("company.profession");
        let t = "company.profession"@;
        assert(t.len() == 18 && t[0] == 'c' && t[12] == 'e');
    }
    {
        reveal_strlit("company.suffix");
        let t = "company.suffix"@;
        assert(t.len() == 14 && t[0] == 'c');
    }
    {
        reveal_strlit("company.industry");
        let t = "company.industry"@;
        assert(t.len() == 16 && t[8] == 'i');
    }
    {
        reveal_strlit("creditCard.number");
        let t = "creditCard.number"@;
        assert(t.len() == 17 && t[13] == 'm');
    }
    {
        reveal_strlit("currency.code");
        let t = "currency.code"@;
        assert(t.len() == 13 && t[5] == 'n' && t[9] == 'c' && t[12] == 'e');
    }
    {
        reveal_strlit("currency.name");
        let t = "currency.name"@;
        assert(t.len() == 13 && t[5] == 'n' && t[9] == 'n' && t[12] == 'e');
    }
    {
        reveal_strlit("currency.symbol");
        let t = "currency.symbol"@;
        assert(t.len() == 15 && t[8] == '.');
    }
    {
        reveal_strlit("fileSystem.extension");
        let t = "fileSystem.extension"@;
        assert(t.len() == 20 && t[0] == 'f');
    }
    {
        reveal_strlit("fileSystem.fileName");
        let t = "fileSystem.fileName"@;
        assert(t.len() == 19 && t[0] == 'f' && t[15] == 'N');
    }
    {
        reveal_strlit("fileSystem.filePath");
        let t = "fileSystem.filePath"@;
        assert(t.len() == 19 && t[0] == 'f' && t[15] == 'P');
    }
    {
        reveal_strlit("fileSystem.mimeType");
        let t = "fileSystem.mimeType"@;
        assert(t.len() == 19 && t[0] == 'f' && t[15] == 'T');
    }
    {
        reveal_strlit("internet.domainSuffix");
        let t = "internet.domainSuffix"@;
        assert(t.len() == 21);
    }
    {
        reveal_strlit("internet.freeEmail");
        let t = "internet.freeEmail"@;
        assert(t.len() == 18 && t[0] == 'i' && t[12] == 'e');
    }
    {
        reveal_strlit("internet.ipV4");
        let t = "internet.ipV4"@;
        assert(t.len() == 13 && t[5] == 'n' && t[9] == 'i' && t[12] == '4');
    }
    {
        reveal_strlit("internet.ipV6");
        let t = "internet.ipV6"@;
        assert(t.len() == 13 && t[5] == 'n' && t[9] == 'i' && t[12] == '6');
    }
    {
        reveal_strlit("internet.password");
        let t = "internet.password"@;
        assert(t.len() == 17 && t[13] == 'w');
    }
    {
        reveal_strlit("internet.email");
        let t = "internet.email"@;
        assert(t.len() == 14 && t[0] == 'i');
    }
    {
        reveal_strlit("internet.username");
        let t = "internet.username"@;
        assert(t.len() == 17 && t[13] == 'n');
    }
    {
        reveal_strlit("job.field");
        let t = "job.field"@;
        assert(t.len() == 9 && t[4] == 'f');
    }
    {
        reveal_strlit("job.position");
        let t = "job.position"@;
        assert(t.len() == 12 && t[0] == 'j');
    }
    {
        reveal_strlit("job.seniority");
        let t = "job.seniority"@;
        assert(t.len() == 13 && t[5] == 'e' && t[9] == 'r' && t[12] == 'y');
    }
    {
        reveal_strlit("job.title");
        let t = "job.title"@;
        assert(t.len() == 9 && t[4] == 't');
    }
    {
        reveal_strlit("lorem.sentence");
        let t = "lorem.sentence"@;
        assert(t.len() == 14 && t[0] == 'l');
    }
    {
        reveal_strlit("lorem.word");
        let t = "lorem.word"@;
        assert(t.len() == 10 && t[7] == 'o' && t[8] == 'r');
    }
    {
        reveal_strlit("lorem.paragraph");
        let t = "lorem.paragraph"@;
        assert(t.len() == 15 && t[8] == 'r');
    }
    {
        reveal_strlit("name.firstName");
        let t = "name.firstName"@;
        assert(t.len() == 14 && t[0] == 'n');
    }
    {
        reveal_strlit("name.lastName");
        let t = "name.lastName"@;
        assert(t.len() == 13 && t[5] == 'l' && t[9] == 'N' && t[12] == 'e');
    }
    {
        reveal_strlit("name.fullName");
        let t = "name.fullName"@;
        assert(t.len() == 13 && t[5] == 'f' && t[9] == 'N' && t[12] == 'e');
    }
    {
        reveal_strlit("number.u8");
        let t = "number.u8"@;
        assert(t.len() == 9 && t[4] == 'e');
    }
    {
        reveal_strlit("number.i32");
        let t = "number.i32"@;
        assert(t.len() == 10 && t[7] == 'i' && t[8] == '3');
    }
    {
        reveal_strlit("number.u32");
        let t = "number.u32"@;
        assert(t.len() == 10 && t[7] == 'u' && t[8] == '3');
    }
    {
        reveal_strlit("number.i64");
        let t = "number.i64"@;
        assert(t.len() == 10 && t[7] == 'i' && t[8] == '6');
    }
    {
        reveal_strlit("number.u64");
        let t = "number.u64"@;
        assert(t.len() == 10 && t[7] == 'u' && t[8] == '6');
    }
    {
        reveal_strlit("number.f32");
        let t = "number.f32"@;
        assert(t.len() == 10 && t[7] == 'f' && t[8] == '3');
    }
    {
        reveal_strlit("number.f64");
        let t = "number.f64"@;
        assert(t.len() == 10 && t[7] == 'f' && t[8] == '6');
    }
    {
        reveal_strlit("number.phoneNumber");
        let t = "number.phoneNumber"@;
        assert(t.len() == 18 && t[0] == 'n' && t[12] == 'N');
    }
    {
        reveal_strlit("random.uuid");
        let t = "random.uuid"@;
        assert(t.len() == 11 && t[7] == 'u');
    }
}

/// A text that finds a generator is that generator's token.
pub proof fn lemma_found_generator_has_the_token(token: Seq<char>)
    ensures
        match registry(token) {
            Some(generator) => generator.token() == token,
            None => true,
        },
{
}

/// Every token of the registry begins like a namespace.
pub proof fn lemma_registry_tokens_begin_like_a_namespace(token: Seq<char>)
    ensures
        registry(token) is Some ==> begins_like_a_namespace(token),
{
    {
        reveal_strlit("address.buildingNumber");
        let t = "address.buildingNumber"@;
        assert(t.len() == 22 && t[0] == 'a' && t[1] == 'd' && t[2] == 'd');
    }
    {
        reveal_strlit("address.cityName");
        let t = "address.cityName"@;
        assert(t.len() == 16 && t[0] == 'a' && t[1] == 'd' && t[2] == 'd');
    }
    {
        reveal_strlit("address.cityPrefix");
        let t = "address.cityPrefix"@;
        assert(t.len() == 18 && t[0] == 'a' && t[1] == 'd' && t[2] == 'd');
    }
    {
        reveal_strlit("address.citySuffix");
        let t = "address.citySuffix"@;
        assert(t.len() == 18 && t[0] == 'a' && t[1] == 'd' && t[2] == 'd');
    }
    {
        reveal_strlit("address.countryCode");
        let t = "address.countryCode"@;
        assert(t.len() == 19 && t[0] == 'a' && t[1] == 'd' && t[2] == 'd');
    }
    {
        reveal_strlit("address.countryName");
        let t = "address.countryName"@;
        assert(t.len() == 19 && t[0] == 'a' && t[1] == 'd' && t[2] == 'd');
    }
    {
        reveal_strlit("address.latitude");
        let t = "address.latitude"@;
        assert(t.len() == 16 && t[0] == 'a' && t[1] == 'd' && t[2] == 'd');
    }
    {
        reveal_strlit("address.longitude");
        let t = "address.longitude"@;
        assert(t.len() == 17 && t[0] == 'a' && t[1] == 'd' && t[2] == 'd');
    }
    {
        reveal_strlit("address.postCode");
        let t = "address.postCode"@;
        assert(t.len() == 16 && t[0] == 'a' && t[1] == 'd' && t[2] == 'd');
    }
    {
        reveal_strlit("address.secondaryAddress");
        let t = "address.secondaryAddress"@;
        assert(t.len() == 24 && t[0] == 'a' && t[1] == 'd' && t[2] == 'd');
    }
    {
        reveal_strlit("address.stateAbbr");
        let t = "address.stateAbbr"@;
        assert(t.len() == 17 && t[0] == 'a' && t[1] == 'd' && t[2] == 'd');
    }
    {
        reveal_strlit("address.stateName");
        let t = "address.stateName"@;
        assert(t.len() == 17 && t[0] == 'a' && t[1] == 'd' && t[2] == 'd');
    }
    {
        reveal_strlit("address.streetName");
        let t = "address.streetName"@;
        assert(t.len() == 18 && t[0] == 'a' && t[1] == 'd' && t[2] == 'd');
    }
    {
        reveal_strlit("address.streetSuffix");
        let t = "address.streetSuffix"@;
        assert(t.len() == 20 && t[0] == 'a' && t[1] == 'd' && t[2] == 'd');
    }
    {
        reveal_strlit("address.timeZone");
        let t = "address.timeZone"@;
        assert(t.len() == 16 && t[0] == 'a' && t[1] == 'd' && t[2] == 'd');
    }
    {
        reveal_strlit("address.zipCode");
        let t = "address.zipCode"@;
        assert(t.len() == 15 && t[0] == 'a' && t[1] == 'd' && t[2] == 'd');
    }
    {
        reveal_strlit("boolean.boolean");
        let t = "boolean.boolean"@;
        assert(t.len() == 15 && t[0] == 'b' && t[1] == 'o' && t[2] == 'o');
    }
    {
        reveal_strlit("chrono.date");
        let t = "chrono.date"@;
        assert(t.len() == 11 && t[0] == 'c' && t[1] == 'h' && t[2] == 'r');
    }
    {
        reveal_strlit("chrono.datetime");
        let t = "chrono.datetime"@;
        assert(t.len() == 15 && t[0] == 'c' && t[1] == 'h' && t[2] == 'r');
    }
    {
        reveal_strlit("chrono.duration");
        let t = "chrono.duration"@;
        assert(t.len() == 15 && t[0] == 'c' && t[1] == 'h' && t[2] == 'r');
    }
    {
        reveal_strlit("chrono.time");
        let t = "chrono.time"@;
        assert(t.len() == 11 && t[0] == 'c' && t[1] == 'h' && t[2] == 'r');
    }
    {
        reveal_strlit("company.bs");
        let t = "company.bs"@;
        assert(t.len() == 10 && t[0] == 'c' && t[1] == 'o' && t[2] == 'm');
    }
    {
        reveal_strlit("company.buzzword");
        let t = "company.buzzword"@;
        assert(t.len() == 16 && t[0] == 'c' && t[1] == 'o' && t[2] == 'm');
    }
    {
        reveal_strlit("company.catchPhrase");
        let t = "company.catchPhrase"@;
        assert(t.len() == 19 && t[0] == 'c' && t[1] == 'o' && t[2] == 'm');
    }
    {
        reveal_strlit("company.name");
        let t = "company.name"@;
        assert(t.len() == 12 && t[0] == 'c' && t[1] == 'o' && t[2] == 'm');
    }
    {
        reveal_strlit("company.profession");
        let t = "company.profession"@;
        assert(t.len() == 18 && t[0] == 'c' && t[1] == 'o' && t[2] == 'm');
    }
    {
        reveal_strlit("company.suffix");
        let t = "company.suffix"@;
        assert(t.len() == 14 && t[0] == 'c' && t[1] == 'o' && t[2] == 'm');
    }
    {
        reveal_strlit("company.industry");
        let t = "company.industry"@;
        assert(t.len() == 16 && t[0] == 'c' && t[1] == 'o' && t[2] == 'm');
    }
    {
        reveal_strlit("creditCard.number");
        let t = "creditCard.number"@;
        assert(t.len() == 17 && t[0] == 'c' && t[1] == 'r' && t[2] == 'e');
    }
    {
        reveal_strlit("currency.code");
        let t = "currency.code"@;
        assert(t.len() == 13 && t[0] == 'c' && t[1] == 'u' && t[2] == 'r');
    }
    {
        reveal_strlit("currency.name");
        let t = "currency.name"@;
        assert(t.len() == 13 && t[0] == 'c' && t[1] == 'u' && t[2] == 'r');
    }
    {
        reveal_strlit("currency.symbol");
        let t = "currency.symbol"@;
        assert(t.len() == 15 && t[0] == 'c' && t[1] == 'u' && t[2] == 'r');
    }
    {
        reveal_strlit("fileSystem.extension");
        let t = "fileSystem.extension"@;
        assert(t.len() == 20 && t[0] == 'f' && t[1] == 'i' && t[2] == 'l');
    }
    {
        reveal_strlit("fileSystem.fileName");
        let t = "fileSystem.fileName"@;
        assert(t.len() == 19 && t[0] == 'f' && t[1] == 'i' && t[2] == 'l');
    }
    {
        reveal_strlit("fileSystem.filePath");
        let t = "fileSystem.filePath"@;
        assert(t.len() == 19 && t[0] == 'f' && t[1] == 'i' && t[2] == 'l');
    }
    {
        reveal_strlit("fileSystem.mimeType");
        let t = "fileSystem.mimeType"@;
        assert(t.len() == 19 && t[0] == 'f' && t[1] == 'i' && t[2] == 'l');
    }
    {
        reveal_strlit("internet.domainSuffix");
        let t = "internet.domainSuffix"@;
        assert(t.len() == 21 && t[0] == 'i' && t[1] == 'n' && t[2] == 't');
    }
    {
        reveal_strlit("internet.freeEmail");
        let t = "internet.freeEmail"@;
        assert(t.len() == 18 && t[0] == 'i' && t[1] == 'n' && t[2] == 't');
    }
    {
        reveal_strlit("internet.ipV4");
        let t = "internet.ipV4"@;
        assert(t.len() == 13 && t[0] == 'i' && t[1] == 'n' && t[2] == 't');
    }
    {
        reveal_strlit("internet.ipV6");
        let t = "internet.ipV6"@;
        assert(t.len() == 13 && t[0] == 'i' && t[1] == 'n' && t[2] == 't');
    }
    {
        reveal_strlit("internet.password");
        let t = "internet.password"@;
        assert(t.len() == 17 && t[0] == 'i' && t[1] == 'n' && t[2] == 't');
    }
    {
        reveal_strlit("internet.email");
        let t = "internet.email"@;
        assert(t.len() == 14 && t[0] == 'i' && t[1] == 'n' && t[2] == 't');
    }
    {
        reveal_strlit("internet.username");
        let t = "internet.username"@;
        assert(t.len() == 17 && t[0] == 'i' && t[1] == 'n' && t[2] == 't');
    }
    {
        reveal_strlit("job.field");
        let t = "job.field"@;
        assert(t.len() == 9 && t[0] == 'j' && t[1] == 'o' && t[2] == 'b');
    }
    {
        reveal_strlit("job.position");
        let t = "job.position"@;
        assert(t.len() == 12 && t[0] == 'j' && t[1] == 'o' && t[2] == 'b');
    }
    {
        reveal_strlit("job.seniority");
        let t = "job.seniority"@;
        assert(t.len() == 13 && t[0] == 'j' && t[1] == 'o' && t[2] == 'b');
    }
    {
        reveal_strlit("job.title");
        let t = "job.title"@;
        assert(t.len() == 9 && t[0] == 'j' && t[1] == 'o' && t[2] == 'b');
    }
    {
        reveal_strlit("lorem.sentence");
        let t = "lorem.sentence"@;
        assert(t.len() == 14 && t[0] == 'l' && t[1] == 'o' && t[2] == 'r');
    }
    {
        reveal_strlit("lorem.word");
        let t = "lorem.word"@;
        assert(t.len() == 10 && t[0] == 'l' && t[1] == 'o' && t[2] == 'r');
    }
    {
        reveal_strlit("lorem.paragraph");
        let t = "lorem.paragraph"@;
        assert(t.len() == 15 && t[0] == 'l' && t[1] == 'o' && t[2] == 'r');
    }
    {
        reveal_strlit("name.firstName");
        let t = "name.firstName"@;
        assert(t.len() == 14 && t[0] == 'n' && t[1] == 'a' && t[2] == 'm');
    }
    {
        reveal_strlit("name.lastName");
        let t = "name.lastName"@;
        assert(t.len() == 13 && t[0] == 'n' && t[1] == 'a' && t[2] == 'm');
    }
    {
        reveal_strlit("name.fullName");
        let t = "name.fullName"@;
        assert(t.len() == 13 && t[0] == 'n' && t[1] == 'a' && t[2] == 'm');
    }
    {
        reveal_strlit("number.u8");
        let t = "number.u8"@;
        assert(t.len() == 9 && t[0] == 'n' && t[1] == 'u' && t[2] == 'm');
    }
    {
        reveal_strlit("number.i32");
        let t = "number.i32"@;
        assert(t.len() == 10 && t[0] == 'n' && t[1] == 'u' && t[2] == 'm');
    }
    {
        reveal_strlit("number.u32");
        let t = "number.u32"@;
        assert(t.len() == 10 && t[0] == 'n' && t[1] == 'u' && t[2] == 'm');
    }
    {
        reveal_strlit("number.i64");
        let t = "number.i64"@;
        assert(t.len() == 10 && t[0] == 'n' && t[1] == 'u' && t[2] == 'm');
    }
    {
        reveal_strlit("number.u64");
        let t = "number.u64"@;
        assert(t.len() == 10 && t[0] == 'n' && t[1] == 'u' && t[2] == 'm');
    }
    {
        reveal_strlit("number.f32");
        let t = "number.f32"@;
        assert(t.len() == 10 && t[0] == 'n' && t[1] == 'u' && t[2] == 'm');
    }
    {
        reveal_strlit("number.f64");
        let t = "number.f64"@;
        assert(t.len() == 10 && t[0] == 'n' && t[1] == 'u' && t[2] == 'm');
    }
    {
        reveal_strlit("number.phoneNumber");
        let t = "number.phoneNumber"@;
        assert(t.len() == 18 && t[0] == 'n' && t[1] == 'u' && t[2] == 'm');
    }
    {
        reveal_strlit("random.uuid");
        let t = "random.uuid"@;
        assert(t.len() == 11 && t[0] == 'r' && t[1] == 'a' && t[2] == 'n');
    }
}

/// The kind of value that a generator yields.
pub enum Shape {
    /// A text.
    Text,
    /// A text of at least `shortest` and fewer than `end` characters.
    BoundedText { shortest: int, end: int },
    /// A text of `count` decimal digits.
    Digits { count: int },
    /// Two texts with one blank between them.
    TwoNames,
    /// A text that is an identifier in the canonical textual form: 32
    /// hexadecimal digits in lower case, in groups of 8, 4, 4, 4 and 12 with a
    /// hyphen between them.
    Uuid,
    /// A truth value.
    Boolean,
    /// A 32-bit integer between two bounds, both included.
    Int32 { low: int, high: int },
    /// A 64-bit integer between two bounds, both included.
    Int64 { low: int, high: int },
    /// A double drawn from a range.
    Double(DoubleRange),
}

/// `c` is a hexadecimal digit in lower case.
pub open spec fn is_lower_hex_digit(c: char) -> bool {
    ('0' <= c && c <= '9') || ('a' <= c && c <= 'f')
}

/// `text` is an identifier in the canonical textual form.
pub open spec fn is_hyphenated_uuid(text: Seq<char>) -> bool {
    &&& text.len() == 36
    &&& forall|i: int|
        0 <= i < 36 ==> if i == 8 || i == 13 || i == 18 || i == 23 {
            #[trigger] text[i] == '-'
        } else {
            is_lower_hex_digit(text[i])
        }
}

/// `drawn` may stand where a number format has `pattern`: a digit for `#`, a
/// digit other than 0 for `^`, and the character itself for every other.
pub open spec fn fits_pattern(pattern: char, drawn: char) -> bool {
    if pattern == '#' {
        '0' <= drawn <= '9'
    } else if pattern == '^' {
        '1' <= drawn <= '9'
    } else {
        drawn == pattern
    }
}

/// `text` is a number written after `format`, character for character.
pub open spec fn follows_format(text: Seq<char>, format: Seq<char>) -> bool {
    &&& text.len() == format.len()
    &&& forall|i: int| 0 <= i < format.len() ==> fits_pattern(format[i], #[trigger] text[i])
}

/// `text` is two texts with one blank between them.
pub open spec fn is_two_names(text: Seq<char>) -> bool {
    exists|first: Seq<char>, last: Seq<char>| text == #[trigger] joined_names(first, last)
}

/// `first`, a blank and `last`.
pub open spec fn joined_names(first: Seq<char>, last: Seq<char>) -> Seq<char> {
    first + seq![' '] + last
}

/// The bounds of the numbers that `number.f32` draws.
pub open spec fn single_range() -> DoubleRange {
    DoubleRange { low: 0, high: 1000, inclusive: false, precision: Precision::Single }
}

/// The bounds of the numbers that `number.f64` draws.
pub open spec fn double_range() -> DoubleRange {
    DoubleRange { low: 0, high: 1000, inclusive: true, precision: Precision::Double }
}

impl Generator {
    /// The kind of value that this generator yields.
    pub open spec fn shape(self) -> Shape {
        match self {
            Generator::BooleanBoolean => Shape::Boolean,
            Generator::ChronoDuration => Shape::Digits { count: 3 },
            Generator::InternetPassword => Shape::BoundedText { shortest: 8, end: 12 },
            Generator::NameFullName => Shape::TwoNames,
            Generator::NumberU8 => Shape::Int32 { low: 0, high: 255 },
            Generator::NumberI32 => Shape::Int32 { low: 0, high: 1000 },
            Generator::NumberU32 => Shape::Int64 { low: 0, high: 1000 },
            Generator::NumberI64 => Shape::Int64 { low: 0, high: 1000 },
            Generator::NumberU64 => Shape::Int64 { low: 0, high: 1000 },
            Generator::NumberF32 => Shape::Double(single_range()),
            Generator::NumberF64 => Shape::Double(double_range()),
            Generator::RandomUuid => Shape::Uuid,
            _ => Shape::Text,
        }
    }

    /// `value` is of the kind that this generator yields.
    pub open spec fn admits(self, value: Value) -> bool {
        self.shape().admits(value)
    }
}

impl Shape {
    /// `value` is of this kind.
    pub open spec fn admits(self, value: Value) -> bool {
        match self {
            Shape::Text => value is String,
            Shape::BoundedText { shortest, end } => value matches Value::String(text) && shortest
                <= text@.len() < end,
            Shape::Digits { count } => value matches Value::String(text) && text@.len() == count
                && forall|i: int| 0 <= i < text@.len() ==> '0' <= #[trigger] text@[i] <= '9',
            Shape::TwoNames => value matches Value::String(text) && is_two_names(text@),
            Shape::Uuid => value matches Value::String(text) && is_hyphenated_uuid(text@),
            Shape::Boolean => value is Boolean,
            Shape::Int32 { low, high } => value matches Value::Int32(n) && low <= n <= high,
            Shape::Int64 { low, high } => value matches Value::Int64(n) && low <= n <= high,
            Shape::Double(range) => value == Value::Double(range),
        }
    }
}

} // verus!
