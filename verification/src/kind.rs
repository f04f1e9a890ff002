//! The minor generator kinds: one closed enumeration per major category, each
//! with the two spellings under which a directive may name its variants.
use crate::faker::FakerKind;
use crate::minor::Minor;
use crate::text::lower;
use vstd::prelude::*;

verus! {

/// Generators of internet-related values.
#[derive(Clone, Copy, Debug, PartialEq, Eq, Structural)]
pub enum InternetKind {
    FreeEmailProvider,
    DomainSuffix,
    UserName,
    FreeEmail,
    SafeEmail,
    Password,
    Ip,
    Ipv4,
    Ipv6,
    Color,
    UserAgent,
}

impl Minor for InternetKind {
    open spec fn label(self) -> Seq<char> {
        match self {
            InternetKind::FreeEmailProvider => "free_email_provider"@,
            InternetKind::DomainSuffix => "domain_suffix"@,
            InternetKind::UserName => "user_name"@,
            InternetKind::FreeEmail => "free_email"@,
            InternetKind::SafeEmail => "safe_email"@,
            InternetKind::Password => "password"@,
            InternetKind::Ip => "ip"@,
            InternetKind::Ipv4 => "ipv4"@,
            InternetKind::Ipv6 => "ipv6"@,
            InternetKind::Color => "color"@,
            InternetKind::UserAgent => "user_agent"@,
        }
    }

    open spec fn compact(self) -> Seq<char> {
        match self {
            InternetKind::FreeEmailProvider => "freeemailprovider"@,
            InternetKind::DomainSuffix => "domainsuffix"@,
            InternetKind::UserName => "username"@,
            InternetKind::FreeEmail => "freeemail"@,
            InternetKind::SafeEmail => "safeemail"@,
            InternetKind::Password => "password"@,
            InternetKind::Ip => "ip"@,
            InternetKind::Ipv4 => "ipv4"@,
            InternetKind::Ipv6 => "ipv6"@,
            InternetKind::Color => "color"@,
            InternetKind::UserAgent => "useragent"@,
        }
    }

    open spec fn listed() -> Seq<Self> {
        seq![
            InternetKind::FreeEmailProvider,
            InternetKind::DomainSuffix,
            InternetKind::UserName,
            InternetKind::FreeEmail,
            InternetKind::SafeEmail,
            InternetKind::Password,
            InternetKind::Ip,
            InternetKind::Ipv4,
            InternetKind::Ipv6,
            InternetKind::Color,
            InternetKind::UserAgent,
        ]
    }

    open spec fn kind(self) -> FakerKind {
        FakerKind::Internet(self)
    }

    fn name(self) -> (r: &'static str) {
        match self {
            InternetKind::FreeEmailProvider => "free_email_provider",
            InternetKind::DomainSuffix => "domain_suffix",
            InternetKind::UserName => "user_name",
            InternetKind::FreeEmail => "free_email",
            InternetKind::SafeEmail => "safe_email",
            InternetKind::Password => "password",
            InternetKind::Ip => "ip",
            InternetKind::Ipv4 => "ipv4",
            InternetKind::Ipv6 => "ipv6",
            InternetKind::Color => "color",
            InternetKind::UserAgent => "user_agent",
        }
    }

    fn compact_name(self) -> (r: &'static str) {
        match self {
            InternetKind::FreeEmailProvider => "freeemailprovider",
            InternetKind::DomainSuffix => "domainsuffix",
            InternetKind::UserName => "username",
            InternetKind::FreeEmail => "freeemail",
            InternetKind::SafeEmail => "safeemail",
            InternetKind::Password => "password",
            InternetKind::Ip => "ip",
            InternetKind::Ipv4 => "ipv4",
            InternetKind::Ipv6 => "ipv6",
            InternetKind::Color => "color",
            InternetKind::UserAgent => "useragent",
        }
    }

    fn all() -> (v: Vec<Self>) {
        vec![
            InternetKind::FreeEmailProvider,
            InternetKind::DomainSuffix,
            InternetKind::UserName,
            InternetKind::FreeEmail,
            InternetKind::SafeEmail,
            InternetKind::Password,
            InternetKind::Ip,
            InternetKind::Ipv4,
            InternetKind::Ipv6,
            InternetKind::Color,
            InternetKind::UserAgent,
        ]
    }

    fn wrap(self) -> (k: FakerKind) {
        FakerKind::Internet(self)
    }

    proof fn lemma_listed_complete(k: Self) {
        let all = Self::listed();
        match k {
            InternetKind::FreeEmailProvider => assert(all[0] == k),
            InternetKind::DomainSuffix => assert(all[1] == k),
            InternetKind::UserName => assert(all[2] == k),
            InternetKind::FreeEmail => assert(all[3] == k),
            InternetKind::SafeEmail => assert(all[4] == k),
            InternetKind::Password => assert(all[5] == k),
            InternetKind::Ip => assert(all[6] == k),
            InternetKind::Ipv4 => assert(all[7] == k),
            InternetKind::Ipv6 => assert(all[8] == k),
            InternetKind::Color => assert(all[9] == k),
            InternetKind::UserAgent => assert(all[10] == k),
        }
    }

    proof fn lemma_accepts_one(a: Self, b: Self, token: Seq<char>) {
        reveal_strlit("free_email_provider");
        reveal_strlit("freeemailprovider");
        reveal_strlit("domain_suffix");
        reveal_strlit("domainsuffix");
        reveal_strlit("user_name");
        reveal_strlit("username");
        reveal_strlit("free_email");
        reveal_strlit("freeemail");
        reveal_strlit("safe_email");
        reveal_strlit("safeemail");
        reveal_strlit("password");
        reveal_strlit("ip");
        reveal_strlit("ipv4");
        reveal_strlit("ipv6");
        reveal_strlit("color");
        reveal_strlit("user_agent");
        reveal_strlit("useragent");
        assert(lower("free_email_provider"@).len() == 19);
        assert(lower("freeemailprovider"@).len() == 17);
        assert(lower("domain_suffix"@).len() == 13);
        assert(lower("domainsuffix"@).len() == 12);
        assert(lower("user_name"@).len() == 9 && lower("user_name"@)[0] == 'u'
            && lower("user_name"@)[4] == '_');
        assert(lower("username"@).len() == 8 && lower("username"@)[0] == 'u');
        assert(lower("free_email"@).len() == 10 && lower("free_email"@)[0] == 'f');
        assert(lower("freeemail"@).len() == 9 && lower("freeemail"@)[0] == 'f'
            && lower("freeemail"@)[4] == 'e');
        assert(lower("safe_email"@).len() == 10 && lower("safe_email"@)[0] == 's');
        assert(lower("safeemail"@).len() == 9 && lower("safeemail"@)[0] == 's'
            && lower("safeemail"@)[4] == 'e');
        assert(lower("password"@).len() == 8 && lower("password"@)[0] == 'p');
        assert(lower("ip"@).len() == 2);
        assert(lower("ipv4"@).len() == 4 && lower("ipv4"@)[3] == '4');
        assert(lower("ipv6"@).len() == 4 && lower("ipv6"@)[3] == '6');
        assert(lower("color"@).len() == 5);
        assert(lower("user_agent"@).len() == 10 && lower("user_agent"@)[0] == 'u');
        assert(lower("useragent"@).len() == 9 && lower("useragent"@)[0] == 'u'
            && lower("useragent"@)[4] == 'a');
    }
}

/// Generators of personal names and titles.
#[derive(Clone, Copy, Debug, PartialEq, Eq, Structural)]
pub enum NameKind {
    FirstName,
    LastName,
    Prefix,
    Suffix,
    Name,
    NameWithMiddle,
    TitleDescriptor,
    TitleLevel,
    TitleJob,
    Title,
}

impl Minor for NameKind {
    open spec fn label(self) -> Seq<char> {
        match self {
            NameKind::FirstName => "first_name"@,
            NameKind::LastName => "last_name"@,
            NameKind::Prefix => "prefix"@,
            NameKind::Suffix => "suffix"@,
            NameKind::Name => "name"@,
            NameKind::NameWithMiddle => "name_with_middle"@,
            NameKind::TitleDescriptor => "title_descriptor"@,
            NameKind::TitleLevel => "title_level"@,
            NameKind::TitleJob => "title_job"@,
            NameKind::Title => "title"@,
        }
    }

    open spec fn compact(self) -> Seq<char> {
        match self {
            NameKind::FirstName => "firstname"@,
            NameKind::LastName => "lastname"@,
            NameKind::Prefix => "prefix"@,
            NameKind::Suffix => "suffix"@,
            NameKind::Name => "name"@,
            NameKind::NameWithMiddle => "namewithmiddle"@,
            NameKind::TitleDescriptor => "titledescriptor"@,
            NameKind::TitleLevel => "titlelevel"@,
            NameKind::TitleJob => "titlejob"@,
            NameKind::Title => "title"@,
        }
    }

    open spec fn listed() -> Seq<Self> {
        seq![
            NameKind::FirstName,
            NameKind::LastName,
            NameKind::Prefix,
            NameKind::Suffix,
            NameKind::Name,
            NameKind::NameWithMiddle,
            NameKind::TitleDescriptor,
            NameKind::TitleLevel,
            NameKind::TitleJob,
            NameKind::Title,
        ]
    }

    open spec fn kind(self) -> FakerKind {
        FakerKind::Name(self)
    }

    fn name(self) -> (r: &'static str) {
        match self {
            NameKind::FirstName => "first_name",
            NameKind::LastName => "last_name",
            NameKind::Prefix => "prefix",
            NameKind::Suffix => "suffix",
            NameKind::Name => "name",
            NameKind::NameWithMiddle => "name_with_middle",
            NameKind::TitleDescriptor => "title_descriptor",
            NameKind::TitleLevel => "title_level",
            NameKind::TitleJob => "title_job",
            NameKind::Title => "title",
        }
    }

    fn compact_name(self) -> (r: &'static str) {
        match self {
            NameKind::FirstName => "firstname",
            NameKind::LastName => "lastname",
            NameKind::Prefix => "prefix",
            NameKind::Suffix => "suffix",
            NameKind::Name => "name",
            NameKind::NameWithMiddle => "namewithmiddle",
            NameKind::TitleDescriptor => "titledescriptor",
            NameKind::TitleLevel => "titlelevel",
            NameKind::TitleJob => "titlejob",
            NameKind::Title => "title",
        }
    }

    fn all() -> (v: Vec<Self>) {
        vec![
            NameKind::FirstName,
            NameKind::LastName,
            NameKind::Prefix,
            NameKind::Suffix,
            NameKind::Name,
            NameKind::NameWithMiddle,
            NameKind::TitleDescriptor,
            NameKind::TitleLevel,
            NameKind::TitleJob,
            NameKind::Title,
        ]
    }

    fn wrap(self) -> (k: FakerKind) {
        FakerKind::Name(self)
    }

    proof fn lemma_listed_complete(k: Self) {
        let all = Self::listed();
        match k {
            NameKind::FirstName => assert(all[0] == k),
            NameKind::LastName => assert(all[1] == k),
            NameKind::Prefix => assert(all[2] == k),
            NameKind::Suffix => assert(all[3] == k),
            NameKind::Name => assert(all[4] == k),
            NameKind::NameWithMiddle => assert(all[5] == k),
            NameKind::TitleDescriptor => assert(all[6] == k),
            NameKind::TitleLevel => assert(all[7] == k),
            NameKind::TitleJob => assert(all[8] == k),
            NameKind::Title => assert(all[9] == k),
        }
    }

    proof fn lemma_accepts_one(a: Self, b: Self, token: Seq<char>) {
        reveal_strlit("first_name");
        reveal_strlit("firstname");
        reveal_strlit("last_name");
        reveal_strlit("lastname");
        reveal_strlit("prefix");
        reveal_strlit("suffix");
        reveal_strlit("name");
        reveal_strlit("name_with_middle");
        reveal_strlit("namewithmiddle");
        reveal_strlit("title_descriptor");
        reveal_strlit("titledescriptor");
        reveal_strlit("title_level");
        reveal_strlit("titlelevel");
        reveal_strlit("title_job");
        reveal_strlit("titlejob");
        reveal_strlit("title");
        assert(lower("first_name"@).len() == 10 && lower("first_name"@)[0] == 'f');
        assert(lower("firstname"@).len() == 9 && lower("firstname"@)[0] == 'f');
        assert(lower("last_name"@).len() == 9 && lower("last_name"@)[0] == 'l');
        assert(lower("lastname"@).len() == 8 && lower("lastname"@)[0] == 'l');
        assert(lower("prefix"@).len() == 6 && lower("prefix"@)[0] == 'p');
        assert(lower("suffix"@).len() == 6 && lower("suffix"@)[0] == 's');
        assert(lower("name"@).len() == 4);
        assert(lower("name_with_middle"@).len() == 16 && lower("name_with_middle"@)[0] == 'n');
        assert(lower("namewithmiddle"@).len() == 14);
        assert(lower("title_descriptor"@).len() == 16 && lower("title_descriptor"@)[0] == 't');
        assert(lower("titledescriptor"@).len() == 15);
        assert(lower("title_level"@).len() == 11);
        assert(lower("titlelevel"@).len() == 10 && lower("titlelevel"@)[0] == 't');
        assert(lower("title_job"@).len() == 9 && lower("title_job"@)[0] == 't');
        assert(lower("titlejob"@).len() == 8 && lower("titlejob"@)[0] == 't');
        assert(lower("title"@).len() == 5);
    }
}

/// Generators of postal and geographic values.
#[derive(Clone, Copy, Debug, PartialEq, Eq, Structural)]
pub enum AddressKind {
    TimeZone,
    CityPrefix,
    CitySuffix,
    StreetSuffix,
    State,
    StateAbbr,
    City,
    StreetName,
    BuildingNumber,
    StreetAddress,
    SecondaryAddress,
    Zip,
    Postcode,
    Latitude,
    Longitude,
}

impl Minor for AddressKind {
    open spec fn label(self) -> Seq<char> {
        match self {
            AddressKind::TimeZone => "time_zone"@,
            AddressKind::CityPrefix => "city_prefix"@,
            AddressKind::CitySuffix => "city_suffix"@,
            AddressKind::StreetSuffix => "street_suffix"@,
            AddressKind::State => "state"@,
            AddressKind::StateAbbr => "state_abbr"@,
            AddressKind::City => "city"@,
            AddressKind::StreetName => "street_name"@,
            AddressKind::BuildingNumber => "building_number"@,
            AddressKind::StreetAddress => "street_address"@,
            AddressKind::SecondaryAddress => "secondary_address"@,
            AddressKind::Zip => "zip"@,
            AddressKind::Postcode => "postcode"@,
            AddressKind::Latitude => "latitude"@,
            AddressKind::Longitude => "longitude"@,
        }
    }

    open spec fn compact(self) -> Seq<char> {
        match self {
            AddressKind::TimeZone => "timezone"@,
            AddressKind::CityPrefix => "cityprefix"@,
            AddressKind::CitySuffix => "citysuffix"@,
            AddressKind::StreetSuffix => "streetsuffix"@,
            AddressKind::State => "state"@,
            AddressKind::StateAbbr => "stateabbr"@,
            AddressKind::City => "city"@,
            AddressKind::StreetName => "streetname"@,
            AddressKind::BuildingNumber => "buildingnumber"@,
            AddressKind::StreetAddress => "streetaddress"@,
            AddressKind::SecondaryAddress => "secondaryaddress"@,
            AddressKind::Zip => "zip"@,
            AddressKind::Postcode => "postcode"@,
            AddressKind::Latitude => "latitude"@,
            AddressKind::Longitude => "longitude"@,
        }
    }

    open spec fn listed() -> Seq<Self> {
        seq![
            AddressKind::TimeZone,
            AddressKind::CityPrefix,
            AddressKind::CitySuffix,
            AddressKind::StreetSuffix,
            AddressKind::State,
            AddressKind::StateAbbr,
            AddressKind::City,
            AddressKind::StreetName,
            AddressKind::BuildingNumber,
            AddressKind::StreetAddress,
            AddressKind::SecondaryAddress,
            AddressKind::Zip,
            AddressKind::Postcode,
            AddressKind::Latitude,
            AddressKind::Longitude,
        ]
    }

    open spec fn kind(self) -> FakerKind {
        FakerKind::Address(self)
    }

    fn name(self) -> (r: &'static str) {
        match self {
            AddressKind::TimeZone => "time_zone",
            AddressKind::CityPrefix => "city_prefix",
            AddressKind::CitySuffix => "city_suffix",
            AddressKind::StreetSuffix => "street_suffix",
            AddressKind::State => "state",
            AddressKind::StateAbbr => "state_abbr",
            AddressKind::City => "city",
            AddressKind::StreetName => "street_name",
            AddressKind::BuildingNumber => "building_number",
            AddressKind::StreetAddress => "street_address",
            AddressKind::SecondaryAddress => "secondary_address",
            AddressKind::Zip => "zip",
            AddressKind::Postcode => "postcode",
            AddressKind::Latitude => "latitude",
            AddressKind::Longitude => "longitude",
        }
    }

    fn compact_name(self) -> (r: &'static str) {
        match self {
            AddressKind::TimeZone => "timezone",
            AddressKind::CityPrefix => "cityprefix",
            AddressKind::CitySuffix => "citysuffix",
            AddressKind::StreetSuffix => "streetsuffix",
            AddressKind::State => "state",
            AddressKind::StateAbbr => "stateabbr",
            AddressKind::City => "city",
            AddressKind::StreetName => "streetname",
            AddressKind::BuildingNumber => "buildingnumber",
            AddressKind::StreetAddress => "streetaddress",
            AddressKind::SecondaryAddress => "secondaryaddress",
            AddressKind::Zip => "zip",
            AddressKind::Postcode => "postcode",
            AddressKind::Latitude => "latitude",
            AddressKind::Longitude => "longitude",
        }
    }

    fn all() -> (v: Vec<Self>) {
        vec![
            AddressKind::TimeZone,
            AddressKind::CityPrefix,
            AddressKind::CitySuffix,
            AddressKind::StreetSuffix,
            AddressKind::State,
            AddressKind::StateAbbr,
            AddressKind::City,
            AddressKind::StreetName,
            AddressKind::BuildingNumber,
            AddressKind::StreetAddress,
            AddressKind::SecondaryAddress,
            AddressKind::Zip,
            AddressKind::Postcode,
            AddressKind::Latitude,
            AddressKind::Longitude,
        ]
    }

    fn wrap(self) -> (k: FakerKind) {
        FakerKind::Address(self)
    }

    proof fn lemma_listed_complete(k: Self) {
        let all = Self::listed();
        match k {
            AddressKind::TimeZone => assert(all[0] == k),
            AddressKind::CityPrefix => assert(all[1] == k),
            AddressKind::CitySuffix => assert(all[2] == k),
            AddressKind::StreetSuffix => assert(all[3] == k),
            AddressKind::State => assert(all[4] == k),
            AddressKind::StateAbbr => assert(all[5] == k),
            AddressKind::City => assert(all[6] == k),
            AddressKind::StreetName => assert(all[7] == k),
            AddressKind::BuildingNumber => assert(all[8] == k),
            AddressKind::StreetAddress => assert(all[9] == k),
            AddressKind::SecondaryAddress => assert(all[10] == k),
            AddressKind::Zip => assert(all[11] == k),
            AddressKind::Postcode => assert(all[12] == k),
            AddressKind::Latitude => assert(all[13] == k),
            AddressKind::Longitude => assert(all[14] == k),
        }
    }

    proof fn lemma_accepts_one(a: Self, b: Self, token: Seq<char>) {
        reveal_strlit("time_zone");
        reveal_strlit("timezone");
        reveal_strlit("city_prefix");
        reveal_strlit("cityprefix");
        reveal_strlit("city_suffix");
        reveal_strlit("citysuffix");
        reveal_strlit("street_suffix");
        reveal_strlit("streetsuffix");
        reveal_strlit("state");
        reveal_strlit("state_abbr");
        reveal_strlit("stateabbr");
        reveal_strlit("city");
        reveal_strlit("street_name");
        reveal_strlit("streetname");
        reveal_strlit("building_number");
        reveal_strlit("buildingnumber");
        reveal_strlit("street_address");
        reveal_strlit("streetaddress");
        reveal_strlit("secondary_address");
        reveal_strlit("secondaryaddress");
        reveal_strlit("zip");
        reveal_strlit("postcode");
        reveal_strlit("latitude");
        reveal_strlit("longitude");
        assert(lower("time_zone"@).len() == 9 && lower("time_zone"@)[0] == 't');
        assert(lower("timezone"@).len() == 8 && lower("timezone"@)[0] == 't');
        assert(lower("city_prefix"@).len() == 11 && lower("city_prefix"@)[5] == 'p');
        assert(lower("cityprefix"@).len() == 10 && lower("cityprefix"@)[5] == 'r');
        assert(lower("city_suffix"@).len() == 11 && lower("city_suffix"@)[5] == 's');
        assert(lower("citysuffix"@).len() == 10 && lower("citysuffix"@)[5] == 'u');
        assert(lower("street_suffix"@).len() == 13 && lower("street_suffix"@)[6] == '_');
        assert(lower("streetsuffix"@).len() == 12);
        assert(lower("state"@).len() == 5);
        assert(lower("state_abbr"@).len() == 10 && lower("state_abbr"@)[5] == '_');
        assert(lower("stateabbr"@).len() == 9 && lower("stateabbr"@)[0] == 's');
        assert(lower("city"@).len() == 4);
        assert(lower("street_name"@).len() == 11 && lower("street_name"@)[5] == 't');
        assert(lower("streetname"@).len() == 10 && lower("streetname"@)[5] == 't');
        assert(lower("building_number"@).len() == 15);
        assert(lower("buildingnumber"@).len() == 14 && lower("buildingnumber"@)[0] == 'b');
        assert(lower("street_address"@).len() == 14 && lower("street_address"@)[0] == 's');
        assert(lower("streetaddress"@).len() == 13 && lower("streetaddress"@)[6] == 'a');
        assert(lower("secondary_address"@).len() == 17);
        assert(lower("secondaryaddress"@).len() == 16);
        assert(lower("zip"@).len() == 3);
        assert(lower("postcode"@).len() == 8 && lower("postcode"@)[0] == 'p');
        assert(lower("latitude"@).len() == 8 && lower("latitude"@)[0] == 'l');
        assert(lower("longitude"@).len() == 9 && lower("longitude"@)[0] == 'l');
    }
}

/// Generators of company-related values.
#[derive(Clone, Copy, Debug, PartialEq, Eq, Structural)]
pub enum CompanyKind {
    Suffix,
    Name,
    Buzzword,
    CatchPhrase,
    Bs,
    Profession,
    Industry,
}

impl Minor for CompanyKind {
    open spec fn label(self) -> Seq<char> {
        match self {
            CompanyKind::Suffix => "suffix"@,
            CompanyKind::Name => "name"@,
            CompanyKind::Buzzword => "buzzword"@,
            CompanyKind::CatchPhrase => "catch_phrase"@,
            CompanyKind::Bs => "bs"@,
            CompanyKind::Profession => "profession"@,
            CompanyKind::Industry => "industry"@,
        }
    }

    open spec fn compact(self) -> Seq<char> {
        match self {
            CompanyKind::Suffix => "suffix"@,
            CompanyKind::Name => "name"@,
            CompanyKind::Buzzword => "buzzword"@,
            CompanyKind::CatchPhrase => "catchphrase"@,
            CompanyKind::Bs => "bs"@,
            CompanyKind::Profession => "profession"@,
            CompanyKind::Industry => "industry"@,
        }
    }

    open spec fn listed() -> Seq<Self> {
        seq![
            CompanyKind::Suffix,
            CompanyKind::Name,
            CompanyKind::Buzzword,
            CompanyKind::CatchPhrase,
            CompanyKind::Bs,
            CompanyKind::Profession,
            CompanyKind::Industry,
        ]
    }

    open spec fn kind(self) -> FakerKind {
        FakerKind::Company(self)
    }

    fn name(self) -> (r: &'static str) {
        match self {
            CompanyKind::Suffix => "suffix",
            CompanyKind::Name => "name",
            CompanyKind::Buzzword => "buzzword",
            CompanyKind::CatchPhrase => "catch_phrase",
            CompanyKind::Bs => "bs",
            CompanyKind::Profession => "profession",
            CompanyKind::Industry => "industry",
        }
    }

    fn compact_name(self) -> (r: &'static str) {
        match self {
            CompanyKind::Suffix => "suffix",
            CompanyKind::Name => "name",
            CompanyKind::Buzzword => "buzzword",
            CompanyKind::CatchPhrase => "catchphrase",
            CompanyKind::Bs => "bs",
            CompanyKind::Profession => "profession",
            CompanyKind::Industry => "industry",
        }
    }

    fn all() -> (v: Vec<Self>) {
        vec![
            CompanyKind::Suffix,
            CompanyKind::Name,
            CompanyKind::Buzzword,
            CompanyKind::CatchPhrase,
            CompanyKind::Bs,
            CompanyKind::Profession,
            CompanyKind::Industry,
        ]
    }

    fn wrap(self) -> (k: FakerKind) {
        FakerKind::Company(self)
    }

    proof fn lemma_listed_complete(k: Self) {
        let all = Self::listed();
        match k {
            CompanyKind::Suffix => assert(all[0] == k),
            CompanyKind::Name => assert(all[1] == k),
            CompanyKind::Buzzword => assert(all[2] == k),
            CompanyKind::CatchPhrase => assert(all[3] == k),
            CompanyKind::Bs => assert(all[4] == k),
            CompanyKind::Profession => assert(all[5] == k),
            CompanyKind::Industry => assert(all[6] == k),
        }
    }

    proof fn lemma_accepts_one(a: Self, b: Self, token: Seq<char>) {
        reveal_strlit("suffix");
        reveal_strlit("name");
        reveal_strlit("buzzword");
        reveal_strlit("catch_phrase");
        reveal_strlit("catchphrase");
        reveal_strlit("bs");
        reveal_strlit("profession");
        reveal_strlit("industry");
        assert(lower("suffix"@).len() == 6);
        assert(lower("name"@).len() == 4);
        assert(lower("buzzword"@).len() == 8 && lower("buzzword"@)[0] == 'b');
        assert(lower("catch_phrase"@).len() == 12);
        assert(lower("catchphrase"@).len() == 11);
        assert(lower("bs"@).len() == 2);
        assert(lower("profession"@).len() == 10);
        assert(lower("industry"@).len() == 8 && lower("industry"@)[0] == 'i');
    }
}

/// Generators of placeholder text.
#[derive(Clone, Copy, Debug, PartialEq, Eq, Structural)]
pub enum LoremKind {
    Word,
    Words,
    Sentence,
    Sentences,
    Paragraph,
    Paragraphs,
}

impl Minor for LoremKind {
    open spec fn label(self) -> Seq<char> {
        match self {
            LoremKind::Word => "word"@,
            LoremKind::Words => "words"@,
            LoremKind::Sentence => "sentence"@,
            LoremKind::Sentences => "sentences"@,
            LoremKind::Paragraph => "paragraph"@,
            LoremKind::Paragraphs => "paragraphs"@,
        }
    }

    open spec fn compact(self) -> Seq<char> {
        match self {
            LoremKind::Word => "word"@,
            LoremKind::Words => "words"@,
            LoremKind::Sentence => "sentence"@,
            LoremKind::Sentences => "sentences"@,
            LoremKind::Paragraph => "paragraph"@,
            LoremKind::Paragraphs => "paragraphs"@,
        }
    }

    open spec fn listed() -> Seq<Self> {
        seq![
            LoremKind::Word,
            LoremKind::Words,
            LoremKind::Sentence,
            LoremKind::Sentences,
            LoremKind::Paragraph,
            LoremKind::Paragraphs,
        ]
    }

    open spec fn kind(self) -> FakerKind {
        FakerKind::Lorem(self)
    }

    fn name(self) -> (r: &'static str) {
        match self {
            LoremKind::Word => "word",
            LoremKind::Words => "words",
            LoremKind::Sentence => "sentence",
            LoremKind::Sentences => "sentences",
            LoremKind::Paragraph => "paragraph",
            LoremKind::Paragraphs => "paragraphs",
        }
    }

    fn compact_name(self) -> (r: &'static str) {
        match self {
            LoremKind::Word => "word",
            LoremKind::Words => "words",
            LoremKind::Sentence => "sentence",
            LoremKind::Sentences => "sentences",
            LoremKind::Paragraph => "paragraph",
            LoremKind::Paragraphs => "paragraphs",
        }
    }

    fn all() -> (v: Vec<Self>) {
        vec![
            LoremKind::Word,
            LoremKind::Words,
            LoremKind::Sentence,
            LoremKind::Sentences,
            LoremKind::Paragraph,
            LoremKind::Paragraphs,
        ]
    }

    fn wrap(self) -> (k: FakerKind) {
        FakerKind::Lorem(self)
    }

    proof fn lemma_listed_complete(k: Self) {
        let all = Self::listed();
        match k {
            LoremKind::Word => assert(all[0] == k),
            LoremKind::Words => assert(all[1] == k),
            LoremKind::Sentence => assert(all[2] == k),
            LoremKind::Sentences => assert(all[3] == k),
            LoremKind::Paragraph => assert(all[4] == k),
            LoremKind::Paragraphs => assert(all[5] == k),
        }
    }

    proof fn lemma_accepts_one(a: Self, b: Self, token: Seq<char>) {
        reveal_strlit("word");
        reveal_strlit("words");
        reveal_strlit("sentence");
        reveal_strlit("sentences");
        reveal_strlit("paragraph");
        reveal_strlit("paragraphs");
        assert(lower("word"@).len() == 4);
        assert(lower("words"@).len() == 5);
        assert(lower("sentence"@).len() == 8);
        assert(lower("sentences"@).len() == 9 && lower("sentences"@)[0] == 's');
        assert(lower("paragraph"@).len() == 9 && lower("paragraph"@)[0] == 'p');
        assert(lower("paragraphs"@).len() == 10);
    }
}

/// Generators of digits and telephone numbers.
#[derive(Clone, Copy, Debug, PartialEq, Eq, Structural)]
pub enum NumberKind {
    PhoneNumber,
    CellNumber,
    Digit,
}

impl Minor for NumberKind {
    open spec fn label(self) -> Seq<char> {
        match self {
            NumberKind::PhoneNumber => "phone_number"@,
            NumberKind::CellNumber => "cell_number"@,
            NumberKind::Digit => "digit"@,
        }
    }

    open spec fn compact(self) -> Seq<char> {
        match self {
            NumberKind::PhoneNumber => "phonenumber"@,
            NumberKind::CellNumber => "cellnumber"@,
            NumberKind::Digit => "digit"@,
        }
    }

    open spec fn listed() -> Seq<Self> {
        seq![
            NumberKind::PhoneNumber,
            NumberKind::CellNumber,
            NumberKind::Digit,
        ]
    }

    open spec fn kind(self) -> FakerKind {
        FakerKind::Number(self)
    }

    fn name(self) -> (r: &'static str) {
        match self {
            NumberKind::PhoneNumber => "phone_number",
            NumberKind::CellNumber => "cell_number",
            NumberKind::Digit => "digit",
        }
    }

    fn compact_name(self) -> (r: &'static str) {
        match self {
            NumberKind::PhoneNumber => "phonenumber",
            NumberKind::CellNumber => "cellnumber",
            NumberKind::Digit => "digit",
        }
    }

    fn all() -> (v: Vec<Self>) {
        vec![
            NumberKind::PhoneNumber,
            NumberKind::CellNumber,
            NumberKind::Digit,
        ]
    }

    fn wrap(self) -> (k: FakerKind) {
        FakerKind::Number(self)
    }

    proof fn lemma_listed_complete(k: Self) {
        let all = Self::listed();
        match k {
            NumberKind::PhoneNumber => assert(all[0] == k),
            NumberKind::CellNumber => assert(all[1] == k),
            NumberKind::Digit => assert(all[2] == k),
        }
    }

    proof fn lemma_accepts_one(a: Self, b: Self, token: Seq<char>) {
        reveal_strlit("phone_number");
        reveal_strlit("phonenumber");
        reveal_strlit("cell_number");
        reveal_strlit("cellnumber");
        reveal_strlit("digit");
        assert(lower("phone_number"@).len() == 12);
        assert(lower("phonenumber"@).len() == 11 && lower("phonenumber"@)[0] == 'p');
        assert(lower("cell_number"@).len() == 11 && lower("cell_number"@)[0] == 'c');
        assert(lower("cellnumber"@).len() == 10);
        assert(lower("digit"@).len() == 5);
    }
}

} // verus!
