//! The generator catalog: every kind's values come from the `fake` crate.
//! What a generator returns is random; what this module states of a value is
//! what holds of every outcome.
use crate::faker::FakerKind;
use crate::kind::{AddressKind, CompanyKind, InternetKind, LoremKind, NameKind, NumberKind};
use crate::text::{all_digits, is_digit, texts};
use vstd::prelude::*;
use vstd::string::StringExecFns;

verus! {

/// The parts in order, with the separator between each two neighbours.
pub open spec fn joined(parts: Seq<Seq<char>>, separator: Seq<char>) -> Seq<char>
    decreases parts.len(),
{
    if parts.len() == 0 {
        Seq::empty()
    } else if parts.len() == 1 {
        parts[0]
    } else {
        joined(parts.drop_last(), separator) + separator + parts.last()
    }
}

/// A word: not empty, and without a space.
pub open spec fn is_word(s: Seq<char>) -> bool {
    s.len() > 0 && !s.contains(' ')
}

/// A text that closes with a full stop.
pub open spec fn ends_sentence(s: Seq<char>) -> bool {
    s.len() > 0 && s.last() == '.'
}

/// Each of the texts is a word.
pub open spec fn all_words(parts: Seq<Seq<char>>) -> bool {
    forall|i: int| 0 <= i < parts.len() ==> is_word(#[trigger] parts[i])
}

/// Each of the texts closes with a full stop.
pub open spec fn all_sentences(parts: Seq<Seq<char>>) -> bool {
    forall|i: int| 0 <= i < parts.len() ==> ends_sentence(#[trigger] parts[i])
}

/// Five digits, or five digits, `-` and four digits.
pub open spec fn postcode_shape(s: Seq<char>) -> bool {
    ||| s.len() == 5 && all_digits(s)
    ||| s.len() == 10 && s[5] == '-' && all_digits(s.take(5)) && all_digits(s.skip(6))
}

/// The prefixes that a name may get.
pub open spec fn name_prefixes() -> Seq<Seq<char>> {
    seq![
        "Mr."@,
        "Mrs."@,
        "Ms."@,
        "Miss"@,
        "Dr."@,
    ]
}

/// The suffixes that a name may get.
pub open spec fn name_suffixes() -> Seq<Seq<char>> {
    seq![
        "Jr."@,
        "Sr."@,
        "I"@,
        "II"@,
        "III"@,
        "IV"@,
        "V"@,
        "MD"@,
        "DDS"@,
        "PhD"@,
        "DVM"@,
    ]
}

/// The suffixes that a company name may get.
pub open spec fn company_suffixes() -> Seq<Seq<char>> {
    seq![
        "Inc"@,
        "and Sons"@,
        "LLC"@,
        "Group"@,
    ]
}

/// The providers of free e-mail addresses.
pub open spec fn email_providers() -> Seq<Seq<char>> {
    seq![
        "gmail.com"@,
        "yahoo.com"@,
        "hotmail.com"@,
    ]
}

/// The suffixes of domain names.
pub open spec fn domain_suffixes() -> Seq<Seq<char>> {
    seq![
        "com"@,
        "biz"@,
        "info"@,
        "name"@,
        "net"@,
        "org"@,
        "io"@,
        "co"@,
    ]
}

/// The prefixes that a city name may get.
pub open spec fn city_prefixes() -> Seq<Seq<char>> {
    seq![
        "North"@,
        "East"@,
        "West"@,
        "South"@,
        "New"@,
        "Lake"@,
        "Port"@,
    ]
}

/// Joins the parts with the separator.
pub fn join(parts: &Vec<String>, separator: &str) -> (r: String)
    ensures
        r@ == joined(texts(parts@), separator@),
{
    let mut out = String::new();
    let mut i: usize = 0;
    while i < parts.len()
        invariant
            i <= parts.len(),
            out@ == joined(texts(parts@).take(i as int), separator@),
        decreases parts.len() - i,
    {
        let ghost sofar = texts(parts@).take(i as int);
        let ghost next = texts(parts@).take(i + 1);
        assert(next.drop_last() =~= sofar);
        if i > 0 {
            out.append(separator);
        }
        out.append(parts[i].as_str());
        i += 1;
    }
    assert(texts(parts@).take(i as int) =~= texts(parts@));
    out
}

/// The text that stands for a truth value.
pub fn truth_text(drawn: bool) -> (r: String)
    ensures
        r@ == if drawn {
            "true"@
        } else {
            "false"@
        },
{
    if drawn {
        "true".to_owned()
    } else {
        "false".to_owned()
    }
}

/// `fake::faker::Boolean::boolean`: a random truth value, of which nothing is
/// claimed.
#[verifier::external_body]
fn boolean_boolean() -> bool {
    <fake::Faker as fake::faker::Boolean>::boolean()
}

/// `fake::faker::Lorem::words`: words of the crate's table in random order, at
/// most `count` of them and at least one where `count` is not zero.
#[verifier::external_body]
fn lorem_words(count: usize) -> (r: Vec<String>)
    ensures
        r.len() <= count,
        count > 0 ==> r.len() > 0,
        all_words(texts(r@)),
{
    <fake::Faker as fake::faker::Lorem>::words(count).into_iter().map(|w| w.to_owned()).collect()
}

/// `fake::faker::Lorem::sentence`: random words with spaces between them and
/// a full stop after the last. The sum of `count` and `max_extra_count` must
/// stay below `usize::MAX`, or the call would overflow.
#[verifier::external_body]
fn lorem_sentence(count: usize, max_extra_count: usize) -> (r: String)
    requires
        count + max_extra_count < usize::MAX,
    ensures
        ends_sentence(r@),
{
    <fake::Faker as fake::faker::Lorem>::sentence(count, max_extra_count)
}

/// `fake::faker::Lorem::sentences`: `count` random sentences, each closing
/// with a full stop.
#[verifier::external_body]
fn lorem_sentences(count: usize) -> (r: Vec<String>)
    ensures
        r.len() == count,
        all_sentences(texts(r@)),
{
    <fake::Faker as fake::faker::Lorem>::sentences(count)
}

/// `fake::faker::Lorem::paragraph`: at least `count` random sentences with
/// line breaks between them, so that a paragraph of one sentence or more
/// closes with a full stop. The sum of `count` and `max_extra_count` must stay
/// below `usize::MAX`, or the call would overflow.
#[verifier::external_body]
fn lorem_paragraph(count: usize, max_extra_count: usize) -> (r: String)
    requires
        count + max_extra_count < usize::MAX,
    ensures
        count > 0 ==> ends_sentence(r@),
{
    <fake::Faker as fake::faker::Lorem>::paragraph(count, max_extra_count)
}

/// `fake::faker::Lorem::paragraphs`: `count` random paragraphs, each of seven
/// sentences or more and so closing with a full stop.
#[verifier::external_body]
fn lorem_paragraphs(count: usize) -> (r: Vec<String>)
    ensures
        r.len() == count,
        all_sentences(texts(r@)),
{
    <fake::Faker as fake::faker::Lorem>::paragraphs(count)
}

/// `fake::faker::Internet::password`: random characters, at least
/// `min_count` and at most `max_count` of them. The call needs
/// `min_count <= max_count < usize::MAX`.
#[verifier::external_body]
fn internet_password(min_count: usize, max_count: usize) -> (r: String)
    requires
        min_count <= max_count < usize::MAX,
    ensures
        min_count <= r@.len() <= max_count,
{
    <fake::Faker as fake::faker::Internet>::password(min_count, max_count)
}

/// `fake::faker::Number::digit`: one decimal digit.
#[verifier::external_body]
fn number_digit() -> (r: String)
    ensures
        r@.len() == 1,
        is_digit(r@[0]),
{
    <fake::Faker as fake::faker::Number>::digit()
}

/// `fake::faker::PhoneNumber::cell_number`: one of four patterns of 12 or 14 characters, its
/// placeholders filled with random digits.
#[verifier::external_body]
fn phone_cell_number() -> (r: String)
    ensures
        r@.len() == 12 || r@.len() == 14,
{
    <fake::Faker as fake::faker::PhoneNumber>::cell_number()
}

/// `fake::faker::PhoneNumber::phone_number`: one of sixteen patterns of 12 to 21 characters, its
/// placeholders filled with random digits.
#[verifier::external_body]
fn phone_phone_number() -> (r: String)
    ensures
        12 <= r@.len() <= 21,
{
    <fake::Faker as fake::faker::PhoneNumber>::phone_number()
}

/// `fake::faker::Lorem::word`: one word of the crate's table: not empty, without a space.
#[verifier::external_body]
fn lorem_word() -> (r: String)
    ensures
        is_word(r@),
{
    <fake::Faker as fake::faker::Lorem>::word().to_owned()
}

/// `fake::faker::Company::suffix`: one of the four company suffixes of the crate's
/// table.
#[verifier::external_body]
fn company_suffix() -> (r: String)
    ensures
        r@.len() > 0,
        company_suffixes().contains(r@),
{
    <fake::Faker as fake::faker::Company>::suffix().to_owned()
}

/// `fake::faker::Company::name`: two or three last names with `-`, or with
/// `, ` and ` and `, between them, or a last name, a space and a company
/// suffix.
#[verifier::external_body]
fn company_name() -> (r: String)
    ensures
        r@.contains(' ') || r@.contains('-'),
{
    <fake::Faker as fake::faker::Company>::name()
}

/// `fake::faker::Company::buzzword`: an entry of the crate's tables or a
/// composition of such, none of them empty.
#[verifier::external_body]
fn company_buzzword() -> (r: String)
    ensures
        r@.len() > 0,
{
    <fake::Faker as fake::faker::Company>::buzzword().to_owned()
}

/// `fake::faker::Company::catch_phase`: three random texts with a space between each two.
#[verifier::external_body]
fn company_catch_phase() -> (r: String)
    ensures
        r@.contains(' '),
{
    <fake::Faker as fake::faker::Company>::catch_phase()
}

/// `fake::faker::Company::bs`: three random texts with a space between each two.
#[verifier::external_body]
fn company_bs() -> (r: String)
    ensures
        r@.contains(' '),
{
    <fake::Faker as fake::faker::Company>::bs()
}

/// `fake::faker::Company::profession`: an entry of the crate's tables or a
/// composition of such, none of them empty.
#[verifier::external_body]
fn company_profession() -> (r: String)
    ensures
        r@.len() > 0,
{
    <fake::Faker as fake::faker::Company>::profession().to_owned()
}

/// `fake::faker::Company::industry`: an entry of the crate's tables or a
/// composition of such, none of them empty.
#[verifier::external_body]
fn company_industry() -> (r: String)
    ensures
        r@.len() > 0,
{
    <fake::Faker as fake::faker::Company>::industry().to_owned()
}

/// `fake::faker::Name::name`: a first and a last name with a space between them,
/// at times with a prefix or a suffix.
#[verifier::external_body]
fn name_name() -> (r: String)
    ensures
        r@.contains(' '),
{
    <fake::Faker as fake::faker::Name>::name()
}

/// `fake::faker::Name::last_name`: an entry of the crate's tables or a
/// composition of such, none of them empty.
#[verifier::external_body]
fn name_last_name() -> (r: String)
    ensures
        r@.len() > 0,
{
    <fake::Faker as fake::faker::Name>::last_name().to_owned()
}

/// `fake::faker::Name::first_name`: an entry of the crate's tables or a
/// composition of such, none of them empty.
#[verifier::external_body]
fn name_first_name() -> (r: String)
    ensures
        r@.len() > 0,
{
    <fake::Faker as fake::faker::Name>::first_name().to_owned()
}

/// `fake::faker::Name::name_with_middle`: two first names and a last name with
/// spaces between them, at times with a prefix or a suffix.
#[verifier::external_body]
fn name_name_with_middle() -> (r: String)
    ensures
        r@.contains(' '),
{
    <fake::Faker as fake::faker::Name>::name_with_middle()
}

/// `fake::faker::Name::prefix`: one of the five name prefixes of the crate's table.
#[verifier::external_body]
fn name_prefix() -> (r: String)
    ensures
        r@.len() > 0,
        name_prefixes().contains(r@),
{
    <fake::Faker as fake::faker::Name>::prefix().to_owned()
}

/// `fake::faker::Name::suffix`: one of the eleven name suffixes of the crate's table.
#[verifier::external_body]
fn name_suffix() -> (r: String)
    ensures
        r@.len() > 0,
        name_suffixes().contains(r@),
{
    <fake::Faker as fake::faker::Name>::suffix().to_owned()
}

/// `fake::faker::Name::title_descriptor`: an entry of the crate's tables or a
/// composition of such, none of them empty.
#[verifier::external_body]
fn name_title_descriptor() -> (r: String)
    ensures
        r@.len() > 0,
{
    <fake::Faker as fake::faker::Name>::title_descriptor().to_owned()
}

/// `fake::faker::Name::title_level`: an entry of the crate's tables or a
/// composition of such, none of them empty.
#[verifier::external_body]
fn name_title_level() -> (r: String)
    ensures
        r@.len() > 0,
{
    <fake::Faker as fake::faker::Name>::title_level().to_owned()
}

/// `fake::faker::Name::title_job`: an entry of the crate's tables or a
/// composition of such, none of them empty.
#[verifier::external_body]
fn name_title_job() -> (r: String)
    ensures
        r@.len() > 0,
{
    <fake::Faker as fake::faker::Name>::title_job().to_owned()
}

/// `fake::faker::Name::title`: three random texts with a space between each two.
#[verifier::external_body]
fn name_title() -> (r: String)
    ensures
        r@.contains(' '),
{
    <fake::Faker as fake::faker::Name>::title()
}

/// `fake::faker::Internet::free_email_provider`: one of the three providers of
/// the crate's table.
#[verifier::external_body]
fn internet_free_email_provider() -> (r: String)
    ensures
        r@.len() > 0,
        email_providers().contains(r@),
{
    <fake::Faker as fake::faker::Internet>::free_email_provider().to_owned()
}

/// `fake::faker::Internet::domain_suffix`: one of the eight suffixes of the crate's
/// table.
#[verifier::external_body]
fn internet_domain_suffix() -> (r: String)
    ensures
        r@.len() > 0,
        domain_suffixes().contains(r@),
{
    <fake::Faker as fake::faker::Internet>::domain_suffix().to_owned()
}

/// `fake::faker::Internet::user_name`: an entry of the crate's tables or a
/// composition of such, none of them empty.
#[verifier::external_body]
fn internet_user_name() -> (r: String)
    ensures
        r@.len() > 0,
{
    <fake::Faker as fake::faker::Internet>::user_name()
}

/// `fake::faker::Internet::free_email`: a random text of the form `user@host`.
#[verifier::external_body]
fn internet_free_email() -> (r: String)
    ensures
        r@.contains('@'),
{
    <fake::Faker as fake::faker::Internet>::free_email()
}

/// `fake::faker::Internet::safe_email`: a random text of the form `user@host`.
#[verifier::external_body]
fn internet_safe_email() -> (r: String)
    ensures
        r@.contains('@'),
{
    <fake::Faker as fake::faker::Internet>::safe_email()
}

/// `fake::faker::Internet::ip`: four random numbers with a `.` between them.
#[verifier::external_body]
fn internet_ip() -> (r: String)
    ensures
        r@.contains('.'),
{
    <fake::Faker as fake::faker::Internet>::ip()
}

/// `fake::faker::Internet::ipv4`: four random numbers with a `.` between them.
#[verifier::external_body]
fn internet_ipv4() -> (r: String)
    ensures
        r@.contains('.'),
{
    <fake::Faker as fake::faker::Internet>::ipv4()
}

/// `fake::faker::Internet::ipv6`: eight random numbers with a `:` between them.
#[verifier::external_body]
fn internet_ipv6() -> (r: String)
    ensures
        r@.contains(':'),
{
    <fake::Faker as fake::faker::Internet>::ipv6()
}

/// `fake::faker::Internet::color`: `#` and three random bytes in two hexadecimal
/// digits each.
#[verifier::external_body]
fn internet_color() -> (r: String)
    ensures
        r@.len() == 7,
        r@[0] == '#',
{
    <fake::Faker as fake::faker::Internet>::color()
}

/// `fake::faker::Internet::user_agent`: an entry of the crate's tables or a
/// composition of such, none of them empty.
#[verifier::external_body]
fn internet_user_agent() -> (r: String)
    ensures
        r@.len() > 0,
{
    <fake::Faker as fake::faker::Internet>::user_agent().to_owned()
}

/// `fake::faker::Address::time_zone`: an entry of the crate's tables or a
/// composition of such, none of them empty.
#[verifier::external_body]
fn address_time_zone() -> (r: String)
    ensures
        r@.len() > 0,
{
    <fake::Faker as fake::faker::Address>::time_zone().to_owned()
}

/// `fake::faker::Address::city_prefix`: one of the seven prefixes of the crate's table.
#[verifier::external_body]
fn address_city_prefix() -> (r: String)
    ensures
        r@.len() > 0,
        city_prefixes().contains(r@),
{
    <fake::Faker as fake::faker::Address>::city_prefix().to_owned()
}

/// `fake::faker::Address::city_suffix`: an entry of the crate's tables or a
/// composition of such, none of them empty.
#[verifier::external_body]
fn address_city_suffix() -> (r: String)
    ensures
        r@.len() > 0,
{
    <fake::Faker as fake::faker::Address>::city_suffix().to_owned()
}

/// `fake::faker::Address::street_suffix`: an entry of the crate's tables or a
/// composition of such, none of them empty.
#[verifier::external_body]
fn address_street_suffix() -> (r: String)
    ensures
        r@.len() > 0,
{
    <fake::Faker as fake::faker::Address>::street_suffix().to_owned()
}

/// `fake::faker::Address::state`: an entry of the crate's tables or a
/// composition of such, none of them empty.
#[verifier::external_body]
fn address_state() -> (r: String)
    ensures
        r@.len() > 0,
{
    <fake::Faker as fake::faker::Address>::state().to_owned()
}

/// `fake::faker::Address::state_abbr`: one of the two-letter codes of the crate's table.
#[verifier::external_body]
fn address_state_abbr() -> (r: String)
    ensures
        r@.len() == 2,
{
    <fake::Faker as fake::faker::Address>::state_abbr().to_owned()
}

/// `fake::faker::Address::city`: an entry of the crate's tables or a
/// composition of such, none of them empty.
#[verifier::external_body]
fn address_city() -> (r: String)
    ensures
        r@.len() > 0,
{
    <fake::Faker as fake::faker::Address>::city()
}

/// `fake::faker::Address::street_name`: a random name and a street suffix with a space
/// between them.
#[verifier::external_body]
fn address_street_name() -> (r: String)
    ensures
        r@.contains(' '),
{
    <fake::Faker as fake::faker::Address>::street_name()
}

/// `fake::faker::Address::building_number`: three to five random digits.
#[verifier::external_body]
fn address_building_number() -> (r: String)
    ensures
        3 <= r@.len() <= 5,
        all_digits(r@),
{
    <fake::Faker as fake::faker::Address>::building_number()
}

/// `fake::faker::Address::street_address`: a building number and a street name with a
/// space between them.
#[verifier::external_body]
fn address_street_address() -> (r: String)
    ensures
        r@.contains(' '),
{
    <fake::Faker as fake::faker::Address>::street_address()
}

/// `fake::faker::Address::secondary_address`: `Apt.` or `Suit.`, a space and three
/// random digits.
#[verifier::external_body]
fn address_secondary_address() -> (r: String)
    ensures
        r@.len() == 8 || r@.len() == 9,
        r@.contains(' '),
{
    <fake::Faker as fake::faker::Address>::secondary_address()
}

/// `fake::faker::Address::zip`: three to five random digits.
#[verifier::external_body]
fn address_zip() -> (r: String)
    ensures
        3 <= r@.len() <= 5,
        all_digits(r@),
{
    <fake::Faker as fake::faker::Address>::zip()
}

/// `fake::faker::Address::postcode`: five random digits, at times followed by `-` and
/// four more.
#[verifier::external_body]
fn address_postcode() -> (r: String)
    ensures
        postcode_shape(r@),
{
    <fake::Faker as fake::faker::Address>::postcode()
}

/// `fake::faker::Address::latitude`: a random number written out, not empty.
#[verifier::external_body]
fn address_latitude() -> (r: String)
    ensures
        r@.len() > 0,
{
    <fake::Faker as fake::faker::Address>::latitude()
}

/// `fake::faker::Address::longitude`: a random number written out, not empty.
#[verifier::external_body]
fn address_longitude() -> (r: String)
    ensures
        r@.len() > 0,
{
    <fake::Faker as fake::faker::Address>::longitude()
}

/// What the generator shows of every value of kind `kind`, beyond that it is
/// not empty.
pub open spec fn shaped(kind: FakerKind, value: Seq<char>) -> bool {
    match kind {
        FakerKind::Boolean => value == "true"@ || value == "false"@,
        FakerKind::Number(NumberKind::Digit) => value.len() == 1 && is_digit(value[0]),
        FakerKind::Number(NumberKind::CellNumber) => value.len() == 12 || value.len() == 14,
        FakerKind::Number(NumberKind::PhoneNumber) => 12 <= value.len() <= 21,
        FakerKind::Lorem(LoremKind::Word) => is_word(value),
        FakerKind::Lorem(LoremKind::Words) => exists|words: Seq<Seq<char>>|
            1 <= words.len() <= 10 && all_words(words) && value == joined(words, " "@),
        FakerKind::Lorem(LoremKind::Sentence) => ends_sentence(value),
        FakerKind::Lorem(LoremKind::Sentences) => exists|sentences: Seq<Seq<char>>|
            sentences.len() == 5 && all_sentences(sentences) && value == joined(sentences, "\n"@),
        FakerKind::Lorem(LoremKind::Paragraph) => ends_sentence(value),
        FakerKind::Lorem(LoremKind::Paragraphs) => exists|paragraphs: Seq<Seq<char>>|
            paragraphs.len() == 5 && all_sentences(paragraphs) && value == joined(
                paragraphs,
                "\n"@,
            ),
        FakerKind::Company(CompanyKind::Suffix) => company_suffixes().contains(value),
        FakerKind::Company(CompanyKind::Name) => value.contains(' ') || value.contains('-'),
        FakerKind::Company(CompanyKind::CatchPhrase) => value.contains(' '),
        FakerKind::Company(CompanyKind::Bs) => value.contains(' '),
        FakerKind::Name(NameKind::Name) => value.contains(' '),
        FakerKind::Name(NameKind::NameWithMiddle) => value.contains(' '),
        FakerKind::Name(NameKind::Prefix) => name_prefixes().contains(value),
        FakerKind::Name(NameKind::Suffix) => name_suffixes().contains(value),
        FakerKind::Name(NameKind::Title) => value.contains(' '),
        FakerKind::Internet(InternetKind::FreeEmailProvider) => email_providers().contains(value),
        FakerKind::Internet(InternetKind::DomainSuffix) => domain_suffixes().contains(value),
        FakerKind::Internet(InternetKind::FreeEmail) => value.contains('@'),
        FakerKind::Internet(InternetKind::SafeEmail) => value.contains('@'),
        FakerKind::Internet(InternetKind::Password) => 4 <= value.len() <= 6,
        FakerKind::Internet(InternetKind::Ip) => value.contains('.'),
        FakerKind::Internet(InternetKind::Ipv4) => value.contains('.'),
        FakerKind::Internet(InternetKind::Ipv6) => value.contains(':'),
        FakerKind::Internet(InternetKind::Color) => value.len() == 7 && value[0] == '#',
        FakerKind::Address(AddressKind::CityPrefix) => city_prefixes().contains(value),
        FakerKind::Address(AddressKind::StateAbbr) => value.len() == 2,
        FakerKind::Address(AddressKind::StreetName) => value.contains(' '),
        FakerKind::Address(AddressKind::BuildingNumber) => 3 <= value.len() <= 5 && all_digits(
            value,
        ),
        FakerKind::Address(AddressKind::StreetAddress) => value.contains(' '),
        FakerKind::Address(AddressKind::SecondaryAddress) => {
            &&& value.len() == 8 || value.len() == 9
            &&& value.contains(' ')
        },
        FakerKind::Address(AddressKind::Zip) => 3 <= value.len() <= 5 && all_digits(value),
        FakerKind::Address(AddressKind::Postcode) => postcode_shape(value),
        _ => true,
    }
}

/// What is known of a value of kind `kind`, whatever the generator returned:
/// it is not empty, and it has the shape of its kind.
pub open spec fn plausible(kind: FakerKind, value: Seq<char>) -> bool {
    value.len() > 0 && shaped(kind, value)
}

/// Parts joined are not empty where the last of them is not.
pub proof fn lemma_joined_not_empty(parts: Seq<Seq<char>>, separator: Seq<char>)
    requires
        parts.len() > 0,
        parts.last().len() > 0,
    ensures
        joined(parts, separator).len() > 0,
{
}

impl FakerKind {
    /// Produces a fresh value of this kind. Each call asks the generator anew,
    /// so two calls may differ.
    pub fn fake(&self) -> (r: String)
        ensures
            plausible(*self, r@),
    {
        match self {
            FakerKind::Number(minor) => match minor {
                NumberKind::Digit => number_digit(),
                NumberKind::CellNumber => phone_cell_number(),
                NumberKind::PhoneNumber => phone_phone_number(),
            },
            FakerKind::Lorem(minor) => match minor {
                LoremKind::Word => lorem_word(),
                LoremKind::Words => {
                    let words = lorem_words(10);
                    proof {
                        lemma_joined_not_empty(texts(words@), " "@);
                    }
                    join(&words, " ")
                },
                LoremKind::Sentence => lorem_sentence(10, 15),
                LoremKind::Sentences => {
                    let sentences = lorem_sentences(5);
                    proof {
                        lemma_joined_not_empty(texts(sentences@), "\n"@);
                    }
                    join(&sentences, "\n")
                },
                LoremKind::Paragraph => lorem_paragraph(10, 15),
                LoremKind::Paragraphs => {
                    let paragraphs = lorem_paragraphs(5);
                    proof {
                        lemma_joined_not_empty(texts(paragraphs@), "\n"@);
                    }
                    join(&paragraphs, "\n")
                },
            },
            FakerKind::Company(minor) => match minor {
                CompanyKind::Suffix => company_suffix(),
                CompanyKind::Name => company_name(),
                CompanyKind::Buzzword => company_buzzword(),
                CompanyKind::CatchPhrase => company_catch_phase(),
                CompanyKind::Bs => company_bs(),
                CompanyKind::Profession => company_profession(),
                CompanyKind::Industry => company_industry(),
            },
            FakerKind::Boolean => {
                proof {
                    reveal_strlit("true");
                    reveal_strlit("false");
                }
                truth_text(boolean_boolean())
            },
            FakerKind::Name(minor) => match minor {
                NameKind::Name => name_name(),
                NameKind::LastName => name_last_name(),
                NameKind::FirstName => name_first_name(),
                NameKind::NameWithMiddle => name_name_with_middle(),
                NameKind::Prefix => name_prefix(),
                NameKind::Suffix => name_suffix(),
                NameKind::TitleDescriptor => name_title_descriptor(),
                NameKind::TitleLevel => name_title_level(),
                NameKind::TitleJob => name_title_job(),
                NameKind::Title => name_title(),
            },
            FakerKind::Internet(minor) => match minor {
                InternetKind::FreeEmailProvider => internet_free_email_provider(),
                InternetKind::DomainSuffix => internet_domain_suffix(),
                InternetKind::UserName => internet_user_name(),
                InternetKind::FreeEmail => internet_free_email(),
                InternetKind::SafeEmail => internet_safe_email(),
                InternetKind::Ip => internet_ip(),
                InternetKind::Ipv4 => internet_ipv4(),
                InternetKind::Ipv6 => internet_ipv6(),
                InternetKind::Color => internet_color(),
                InternetKind::UserAgent => internet_user_agent(),
                InternetKind::Password => internet_password(4, 6),
            },
            FakerKind::Address(minor) => match minor {
                AddressKind::TimeZone => address_time_zone(),
                AddressKind::CityPrefix => address_city_prefix(),
                AddressKind::CitySuffix => address_city_suffix(),
                AddressKind::StreetSuffix => address_street_suffix(),
                AddressKind::State => address_state(),
                AddressKind::StateAbbr => address_state_abbr(),
                AddressKind::City => address_city(),
                AddressKind::StreetName => address_street_name(),
                AddressKind::BuildingNumber => address_building_number(),
                AddressKind::StreetAddress => address_street_address(),
                AddressKind::SecondaryAddress => address_secondary_address(),
                AddressKind::Zip => address_zip(),
                AddressKind::Postcode => address_postcode(),
                AddressKind::Latitude => address_latitude(),
                AddressKind::Longitude => address_longitude(),
            },
        }
    }
}

} // verus!
