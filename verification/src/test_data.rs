//! Deterministic fixtures: for a size, one record of each schema, once in
//! the shape the text codec carries and once in the shape the binary codec
//! carries, both with the same content.

use vstd::prelude::*;
use vstd::string::*;
use crate::evolved;
use crate::metadata::Metadata;
use crate::person::{views, Address, AddressView, Person, PersonView, PhoneNumber, PhoneNumberView, MOBILE};
use crate::schema::{is_primary_kind, narrow_view, widen_phone};
use crate::text::{decimal, decimal_digits, label_number, labelled_numbers_differ, number_label};

verus! {

/// A record of the base schema, as the text codec carries it.
#[derive(Debug)]
pub struct JsonPerson {
    pub name: String,
    pub id: i32,
    pub email: String,
    pub phones: Vec<JsonPhoneNumber>,
    pub addresses: Vec<JsonAddress>,
    pub metadata: Metadata,
}

/// A phone entry of the base schema, as the text codec carries it.
#[derive(Debug)]
pub struct JsonPhoneNumber {
    pub number: String,
    pub type_: i32,
}

/// An address entry of the base schema, as the text codec carries it.
#[derive(Debug)]
pub struct JsonAddress {
    pub street: String,
    pub city: String,
    pub state: String,
    pub zip: String,
    pub country: String,
}

/// A record of the evolved schema, as the text codec carries it: each added
/// field may be absent.
#[derive(Debug)]
pub struct JsonPersonEvolved {
    pub name: String,
    pub id: i32,
    pub email: String,
    pub phones: Vec<JsonPhoneNumberEvolved>,
    pub addresses: Vec<JsonAddressEvolved>,
    pub metadata: Metadata,
    pub additional_field: Option<String>,
    pub priority: Option<i32>,
}

/// A phone entry of the evolved schema, as the text codec carries it.
#[derive(Debug)]
pub struct JsonPhoneNumberEvolved {
    pub number: String,
    pub type_: i32,
    pub is_primary: Option<bool>,
}

/// An address entry of the evolved schema, as the text codec carries it.
#[derive(Debug)]
pub struct JsonAddressEvolved {
    pub street: String,
    pub city: String,
    pub state: String,
    pub zip: String,
    pub country: String,
    pub additional_info: Option<String>,
}

/// What a text-codec phone entry of the evolved schema holds.
pub struct JsonPhoneNumberEvolvedView {
    pub number: Seq<char>,
    pub kind: i32,
    pub is_primary: Option<bool>,
}

/// What a text-codec address entry of the evolved schema holds.
pub struct JsonAddressEvolvedView {
    pub street: Seq<char>,
    pub city: Seq<char>,
    pub state: Seq<char>,
    pub zip: Seq<char>,
    pub country: Seq<char>,
    pub additional_info: Option<Seq<char>>,
}

/// What a text-codec record of the evolved schema holds.
pub struct JsonPersonEvolvedView {
    pub name: Seq<char>,
    pub id: i32,
    pub email: Seq<char>,
    pub phones: Seq<JsonPhoneNumberEvolvedView>,
    pub addresses: Seq<JsonAddressEvolvedView>,
    pub metadata: Map<Seq<char>, Seq<char>>,
    pub additional_field: Option<Seq<char>>,
    pub priority: Option<i32>,
}

/// The text of an optional string.
pub open spec fn optional_text(text: Option<String>) -> Option<Seq<char>> {
    match text {
        Some(s) => Some(s@),
        None => None,
    }
}

impl View for JsonPhoneNumber {
    type V = PhoneNumberView;

    open spec fn view(&self) -> PhoneNumberView {
        PhoneNumberView { number: self.number@, kind: self.type_ }
    }
}

impl View for JsonAddress {
    type V = AddressView;

    open spec fn view(&self) -> AddressView {
        AddressView {
            street: self.street@,
            city: self.city@,
            state: self.state@,
            zip: self.zip@,
            country: self.country@,
        }
    }
}

impl View for JsonPerson {
    type V = PersonView;

    open spec fn view(&self) -> PersonView {
        PersonView {
            name: self.name@,
            id: self.id,
            email: self.email@,
            phones: views(self.phones@),
            addresses: views(self.addresses@),
            metadata: self.metadata@,
        }
    }
}

impl View for JsonPhoneNumberEvolved {
    type V = JsonPhoneNumberEvolvedView;

    open spec fn view(&self) -> JsonPhoneNumberEvolvedView {
        JsonPhoneNumberEvolvedView {
            number: self.number@,
            kind: self.type_,
            is_primary: self.is_primary,
        }
    }
}

impl View for JsonAddressEvolved {
    type V = JsonAddressEvolvedView;

    open spec fn view(&self) -> JsonAddressEvolvedView {
        JsonAddressEvolvedView {
            street: self.street@,
            city: self.city@,
            state: self.state@,
            zip: self.zip@,
            country: self.country@,
            additional_info: optional_text(self.additional_info),
        }
    }
}

impl View for JsonPersonEvolved {
    type V = JsonPersonEvolvedView;

    open spec fn view(&self) -> JsonPersonEvolvedView {
        JsonPersonEvolvedView {
            name: self.name@,
            id: self.id,
            email: self.email@,
            phones: views(self.phones@),
            addresses: views(self.addresses@),
            metadata: self.metadata@,
            additional_field: optional_text(self.additional_field),
            priority: self.priority,
        }
    }
}

/// The phone entry at position `i` of a fixture: the number counts up from
/// 555-1000 and the kind cycles through mobile, home and work.
pub open spec fn phone_at(i: nat) -> PhoneNumberView {
    PhoneNumberView { number: "555-"@ + decimal_digits(1000 + i), kind: (i % 3) as i32 }
}

/// The address entry at position `i` of a fixture.
pub open spec fn address_at(i: nat) -> AddressView {
    AddressView {
        street: decimal_digits(100 + i) + " Main St"@,
        city: "City "@ + decimal_digits(i),
        state: "State "@ + decimal_digits(i),
        zip: decimal_digits(10000 + i),
        country: "Country"@,
    }
}

/// The number of addresses of a fixture of the given size: half the size,
/// and at least one.
pub open spec fn address_count(size: nat) -> nat {
    if size / 2 >= 1 {
        size / 2
    } else {
        1
    }
}

/// The key of the metadata entry at position `i` of a fixture.
pub open spec fn metadata_key(i: nat) -> Seq<char> {
    "key"@ + decimal_digits(i)
}

/// The value of the metadata entry at position `i` of a fixture.
pub open spec fn metadata_value(i: nat) -> Seq<char> {
    "value"@ + decimal_digits(i)
}

/// The metadata of a fixture after its first `n` entries were inserted.
pub open spec fn metadata_upto(n: nat) -> Map<Seq<char>, Seq<char>>
    decreases n,
{
    if n == 0 {
        Map::empty()
    } else {
        metadata_upto((n - 1) as nat).insert(
            metadata_key((n - 1) as nat),
            metadata_value((n - 1) as nat),
        )
    }
}

/// The base-schema fixture of the given size.
pub open spec fn base_fixture(size: nat) -> PersonView {
    PersonView {
        name: "Test Person"@,
        id: 12345,
        email: "test@example.com"@,
        phones: Seq::new(size, |i: int| phone_at(i as nat)),
        addresses: Seq::new(address_count(size), |i: int| address_at(i as nat)),
        metadata: metadata_upto(size),
    }
}

/// A base address entry with the added field as fixtures fill it.
pub open spec fn evolve_address(address: AddressView) -> evolved::AddressView {
    evolved::AddressView {
        street: address.street,
        city: address.city,
        state: address.state,
        zip: address.zip,
        country: address.country,
        additional_info: "Extra address details"@,
    }
}

/// The evolved-schema fixture of the given size: the base fixture with the
/// added fields filled in. Each phone is marked as widening marks it; the
/// other added fields hold fixed values in place of the defaults.
pub open spec fn evolved_fixture(size: nat) -> evolved::PersonView {
    let base = base_fixture(size);
    evolved::PersonView {
        name: base.name,
        id: base.id,
        email: base.email,
        phones: Seq::new(base.phones.len(), |i: int| widen_phone(base.phones[i])),
        addresses: Seq::new(base.addresses.len(), |i: int| evolve_address(base.addresses[i])),
        metadata: base.metadata,
        additional_field: "New information"@,
        priority: 5,
    }
}

/// An evolved phone entry in text-codec shape, with the added field present.
pub open spec fn present_phone(phone: evolved::PhoneNumberView) -> JsonPhoneNumberEvolvedView {
    JsonPhoneNumberEvolvedView {
        number: phone.number,
        kind: phone.kind,
        is_primary: Some(phone.is_primary),
    }
}

/// An evolved address entry in text-codec shape, with the added field present.
pub open spec fn present_address(address: evolved::AddressView) -> JsonAddressEvolvedView {
    JsonAddressEvolvedView {
        street: address.street,
        city: address.city,
        state: address.state,
        zip: address.zip,
        country: address.country,
        additional_info: Some(address.additional_info),
    }
}

/// An evolved record in text-codec shape, with every added field present.
pub open spec fn present(person: evolved::PersonView) -> JsonPersonEvolvedView {
    JsonPersonEvolvedView {
        name: person.name,
        id: person.id,
        email: person.email,
        phones: Seq::new(person.phones.len(), |i: int| present_phone(person.phones[i])),
        addresses: Seq::new(person.addresses.len(), |i: int| present_address(person.addresses[i])),
        metadata: person.metadata,
        additional_field: Some(person.additional_field),
        priority: Some(person.priority),
    }
}

/// Whether every number of a fixture of the given size fits the machine's
/// word: the largest is the last phone number, 1000 plus the last position.
pub open spec fn size_fits(size: usize) -> bool {
    size <= usize::MAX - 999
}

/// The phone number text at position `i`.
fn phone_number_text(i: usize) -> (text: String)
    requires
        i <= usize::MAX - 1000,
    ensures
        text@ == phone_at(i as nat).number,
{
    label_number("555-", 1000 + i)
}

/// The address at position `i`, in text-codec shape.
fn json_address(i: usize) -> (address: JsonAddress)
    requires
        i <= usize::MAX - 10000,
    ensures
        address@ == address_at(i as nat),
{
    JsonAddress {
        street: number_label(100 + i, " Main St"),
        city: label_number("City ", i),
        state: label_number("State ", i),
        zip: decimal(10000 + i),
        country: String::from_str("Country"),
    }
}

/// The address at position `i`, in binary-codec shape.
fn proto_address(i: usize) -> (address: Address)
    requires
        i <= usize::MAX - 10000,
    ensures
        address@ == address_at(i as nat),
{
    Address {
        street: number_label(100 + i, " Main St"),
        city: label_number("City ", i),
        state: label_number("State ", i),
        zip: decimal(10000 + i),
        country: String::from_str("Country"),
    }
}

/// Builds the base-schema fixture of the given size in both shapes: `size`
/// phones, half as many addresses (at least one) and `size` metadata
/// entries, every value a function of its position.
pub fn generate_test_data(size: usize) -> (fixture: (JsonPerson, Person))
    requires
        size_fits(size),
    ensures
        fixture.0@ == base_fixture(size as nat),
        fixture.1@ == base_fixture(size as nat),
        fixture.0.phones@.len() == size,
        fixture.0.addresses@.len() == address_count(size as nat),
        fixture.0.metadata.entries@.len() == size,
        fixture.1.phones@.len() == size,
        fixture.1.addresses@.len() == address_count(size as nat),
        fixture.1.metadata.entries@.len() == size,
        fixture.0.metadata.wf(),
        fixture.1.metadata.wf(),
{
    let mut json_phones: Vec<JsonPhoneNumber> = Vec::new();
    let mut proto_phones: Vec<PhoneNumber> = Vec::new();
    let mut i: usize = 0;
    while i < size
        invariant
            i <= size,
            size_fits(size),
            json_phones@.len() == i,
            proto_phones@.len() == i,
            forall|j: int| 0 <= j < i ==> (#[trigger] json_phones@[j])@ == phone_at(j as nat),
            forall|j: int| 0 <= j < i ==> (#[trigger] proto_phones@[j])@ == phone_at(j as nat),
        decreases size - i,
    {
        let phone_type: i32 = (i % 3) as i32;
        json_phones.push(JsonPhoneNumber { number: phone_number_text(i), type_: phone_type });
        proto_phones.push(PhoneNumber { number: phone_number_text(i), type_: phone_type });
        i = i + 1;
    }
    let count: usize = if size / 2 >= 1 {
        size / 2
    } else {
        1
    };
    let mut json_addresses: Vec<JsonAddress> = Vec::new();
    let mut proto_addresses: Vec<Address> = Vec::new();
    let mut i: usize = 0;
    while i < count
        invariant
            i <= count,
            count <= usize::MAX / 2 + 1,
            json_addresses@.len() == i,
            proto_addresses@.len() == i,
            forall|j: int| 0 <= j < i ==> (#[trigger] json_addresses@[j])@ == address_at(j as nat),
            forall|j: int| 0 <= j < i ==> (#[trigger] proto_addresses@[j])@ == address_at(j as nat),
        decreases count - i,
    {
        json_addresses.push(json_address(i));
        proto_addresses.push(proto_address(i));
        i = i + 1;
    }
    let mut json_metadata = Metadata::new();
    let mut proto_metadata = Metadata::new();
    let mut i: usize = 0;
    while i < size
        invariant
            i <= size,
            json_metadata@ == metadata_upto(i as nat),
            proto_metadata@ == metadata_upto(i as nat),
            json_metadata.entries@.len() == i,
            proto_metadata.entries@.len() == i,
            json_metadata.wf(),
            proto_metadata.wf(),
        decreases size - i,
    {
        proof {
            metadata_has_one_entry_for_each_position(i as nat);
            if metadata_upto(i as nat).contains_key(metadata_key(i as nat)) {
                let j = choose|j: nat| j < i && metadata_key(i as nat) == #[trigger] metadata_key(j);
                labelled_numbers_differ("key"@, i as nat, j);
            }
        }
        json_metadata.insert(label_number("key", i), label_number("value", i));
        proto_metadata.insert(label_number("key", i), label_number("value", i));
        i = i + 1;
    }
    let json_person = JsonPerson {
        name: String::from_str("Test Person"),
        id: 12345,
        email: String::from_str("test@example.com"),
        phones: json_phones,
        addresses: json_addresses,
        metadata: json_metadata,
    };
    let proto_person = Person {
        name: String::from_str("Test Person"),
        id: 12345,
        email: String::from_str("test@example.com"),
        phones: proto_phones,
        addresses: proto_addresses,
        metadata: proto_metadata,
    };
    proof {
        assert(json_person@.phones =~= base_fixture(size as nat).phones);
        assert(json_person@.addresses =~= base_fixture(size as nat).addresses);
        assert(proto_person@.phones =~= base_fixture(size as nat).phones);
        assert(proto_person@.addresses =~= base_fixture(size as nat).addresses);
    }
    (json_person, proto_person)
}

/// Builds the evolved-schema fixture of the given size in both shapes: the
/// base fixture of that size, each phone marked primary exactly when it is a
/// mobile line, each address and the record carrying the fixed added texts,
/// and priority five.
pub fn generate_evolved_test_data(size: usize) -> (fixture: (JsonPersonEvolved, evolved::Person))
    requires
        size_fits(size),
    ensures
        fixture.1@ == evolved_fixture(size as nat),
        fixture.0@ == present(evolved_fixture(size as nat)),
        fixture.0.phones@.len() == size,
        fixture.0.addresses@.len() == address_count(size as nat),
        fixture.0.metadata.entries@.len() == size,
        fixture.1.phones@.len() == size,
        fixture.1.addresses@.len() == address_count(size as nat),
        fixture.1.metadata.entries@.len() == size,
        fixture.0.metadata.wf(),
        fixture.1.metadata.wf(),
{
    let (json_basic, proto_basic) = generate_test_data(size);
    let ghost base = base_fixture(size as nat);
    let mut json_phones: Vec<JsonPhoneNumberEvolved> = Vec::new();
    let mut proto_phones: Vec<evolved::PhoneNumber> = Vec::new();
    let mut i: usize = 0;
    while i < size
        invariant
            i <= size,
            json_basic.phones@.len() == size,
            proto_basic.phones@.len() == size,
            json_basic@ == base,
            proto_basic@ == base,
            json_phones@.len() == i,
            proto_phones@.len() == i,
            forall|j: int|
                0 <= j < i ==> (#[trigger] json_phones@[j])@ == present_phone(
                    widen_phone(base.phones[j]),
                ),
            forall|j: int|
                0 <= j < i ==> (#[trigger] proto_phones@[j])@ == widen_phone(base.phones[j]),
        decreases size - i,
    {
        let json_phone = &json_basic.phones[i];
        let proto_phone = &proto_basic.phones[i];
        proof {
            assert(json_basic@.phones[i as int] == json_phone@);
            assert(proto_basic@.phones[i as int] == proto_phone@);
        }
        json_phones.push(
            JsonPhoneNumberEvolved {
                number: json_phone.number.clone(),
                type_: json_phone.type_,
                is_primary: Some(is_primary_kind(json_phone.type_)),
            },
        );
        proto_phones.push(
            evolved::PhoneNumber {
                number: proto_phone.number.clone(),
                type_: proto_phone.type_,
                is_primary: is_primary_kind(proto_phone.type_),
            },
        );
        i = i + 1;
    }
    let count: usize = json_basic.addresses.len();
    let mut json_addresses: Vec<JsonAddressEvolved> = Vec::new();
    let mut proto_addresses: Vec<evolved::Address> = Vec::new();
    let mut i: usize = 0;
    while i < count
        invariant
            i <= count,
            json_basic.addresses@.len() == count,
            proto_basic.addresses@.len() == count,
            json_basic@ == base,
            proto_basic@ == base,
            json_addresses@.len() == i,
            proto_addresses@.len() == i,
            forall|j: int|
                0 <= j < i ==> (#[trigger] json_addresses@[j])@ == present_address(
                    evolve_address(base.addresses[j]),
                ),
            forall|j: int|
                0 <= j < i ==> (#[trigger] proto_addresses@[j])@ == evolve_address(
                    base.addresses[j],
                ),
        decreases count - i,
    {
        let json_address = &json_basic.addresses[i];
        let proto_address = &proto_basic.addresses[i];
        proof {
            assert(json_basic@.addresses[i as int] == json_address@);
            assert(proto_basic@.addresses[i as int] == proto_address@);
        }
        json_addresses.push(
            JsonAddressEvolved {
                street: json_address.street.clone(),
                city: json_address.city.clone(),
                state: json_address.state.clone(),
                zip: json_address.zip.clone(),
                country: json_address.country.clone(),
                additional_info: Some(String::from_str("Extra address details")),
            },
        );
        proto_addresses.push(
            evolved::Address {
                street: proto_address.street.clone(),
                city: proto_address.city.clone(),
                state: proto_address.state.clone(),
                zip: proto_address.zip.clone(),
                country: proto_address.country.clone(),
                additional_info: String::from_str("Extra address details"),
            },
        );
        i = i + 1;
    }
    let json_evolved = JsonPersonEvolved {
        name: json_basic.name.clone(),
        id: json_basic.id,
        email: json_basic.email.clone(),
        phones: json_phones,
        addresses: json_addresses,
        metadata: json_basic.metadata.duplicate(),
        additional_field: Some(String::from_str("New information")),
        priority: Some(5),
    };
    let proto_evolved = evolved::Person {
        name: proto_basic.name,
        id: proto_basic.id,
        email: proto_basic.email,
        phones: proto_phones,
        addresses: proto_addresses,
        metadata: proto_basic.metadata,
        additional_field: String::from_str("New information"),
        priority: 5,
    };
    proof {
        let target = evolved_fixture(size as nat);
        assert(proto_evolved@.phones =~= target.phones);
        assert(proto_evolved@.addresses =~= target.addresses);
        assert(json_evolved@.phones =~= present(target).phones);
        assert(json_evolved@.addresses =~= present(target).addresses);
    }
    (json_evolved, proto_evolved)
}

/// Two base fixtures built for one size hold the same values, field for
/// field, and the two shapes of each hold the same content.
pub proof fn fixtures_are_deterministic(
    size: usize,
    first: (JsonPerson, Person),
    second: (JsonPerson, Person),
)
    requires
        first.0@ == base_fixture(size as nat),
        first.1@ == base_fixture(size as nat),
        second.0@ == base_fixture(size as nat),
        second.1@ == base_fixture(size as nat),
    ensures
        first.0@ == second.0@,
        first.1@ == second.1@,
        first.0@ == first.1@,
{
}

/// In the evolved fixture of any size, a phone is primary exactly when its
/// kind is mobile, which is at every third position from the first; the
/// text-codec shape carries the same mark.
pub proof fn fixture_phone_is_primary_iff_mobile(size: nat, i: int)
    requires
        0 <= i < size,
    ensures
        evolved_fixture(size).phones.len() == size,
        evolved_fixture(size).phones[i].is_primary <==> evolved_fixture(size).phones[i].kind
            == MOBILE,
        evolved_fixture(size).phones[i].is_primary <==> i % 3 == 0,
        present(evolved_fixture(size)).phones[i].is_primary == Some(
            evolved_fixture(size).phones[i].kind == MOBILE,
        ),
{
}

/// The evolved fixture narrows to the base fixture of the same size.
pub proof fn evolved_fixture_narrows_to_base(size: nat)
    ensures
        narrow_view(evolved_fixture(size)) == base_fixture(size),
{
    let narrowed = narrow_view(evolved_fixture(size));
    assert(narrowed.phones =~= base_fixture(size).phones);
    assert(narrowed.addresses =~= base_fixture(size).addresses);
}

/// The metadata of a fixture binds one key for each position, each to the
/// value of its position: a fixture of size `n` has exactly `n` entries.
pub proof fn metadata_has_one_entry_for_each_position(n: nat)
    ensures
        metadata_upto(n).dom().finite(),
        metadata_upto(n).dom().len() == n,
        forall|key: Seq<char>|
            metadata_upto(n).contains_key(key) ==> exists|i: nat|
                i < n && key == #[trigger] metadata_key(i),
        forall|i: nat|
            i < n ==> metadata_upto(n).contains_key(#[trigger] metadata_key(i)) && metadata_upto(
                n,
            )[metadata_key(i)] == metadata_value(i),
    decreases n,
{
    if n > 0 {
        let m = (n - 1) as nat;
        metadata_has_one_entry_for_each_position(m);
        let before = metadata_upto(m);
        if before.contains_key(metadata_key(m)) {
            let i = choose|i: nat| i < m && metadata_key(m) == #[trigger] metadata_key(i);
            labelled_numbers_differ("key"@, m, i);
        }
        assert forall|i: nat| i < n implies metadata_upto(n).contains_key(
            #[trigger] metadata_key(i),
        ) && metadata_upto(n)[metadata_key(i)] == metadata_value(i) by {
            if i < m {
                if metadata_key(i) == metadata_key(m) {
                    labelled_numbers_differ("key"@, i, m);
                }
            }
        }
        assert forall|key: Seq<char>| metadata_upto(n).contains_key(key) implies exists|i: nat|
            i < n && key == #[trigger] metadata_key(i) by {
            if key == metadata_key(m) {
                assert(m < n && key == metadata_key(m));
            } else {
                assert(before.contains_key(key));
                let i = choose|i: nat| i < m && key == #[trigger] metadata_key(i);
                assert(i < n && key == metadata_key(i));
            }
        }
    }
}

} // verus!
