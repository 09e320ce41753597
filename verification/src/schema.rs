//! The mapping between the two versions of the schema: widening a base
//! record into the evolved shape with derived defaults, and narrowing an
//! evolved record into the base shape by dropping what was added.

use vstd::prelude::*;
use crate::evolved;
use crate::person::{Address, AddressView, Person, PersonView, PhoneNumber, PhoneNumberView, MOBILE};

verus! {

/// Whether a phone of the given kind is the primary one: exactly a mobile
/// line is.
pub open spec fn primary_for_kind(kind: i32) -> bool {
    kind == MOBILE
}

/// A base phone entry in evolved shape, its added field derived from its
/// kind.
pub open spec fn widen_phone(phone: PhoneNumberView) -> evolved::PhoneNumberView {
    evolved::PhoneNumberView {
        number: phone.number,
        kind: phone.kind,
        is_primary: primary_for_kind(phone.kind),
    }
}

/// A base address entry in evolved shape, its added field empty.
pub open spec fn widen_address(address: AddressView) -> evolved::AddressView {
    evolved::AddressView {
        street: address.street,
        city: address.city,
        state: address.state,
        zip: address.zip,
        country: address.country,
        additional_info: Seq::empty(),
    }
}

/// A base record in evolved shape: shared fields as they are, entry by
/// entry and in order; added texts empty, priority zero.
pub open spec fn widen_view(base: PersonView) -> evolved::PersonView {
    evolved::PersonView {
        name: base.name,
        id: base.id,
        email: base.email,
        phones: Seq::new(base.phones.len(), |i: int| widen_phone(base.phones[i])),
        addresses: Seq::new(base.addresses.len(), |i: int| widen_address(base.addresses[i])),
        metadata: base.metadata,
        additional_field: Seq::empty(),
        priority: 0,
    }
}

/// An evolved phone entry without its added field.
pub open spec fn narrow_phone(phone: evolved::PhoneNumberView) -> PhoneNumberView {
    PhoneNumberView { number: phone.number, kind: phone.kind }
}

/// An evolved address entry without its added field.
pub open spec fn narrow_address(address: evolved::AddressView) -> AddressView {
    AddressView {
        street: address.street,
        city: address.city,
        state: address.state,
        zip: address.zip,
        country: address.country,
    }
}

/// An evolved record in base shape: shared fields as they are, entry by
/// entry and in order; nothing of the added fields.
pub open spec fn narrow_view(person: evolved::PersonView) -> PersonView {
    PersonView {
        name: person.name,
        id: person.id,
        email: person.email,
        phones: Seq::new(person.phones.len(), |i: int| narrow_phone(person.phones[i])),
        addresses: Seq::new(person.addresses.len(), |i: int| narrow_address(person.addresses[i])),
        metadata: person.metadata,
    }
}

/// Whether two evolved records agree on every field that the base schema
/// has.
pub open spec fn same_shared_fields(a: evolved::PersonView, b: evolved::PersonView) -> bool {
    &&& a.name == b.name
    &&& a.id == b.id
    &&& a.email == b.email
    &&& a.metadata == b.metadata
    &&& a.phones.len() == b.phones.len()
    &&& a.addresses.len() == b.addresses.len()
    &&& forall|i: int|
        0 <= i < a.phones.len() ==> (#[trigger] a.phones[i]).number == b.phones[i].number
            && a.phones[i].kind == b.phones[i].kind
    &&& forall|i: int|
        0 <= i < a.addresses.len() ==> (#[trigger] a.addresses[i]).street == b.addresses[i].street
            && a.addresses[i].city == b.addresses[i].city && a.addresses[i].state
            == b.addresses[i].state && a.addresses[i].zip == b.addresses[i].zip
            && a.addresses[i].country == b.addresses[i].country
}

/// Decides the added field of a phone from its kind.
pub fn is_primary_kind(kind: i32) -> (primary: bool)
    ensures
        primary == primary_for_kind(kind),
{
    kind == MOBILE
}

/// Reads a base record as the evolved schema would: every shared field is
/// copied, each phone is marked primary exactly when it is a mobile line,
/// and the other added fields get their defaults (empty text, zero).
pub fn widen(base: &Person) -> (widened: evolved::Person)
    ensures
        widened@ == widen_view(base@),
{
    let mut phones: Vec<evolved::PhoneNumber> = Vec::new();
    let mut i: usize = 0;
    while i < base.phones.len()
        invariant
            i <= base.phones@.len(),
            phones@.len() == i,
            forall|j: int| 0 <= j < i ==> (#[trigger] phones@[j])@ == widen_phone(base.phones@[j]@),
        decreases base.phones@.len() - i,
    {
        let phone = &base.phones[i];
        phones.push(
            evolved::PhoneNumber {
                number: phone.number.clone(),
                type_: phone.type_,
                is_primary: is_primary_kind(phone.type_),
            },
        );
        i = i + 1;
    }
    let mut addresses: Vec<evolved::Address> = Vec::new();
    let mut i: usize = 0;
    while i < base.addresses.len()
        invariant
            i <= base.addresses@.len(),
            addresses@.len() == i,
            forall|j: int|
                0 <= j < i ==> (#[trigger] addresses@[j])@ == widen_address(base.addresses@[j]@),
        decreases base.addresses@.len() - i,
    {
        let address = &base.addresses[i];
        addresses.push(
            evolved::Address {
                street: address.street.clone(),
                city: address.city.clone(),
                state: address.state.clone(),
                zip: address.zip.clone(),
                country: address.country.clone(),
                additional_info: String::new(),
            },
        );
        i = i + 1;
    }
    let widened = evolved::Person {
        name: base.name.clone(),
        id: base.id,
        email: base.email.clone(),
        phones,
        addresses,
        metadata: base.metadata.duplicate(),
        additional_field: String::new(),
        priority: 0,
    };
    proof {
        assert(widened@.phones =~= widen_view(base@).phones);
        assert(widened@.addresses =~= widen_view(base@).addresses);
    }
    widened
}

/// Reads an evolved record as the base schema would: every shared field is
/// copied, and the added fields of the record, of each phone and of each
/// address are dropped.
pub fn narrow(person: &evolved::Person) -> (narrowed: Person)
    ensures
        narrowed@ == narrow_view(person@),
{
    let mut phones: Vec<PhoneNumber> = Vec::new();
    let mut i: usize = 0;
    while i < person.phones.len()
        invariant
            i <= person.phones@.len(),
            phones@.len() == i,
            forall|j: int|
                0 <= j < i ==> (#[trigger] phones@[j])@ == narrow_phone(person.phones@[j]@),
        decreases person.phones@.len() - i,
    {
        let phone = &person.phones[i];
        phones.push(PhoneNumber { number: phone.number.clone(), type_: phone.type_ });
        i = i + 1;
    }
    let mut addresses: Vec<Address> = Vec::new();
    let mut i: usize = 0;
    while i < person.addresses.len()
        invariant
            i <= person.addresses@.len(),
            addresses@.len() == i,
            forall|j: int|
                0 <= j < i ==> (#[trigger] addresses@[j])@ == narrow_address(
                    person.addresses@[j]@,
                ),
        decreases person.addresses@.len() - i,
    {
        let address = &person.addresses[i];
        addresses.push(
            Address {
                street: address.street.clone(),
                city: address.city.clone(),
                state: address.state.clone(),
                zip: address.zip.clone(),
                country: address.country.clone(),
            },
        );
        i = i + 1;
    }
    let narrowed = Person {
        name: person.name.clone(),
        id: person.id,
        email: person.email.clone(),
        phones,
        addresses,
        metadata: person.metadata.duplicate(),
    };
    proof {
        assert(narrowed@.phones =~= narrow_view(person@).phones);
        assert(narrowed@.addresses =~= narrow_view(person@).addresses);
    }
    narrowed
}

/// Widening a base record and narrowing the result gives the base record
/// back, whatever it holds.
pub proof fn narrow_undoes_widen(base: PersonView)
    ensures
        narrow_view(widen_view(base)) == base,
{
    let back = narrow_view(widen_view(base));
    assert(back.phones =~= base.phones);
    assert(back.addresses =~= base.addresses);
}

/// After widening, a phone is primary exactly when its kind is mobile.
pub proof fn widened_phone_is_primary_iff_mobile(base: PersonView, i: int)
    requires
        0 <= i < base.phones.len(),
    ensures
        widen_view(base).phones.len() == base.phones.len(),
        widen_view(base).phones[i].is_primary <==> widen_view(base).phones[i].kind == MOBILE,
        widen_view(base).phones[i].kind == base.phones[i].kind,
{
}

/// Narrowing keeps every shared field as it is, at the record and in each
/// phone and address, and keeps the entries in order.
pub proof fn narrow_keeps_shared_fields(person: evolved::PersonView)
    ensures
        same_shared_fields(widen_view(narrow_view(person)), person),
        narrow_view(person).name == person.name,
        narrow_view(person).id == person.id,
        narrow_view(person).email == person.email,
        narrow_view(person).metadata == person.metadata,
        narrow_view(person).phones.len() == person.phones.len(),
        narrow_view(person).addresses.len() == person.addresses.len(),
        forall|i: int|
            0 <= i < person.phones.len() ==> (#[trigger] narrow_view(person).phones[i])
                == narrow_phone(person.phones[i]),
        forall|i: int|
            0 <= i < person.addresses.len() ==> (#[trigger] narrow_view(person).addresses[i])
                == narrow_address(person.addresses[i]),
{
}

/// Narrowing drops the added fields and nothing else: two evolved records
/// that agree on the shared fields narrow to the same base record, whatever
/// their added fields hold.
pub proof fn narrow_ignores_added_fields(a: evolved::PersonView, b: evolved::PersonView)
    requires
        same_shared_fields(a, b),
    ensures
        narrow_view(a) == narrow_view(b),
{
    assert(narrow_view(a).phones =~= narrow_view(b).phones);
    assert(narrow_view(a).addresses =~= narrow_view(b).addresses);
}

} // verus!
