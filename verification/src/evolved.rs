//! The evolved schema: the base schema with one added field on each phone
//! and address entry, two added fields on the record, and one more phone
//! kind.

use vstd::prelude::*;
use crate::metadata::Metadata;
use crate::person::views;

verus! {

/// Phone kind that only the evolved schema knows.
pub const OTHER: i32 = 3;

/// What a phone entry of the evolved schema holds.
pub struct PhoneNumberView {
    pub number: Seq<char>,
    pub kind: i32,
    pub is_primary: bool,
}

/// What an address entry of the evolved schema holds.
pub struct AddressView {
    pub street: Seq<char>,
    pub city: Seq<char>,
    pub state: Seq<char>,
    pub zip: Seq<char>,
    pub country: Seq<char>,
    pub additional_info: Seq<char>,
}

/// What a record of the evolved schema holds.
pub struct PersonView {
    pub name: Seq<char>,
    pub id: i32,
    pub email: Seq<char>,
    pub phones: Seq<PhoneNumberView>,
    pub addresses: Seq<AddressView>,
    pub metadata: Map<Seq<char>, Seq<char>>,
    pub additional_field: Seq<char>,
    pub priority: i32,
}

/// A phone entry of the evolved schema.
#[derive(Debug)]
pub struct PhoneNumber {
    pub number: String,
    pub type_: i32,
    pub is_primary: bool,
}

/// An address entry of the evolved schema.
#[derive(Debug)]
pub struct Address {
    pub street: String,
    pub city: String,
    pub state: String,
    pub zip: String,
    pub country: String,
    pub additional_info: String,
}

/// A record of the evolved schema.
#[derive(Debug)]
pub struct Person {
    pub name: String,
    pub id: i32,
    pub email: String,
    pub phones: Vec<PhoneNumber>,
    pub addresses: Vec<Address>,
    pub metadata: Metadata,
    pub additional_field: String,
    pub priority: i32,
}

impl View for PhoneNumber {
    type V = PhoneNumberView;

    open spec fn view(&self) -> PhoneNumberView {
        PhoneNumberView { number: self.number@, kind: self.type_, is_primary: self.is_primary }
    }
}

impl View for Address {
    type V = AddressView;

    open spec fn view(&self) -> AddressView {
        AddressView {
            street: self.street@,
            city: self.city@,
            state: self.state@,
            zip: self.zip@,
            country: self.country@,
            additional_info: self.additional_info@,
        }
    }
}

impl View for Person {
    type V = PersonView;

    open spec fn view(&self) -> PersonView {
        PersonView {
            name: self.name@,
            id: self.id,
            email: self.email@,
            phones: views(self.phones@),
            addresses: views(self.addresses@),
            metadata: self.metadata@,
            additional_field: self.additional_field@,
            priority: self.priority,
        }
    }
}

} // verus!
