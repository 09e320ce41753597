//! The base schema: a person record as the binary codec carries it.

use vstd::prelude::*;
use crate::metadata::Metadata;

verus! {

/// Phone kind for a mobile line.
pub const MOBILE: i32 = 0;

/// Phone kind for a home line.
pub const HOME: i32 = 1;

/// Phone kind for a work line.
pub const WORK: i32 = 2;

/// The views of the items of a sequence, in order.
pub open spec fn views<T: View>(items: Seq<T>) -> Seq<T::V> {
    Seq::new(items.len(), |i: int| items[i]@)
}

/// What a phone entry of the base schema holds.
pub struct PhoneNumberView {
    pub number: Seq<char>,
    pub kind: i32,
}

/// What an address entry of the base schema holds.
pub struct AddressView {
    pub street: Seq<char>,
    pub city: Seq<char>,
    pub state: Seq<char>,
    pub zip: Seq<char>,
    pub country: Seq<char>,
}

/// What a record of the base schema holds.
pub struct PersonView {
    pub name: Seq<char>,
    pub id: i32,
    pub email: Seq<char>,
    pub phones: Seq<PhoneNumberView>,
    pub addresses: Seq<AddressView>,
    pub metadata: Map<Seq<char>, Seq<char>>,
}

/// A phone entry of the base schema.
#[derive(Debug)]
pub struct PhoneNumber {
    pub number: String,
    pub type_: i32,
}

/// An address entry of the base schema.
#[derive(Debug)]
pub struct Address {
    pub street: String,
    pub city: String,
    pub state: String,
    pub zip: String,
    pub country: String,
}

/// A record of the base schema.
#[derive(Debug)]
pub struct Person {
    pub name: String,
    pub id: i32,
    pub email: String,
    pub phones: Vec<PhoneNumber>,
    pub addresses: Vec<Address>,
    pub metadata: Metadata,
}

impl View for PhoneNumber {
    type V = PhoneNumberView;

    open spec fn view(&self) -> PhoneNumberView {
        PhoneNumberView { number: self.number@, kind: self.type_ }
    }
}

impl View for Address {
    type V = AddressView;

    open spec fn view(&self) -> AddressView {
        AddressView {
            street: self.street@,
            city: self.city@,
            state: self.state@,
            zip: self.zip@,
            country: self.country@,
        }
    }
}

impl View for Person {
    type V = PersonView;

    open spec fn view(&self) -> PersonView {
        PersonView {
            name: self.name@,
            id: self.id,
            email: self.email@,
            phones: views(self.phones@),
            addresses: views(self.addresses@),
            metadata: self.metadata@,
        }
    }
}

} // verus!
