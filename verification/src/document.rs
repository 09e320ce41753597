//! Untyped documents: what the text codec yields when it reads a payload
//! without a schema, and the filter that keeps of an evolved record only
//! what the base schema knows.

use vstd::prelude::*;
use vstd::string::*;
use crate::person::views;

verus! {

/// A number of the text codec, carried as it is.
#[verifier::external_type_specification]
#[verifier::external_body]
pub struct ExNumber(serde_json::Number);

/// One member of an object: a key and what it is bound to.
#[derive(Debug)]
pub struct Member {
    pub key: String,
    pub value: Document,
}

/// An untyped document. In an object a later member replaces an earlier
/// one with the same key.
#[derive(Debug)]
pub enum Document {
    Null,
    Bool(bool),
    Number(serde_json::Number),
    Text(String),
    Array(Vec<Document>),
    Object(Vec<Member>),
}

/// What a document holds.
pub enum Tree {
    Null,
    Bool(bool),
    Number(serde_json::Number),
    Text(Seq<char>),
    Array(Seq<Tree>),
    Object(Seq<(Seq<char>, Tree)>),
}

/// Why a document cannot be filtered down to the base schema.
#[derive(Clone, Copy, Debug, PartialEq, Eq, Structural)]
pub enum FilterError {
    /// What is bound to "phones" is not an array.
    PhonesNotArray,
    /// What is bound to "addresses" is not an array.
    AddressesNotArray,
}

/// What the last member with the given key is bound to, or null where no
/// member has the key.
pub open spec fn member_of(members: Seq<(Seq<char>, Tree)>, key: Seq<char>) -> Tree
    decreases members.len(),
{
    if members.len() == 0 {
        Tree::Null
    } else if members.last().0 == key {
        members.last().1
    } else {
        member_of(members.drop_last(), key)
    }
}

/// What `key` is bound to in `tree`: null where `tree` is no object or has
/// no such member.
pub open spec fn field_of(tree: Tree, key: Seq<char>) -> Tree {
    match tree {
        Tree::Object(members) => member_of(members, key),
        _ => Tree::Null,
    }
}

/// The object that binds each of `keys`, in their order, to what it is
/// bound to in `tree`.
pub open spec fn pick_of(tree: Tree, keys: Seq<Seq<char>>) -> Tree {
    Tree::Object(Seq::new(keys.len(), |i: int| (keys[i], field_of(tree, keys[i]))))
}

/// The array of the items of `tree`, each cut down to `keys`; nothing where
/// `tree` is no array.
pub open spec fn pick_each_of(tree: Tree, keys: Seq<Seq<char>>) -> Option<Tree> {
    match tree {
        Tree::Array(items) => Some(
            Tree::Array(Seq::new(items.len(), |i: int| pick_of(items[i], keys))),
        ),
        _ => None,
    }
}

/// The keys of a phone entry in the base schema.
pub open spec fn phone_keys() -> Seq<Seq<char>> {
    seq!["number"@, "type_"@]
}

/// The keys of an address entry in the base schema.
pub open spec fn address_keys() -> Seq<Seq<char>> {
    seq!["street"@, "city"@, "state"@, "zip"@, "country"@]
}

/// A record cut down to the base schema: its six members in the order name,
/// id, email, phones, addresses, metadata, the phones and addresses cut
/// down entry by entry. A member that the record lacks is bound to null.
pub open spec fn filtered(tree: Tree) -> Result<Tree, FilterError> {
    match pick_each_of(field_of(tree, "phones"@), phone_keys()) {
        None => Err(FilterError::PhonesNotArray),
        Some(phones) => match pick_each_of(field_of(tree, "addresses"@), address_keys()) {
            None => Err(FilterError::AddressesNotArray),
            Some(addresses) => Ok(
                Tree::Object(
                    seq![
                        ("name"@, field_of(tree, "name"@)),
                        ("id"@, field_of(tree, "id"@)),
                        ("email"@, field_of(tree, "email"@)),
                        ("phones"@, phones),
                        ("addresses"@, addresses),
                        ("metadata"@, field_of(tree, "metadata"@)),
                    ],
                ),
            ),
        },
    }
}

/// Copies a number with `serde_json::Number::clone`. Trusted: the copy
/// equals the number.
#[verifier::external_body]
pub(crate) fn copy_number(number: &serde_json::Number) -> (copy: serde_json::Number)
    ensures
        copy == *number,
{
    number.clone()
}

impl Document {
    /// What the document holds.
    pub open spec fn tree(self) -> Tree
        decreases self,
    {
        match self {
            Document::Null => Tree::Null,
            Document::Bool(b) => Tree::Bool(b),
            Document::Number(n) => Tree::Number(n),
            Document::Text(s) => Tree::Text(s@),
            Document::Array(items) => Tree::Array(
                Seq::new(
                    items@.len(),
                    |i: int|
                        if 0 <= i < items@.len() {
                            items@[i].tree()
                        } else {
                            Tree::Null
                        },
                ),
            ),
            Document::Object(members) => Tree::Object(
                Seq::new(
                    members@.len(),
                    |i: int|
                        if 0 <= i < members@.len() {
                            (members@[i].key@, members@[i].value.tree())
                        } else {
                            (Seq::empty(), Tree::Null)
                        },
                ),
            ),
        }
    }

    /// A copy that holds the same.
    pub fn duplicate(&self) -> (copy: Document)
        ensures
            copy.tree() == self.tree(),
        decreases self,
    {
        match self {
            Document::Null => Document::Null,
            Document::Bool(b) => Document::Bool(*b),
            Document::Number(n) => Document::Number(copy_number(n)),
            Document::Text(s) => Document::Text(s.clone()),
            Document::Array(items) => {
                let mut copies: Vec<Document> = Vec::new();
                let mut i: usize = 0;
                while i < items.len()
                    invariant
                        i <= items@.len(),
                        copies@.len() == i,
                        *self == Document::Array(*items),
                        decreases_to!(*self => *items),
                        forall|j: int| 0 <= j < i ==> (#[trigger] copies@[j]).tree() == items@[j].tree(),
                    decreases items@.len() - i,
                {
                    proof {
                        assert(decreases_to!(*self => *items));
                        assert(decreases_to!(*items => items@));
                        assert(decreases_to!(items@ => items@[i as int]));
                    }
                    let copy = items[i].duplicate();
                    copies.push(copy);
                    i = i + 1;
                }
                let copy = Document::Array(copies);
                proof {
                    assert(copy.tree()->Array_0 =~= self.tree()->Array_0);
                }
                copy
            },
            Document::Object(members) => {
                let mut copies: Vec<Member> = Vec::new();
                let mut i: usize = 0;
                while i < members.len()
                    invariant
                        i <= members@.len(),
                        copies@.len() == i,
                        *self == Document::Object(*members),
                        decreases_to!(*self => *members),
                        forall|j: int|
                            0 <= j < i ==> (#[trigger] copies@[j]).key@ == members@[j].key@
                                && copies@[j].value.tree() == members@[j].value.tree(),
                    decreases members@.len() - i,
                {
                    let member = &members[i];
                    proof {
                        assert(decreases_to!(*self => *members));
                        assert(decreases_to!(*members => members@));
                        assert(decreases_to!(members@ => members@[i as int]));
                        assert(decreases_to!(members@[i as int] => members@[i as int].value));
                    }
                    let value = member.value.duplicate();
                    copies.push(Member { key: member.key.clone(), value });
                    i = i + 1;
                }
                let copy = Document::Object(copies);
                proof {
                    assert(copy.tree()->Object_0 =~= self.tree()->Object_0);
                }
                copy
            },
        }
    }

    /// What `key` is bound to: a copy of the value of the last member with
    /// that key, or null where this is no object or has no such member.
    pub fn field(&self, key: &String) -> (value: Document)
        ensures
            value.tree() == field_of(self.tree(), key@),
    {
        match self {
            Document::Object(members) => {
                let ghost all = self.tree()->Object_0;
                let mut i: usize = members.len();
                proof {
                    assert(all.take(i as int) =~= all);
                }
                while i > 0
                    invariant
                        i <= members@.len(),
                        self == Document::Object(*members),
                        all == self.tree()->Object_0,
                        all.len() == members@.len(),
                        member_of(all, key@) == member_of(all.take(i as int), key@),
                    decreases i,
                {
                    proof {
                        let prefix = all.take(i as int);
                        assert(prefix.drop_last() =~= all.take(i - 1));
                        assert(prefix.last() == all[i - 1]);
                    }
                    i = i - 1;
                    if members[i].key == *key {
                        return members[i].value.duplicate();
                    }
                }
                Document::Null
            },
            _ => Document::Null,
        }
    }

    /// The object that binds each of `keys`, in their order, to a copy of
    /// what it is bound to here.
    pub fn pick(&self, keys: &Vec<String>) -> (picked: Document)
        ensures
            picked.tree() == pick_of(self.tree(), views(keys@)),
    {
        let mut members: Vec<Member> = Vec::new();
        let mut i: usize = 0;
        while i < keys.len()
            invariant
                i <= keys@.len(),
                members@.len() == i,
                forall|j: int|
                    0 <= j < i ==> (#[trigger] members@[j]).key@ == keys@[j]@
                        && members@[j].value.tree() == field_of(self.tree(), keys@[j]@),
            decreases keys@.len() - i,
        {
            let value = self.field(&keys[i]);
            members.push(Member { key: keys[i].clone(), value });
            i = i + 1;
        }
        let picked = Document::Object(members);
        proof {
            assert(picked.tree()->Object_0 =~= pick_of(self.tree(), views(keys@))->Object_0);
        }
        picked
    }

    /// The array of the items of this array, each cut down to `keys`;
    /// nothing where this is no array.
    pub fn pick_each(&self, keys: &Vec<String>) -> (picked: Option<Document>)
        ensures
            match picked {
                Some(array) => pick_each_of(self.tree(), views(keys@)) == Some(array.tree()),
                None => pick_each_of(self.tree(), views(keys@)).is_none(),
            },
    {
        match self {
            Document::Array(items) => {
                let mut picked: Vec<Document> = Vec::new();
                let mut i: usize = 0;
                while i < items.len()
                    invariant
                        i <= items@.len(),
                        picked@.len() == i,
                        forall|j: int|
                            0 <= j < i ==> (#[trigger] picked@[j]).tree() == pick_of(
                                items@[j].tree(),
                                views(keys@),
                            ),
                    decreases items@.len() - i,
                {
                    let item = items[i].pick(keys);
                    picked.push(item);
                    i = i + 1;
                }
                let array = Document::Array(picked);
                proof {
                    assert(array.tree()->Array_0 =~= pick_each_of(
                        self.tree(),
                        views(keys@),
                    )->Some_0->Array_0);
                }
                Some(array)
            },
            _ => None,
        }
    }

    /// Cuts an evolved record down to what the base schema knows: the
    /// members name, id, email, phones, addresses and metadata, with each
    /// phone cut down to number and kind and each address to its five base
    /// texts. Fails where the phones or the addresses are no array.
    pub fn filter_to_base(&self) -> (outcome: Result<Document, FilterError>)
        ensures
            match outcome {
                Ok(document) => filtered(self.tree()) == Ok::<Tree, FilterError>(document.tree()),
                Err(error) => filtered(self.tree()) == Err::<Tree, FilterError>(error),
            },
    {
        let mut phone_keys: Vec<String> = Vec::new();
        phone_keys.push(String::from_str("number"));
        phone_keys.push(String::from_str("type_"));
        let mut address_keys: Vec<String> = Vec::new();
        address_keys.push(String::from_str("street"));
        address_keys.push(String::from_str("city"));
        address_keys.push(String::from_str("state"));
        address_keys.push(String::from_str("zip"));
        address_keys.push(String::from_str("country"));
        proof {
            assert(views(phone_keys@) =~= self::phone_keys());
            assert(views(address_keys@) =~= self::address_keys());
        }
        let name = self.field(&String::from_str("name"));
        let id = self.field(&String::from_str("id"));
        let email = self.field(&String::from_str("email"));
        let phones = match self.field(&String::from_str("phones")).pick_each(&phone_keys) {
            Some(phones) => phones,
            None => {
                return Err(FilterError::PhonesNotArray);
            },
        };
        let addresses = match self.field(&String::from_str("addresses")).pick_each(&address_keys) {
            Some(addresses) => addresses,
            None => {
                return Err(FilterError::AddressesNotArray);
            },
        };
        let metadata = self.field(&String::from_str("metadata"));
        let mut members: Vec<Member> = Vec::new();
        members.push(Member { key: String::from_str("name"), value: name });
        members.push(Member { key: String::from_str("id"), value: id });
        members.push(Member { key: String::from_str("email"), value: email });
        members.push(Member { key: String::from_str("phones"), value: phones });
        members.push(Member { key: String::from_str("addresses"), value: addresses });
        members.push(Member { key: String::from_str("metadata"), value: metadata });
        let document = Document::Object(members);
        proof {
            assert(document.tree()->Object_0 =~= filtered(self.tree())->Ok_0->Object_0);
        }
        Ok(document)
    }
}

} // verus!
