//! Typed identifiers: an identifier carries the type of the item it names,
//! so that identifiers of different kinds of items cannot be mixed up.

use vstd::prelude::*;

use core::marker::PhantomData;
use core::ops::Deref;
use vstd::std_specs::cmp::{PartialEqSpec, PartialEqSpecImpl};
use vstd::std_specs::convert::FromSpecImpl;

verus! {

/// An identifier, of type `IdT`, of an item of type `ItemT`.
#[derive(Debug, Hash)]
pub struct Id<ItemT, IdT> {
    pub id: IdT,
    pub _type: PhantomData<ItemT>,
}

impl<ItemT, IdT> Id<ItemT, IdT> {
    /// The identifier with the given raw value.
    pub fn new<R: Into<IdT>>(raw: R) -> (r: Self)
        ensures
            call_ensures(R::into, (raw,), r.id),
    {
        Id { id: raw.into(), _type: PhantomData }
    }
}

impl<ItemT, IdT> Deref for Id<ItemT, IdT> {
    type Target = IdT;

    fn deref(&self) -> (r: &IdT)
        ensures
            *r == self.id,
    {
        &self.id
    }
}

impl<ItemT, IdT: Clone> Clone for Id<ItemT, IdT> {
    fn clone(&self) -> (r: Self)
        ensures
            cloned(self.id, r.id),
    {
        Id { id: self.id.clone(), _type: PhantomData }
    }
}

impl<ItemT, IdT: Copy> Copy for Id<ItemT, IdT> {

}

impl<ItemT, IdT: PartialEq> PartialEq for Id<ItemT, IdT> {
    fn eq(&self, other: &Self) -> (r: bool) {
        self.id.eq(&other.id)
    }
}

impl<ItemT, IdT: PartialEq> PartialEqSpecImpl for Id<ItemT, IdT> {
    open spec fn obeys_eq_spec() -> bool {
        <IdT as PartialEqSpec>::obeys_eq_spec()
    }

    open spec fn eq_spec(&self, other: &Id<ItemT, IdT>) -> bool {
        self.id.eq_spec(&other.id)
    }
}

impl<ItemT, IdT: Eq> Eq for Id<ItemT, IdT> {

}

impl<ItemT, IdT> From<IdT> for Id<ItemT, IdT> {
    fn from(value: IdT) -> (r: Self)
        ensures
            r.id == value,
    {
        Id { id: value, _type: PhantomData }
    }
}

impl<ItemT, IdT> FromSpecImpl<IdT> for Id<ItemT, IdT> {
    open spec fn obeys_from_spec() -> bool {
        true
    }

    open spec fn from_spec(v: IdT) -> Self {
        Id { id: v, _type: PhantomData }
    }
}

impl<ItemT> From<&str> for Id<ItemT, String> {
    fn from(id: &str) -> (r: Self)
        ensures
            r.id@ == id@,
    {
        Id { id: String::from_str(id), _type: PhantomData }
    }
}

impl<ItemT> FromSpecImpl<&str> for Id<ItemT, String> {
    open spec fn obeys_from_spec() -> bool {
        false
    }

    open spec fn from_spec(v: &str) -> Self {
        arbitrary()
    }
}

/// Where an external identifier comes from: the service that issued it.
pub trait Issuer {
    /// The name of the issuing service: one fixed text for each issuer.
    closed spec fn issuer_name() -> Seq<char> {
        arbitrary()
    }

    /// The name of the issuing service.
    fn issuer_id() -> (r: &'static str)
        ensures
            r@ == Self::issuer_name(),
    ;
}

/// An identifier of an item of type `ItemT` that the service `IdIss` issued.
#[derive(Debug, PartialEq, Eq, Hash)]
pub struct ExternalId<ItemT, IdT, IdIss: Issuer> {
    pub issuer: PhantomData<IdIss>,
    pub id: Id<ItemT, IdT>,
}

impl<ItemT, IdT, IdIss: Issuer> ExternalId<ItemT, IdT, IdIss> {
    /// The identifier with the given raw value.
    pub fn new<R: Into<IdT>>(id: R) -> (r: Self)
        ensures
            call_ensures(R::into, (id,), r.id.id),
    {
        ExternalId { issuer: PhantomData, id: Id::new(id) }
    }

    /// The name of the service that issued identifiers of this type.
    pub fn issuer() -> (r: &'static str)
        ensures
            r@ == IdIss::issuer_name(),
    {
        IdIss::issuer_id()
    }
}

impl<ItemT, IdT, Iss: Issuer> Deref for ExternalId<ItemT, IdT, Iss> {
    type Target = IdT;

    fn deref(&self) -> (r: &IdT)
        ensures
            *r == self.id.id,
    {
        &self.id.id
    }
}

impl<ItemT, IdT: Clone, Iss: Issuer> Clone for ExternalId<ItemT, IdT, Iss> {
    fn clone(&self) -> (r: Self)
        ensures
            cloned(self.id.id, r.id.id),
    {
        ExternalId { issuer: PhantomData, id: self.id.clone() }
    }
}

impl<ItemT, IdT: Copy, Iss: Issuer> Copy for ExternalId<ItemT, IdT, Iss> {

}

impl<ItemT, IdT, Iss: Issuer> From<IdT> for ExternalId<ItemT, IdT, Iss> {
    fn from(id: IdT) -> (r: Self)
        ensures
            r.id.id == id,
    {
        ExternalId { issuer: PhantomData, id: Id::from(id) }
    }
}

impl<ItemT, IdT, Iss: Issuer> FromSpecImpl<IdT> for ExternalId<ItemT, IdT, Iss> {
    open spec fn obeys_from_spec() -> bool {
        true
    }

    open spec fn from_spec(v: IdT) -> Self {
        ExternalId { issuer: PhantomData, id: Id { id: v, _type: PhantomData } }
    }
}

impl<ItemT, Iss: Issuer> From<&str> for ExternalId<ItemT, String, Iss> {
    fn from(id: &str) -> (r: Self)
        ensures
            r.id.id@ == id@,
    {
        ExternalId { issuer: PhantomData, id: Id::from(id) }
    }
}

impl<ItemT, Iss: Issuer> FromSpecImpl<&str> for ExternalId<ItemT, String, Iss> {
    open spec fn obeys_from_spec() -> bool {
        false
    }

    open spec fn from_spec(v: &str) -> Self {
        arbitrary()
    }
}

/// An identifier issued by an outside service, whatever its item and value types.
pub trait IsExternalId: core::fmt::Debug + Clone {
    /// The name of the issuing service.
    fn issuer(&self) -> &str;
}

impl<ItemT: Clone + core::fmt::Debug, IdT: core::fmt::Debug + Clone, Iss: Issuer + core::fmt::Debug> IsExternalId for ExternalId<
    ItemT,
    IdT,
    Iss,
> {
    fn issuer(&self) -> (r: &str)
        ensures
            r@ == Iss::issuer_name(),
    {
        Iss::issuer_id()
    }
}

} // verus!
