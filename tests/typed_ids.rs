use api_client_utils::ids::{ExternalId, Id, IsExternalId, Issuer};
use std::collections::HashSet;

#[derive(Debug)]
struct MyType;

type MyTypeId = Id<MyType, String>;

fn fn_takes_id_as_param(id: &MyTypeId) {
    println!("{id:?}")
}

fn fn_takes_underlying_str_as_param(id: &str) {
    println!("{id}")
}

#[test]
fn test_deref_id() {
    let id = MyTypeId::new("some_string");
    fn_takes_id_as_param(&id);

    fn_takes_underlying_str_as_param(&id);
}

#[derive(Debug, Clone, PartialEq, Eq, Hash)]
struct Pet;

#[derive(Debug, Clone, Copy, PartialEq, Eq, Hash)]
struct PetStore;

impl Issuer for PetStore {
    fn issuer_id() -> &'static str {
        "petstore"
    }
}

#[test]
fn ids_compare_by_value() {
    let a = Id::<MyType, u64>::new(7u64);
    let b = Id::<MyType, u64>::from(7u64);
    let c = Id::<MyType, u64>::new(8u64);
    assert!(a == b);
    assert!(a != c);
    let copied = a;
    assert_eq!(copied.id, 7);
    assert_eq!(*a, 7);
    let s1 = MyTypeId::from("abc");
    let s2 = s1.clone();
    assert!(s1 == s2);
    assert_eq!(s2.id, "abc");
}

#[test]
fn external_id_knows_its_issuer() {
    let id = ExternalId::<Pet, String, PetStore>::new("p-1");
    assert_eq!(ExternalId::<Pet, String, PetStore>::issuer(), "petstore");
    assert_eq!(IsExternalId::issuer(&id), "petstore");
    assert_eq!(id.len(), 3);
    let same = ExternalId::<Pet, String, PetStore>::from("p-1");
    assert!(id == same);
    let other = ExternalId::<Pet, String, PetStore>::from(String::from("p-2"));
    assert!(id != other);
    assert_eq!(id.clone().id.id, "p-1");
}

#[test]
fn ids_hash_like_their_value() {
    let mut set = HashSet::new();
    set.insert(Id::<Pet, u32>::new(1u32));
    set.insert(Id::<Pet, u32>::new(1u32));
    set.insert(Id::<Pet, u32>::new(2u32));
    assert_eq!(set.len(), 2);
}
