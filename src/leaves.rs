use vstd::prelude::*;

use crate::descriptor::{Descriptor, Kind, KindView};
use crate::metadata::MetadataKind;

verus! {

/// The JSON value type of serde_json, described as an open JSON leaf.
#[verifier::external_type_specification]
#[verifier::external_body]
pub struct ExJsonValue(serde_json::Value);

/// The JSON object type of serde_json, described as a mapping.
#[verifier::external_type_specification]
#[verifier::external_body]
#[verifier::reject_recursive_types(K)]
#[verifier::reject_recursive_types(V)]
pub struct ExJsonMap<K, V>(serde_json::Map<K, V>);

/// A self description of the type being targeted including doc-strings and
/// metadata annotations.
pub trait Described<M: MetadataKind = std::collections::HashMap<&'static str, &'static str>> {
    /// Get self description of this type
    fn metadata() -> Descriptor<M>;
}

/// A description with no documentation, freshly defaulted metadata and the
/// given kind.
pub open spec fn is_plain<M: MetadataKind>(d: Descriptor<M>, kind: KindView<M>) -> bool {
    &&& d.docs is None
    &&& call_ensures(M::default, (), d.metadata)
    &&& d@.kind == kind
}

/// `d` is a description that `T::metadata` may return.
pub open spec fn describes<M: MetadataKind, T: Described<M>>(d: Descriptor<M>) -> bool {
    call_ensures(T::metadata, (), d)
}

fn plain<M: MetadataKind>(kind: Kind<M>) -> (r: Descriptor<M>)
    ensures
        is_plain(r, kind@),
        r.kind == kind,
{
    Descriptor { docs: None, metadata: M::default(), kind }
}

impl<M: MetadataKind> Described<M> for String {
    fn metadata() -> (r: Descriptor<M>)
        ensures
            is_plain(r, Kind::<M>::String@),
    {
        plain(Kind::String)
    }
}

impl<M: MetadataKind> Described<M> for i128 {
    fn metadata() -> (r: Descriptor<M>)
        ensures
            is_plain(r, Kind::<M>::I128@),
    {
        plain(Kind::I128)
    }
}

impl<M: MetadataKind> Described<M> for u128 {
    fn metadata() -> (r: Descriptor<M>)
        ensures
            is_plain(r, Kind::<M>::U128@),
    {
        plain(Kind::U128)
    }
}

impl<M: MetadataKind> Described<M> for i64 {
    fn metadata() -> (r: Descriptor<M>)
        ensures
            is_plain(r, Kind::<M>::I64@),
    {
        plain(Kind::I64)
    }
}

impl<M: MetadataKind> Described<M> for u64 {
    fn metadata() -> (r: Descriptor<M>)
        ensures
            is_plain(r, Kind::<M>::U64@),
    {
        plain(Kind::U64)
    }
}

impl<M: MetadataKind> Described<M> for i32 {
    fn metadata() -> (r: Descriptor<M>)
        ensures
            is_plain(r, Kind::<M>::I32@),
    {
        plain(Kind::I32)
    }
}

impl<M: MetadataKind> Described<M> for u32 {
    fn metadata() -> (r: Descriptor<M>)
        ensures
            is_plain(r, Kind::<M>::U32@),
    {
        plain(Kind::U32)
    }
}

impl<M: MetadataKind> Described<M> for i16 {
    fn metadata() -> (r: Descriptor<M>)
        ensures
            is_plain(r, Kind::<M>::I16@),
    {
        plain(Kind::I16)
    }
}

impl<M: MetadataKind> Described<M> for u16 {
    fn metadata() -> (r: Descriptor<M>)
        ensures
            is_plain(r, Kind::<M>::U16@),
    {
        plain(Kind::U16)
    }
}

impl<M: MetadataKind> Described<M> for i8 {
    fn metadata() -> (r: Descriptor<M>)
        ensures
            is_plain(r, Kind::<M>::I8@),
    {
        plain(Kind::I8)
    }
}

impl<M: MetadataKind> Described<M> for u8 {
    fn metadata() -> (r: Descriptor<M>)
        ensures
            is_plain(r, Kind::<M>::U8@),
    {
        plain(Kind::U8)
    }
}

impl<M: MetadataKind> Described<M> for usize {
    fn metadata() -> (r: Descriptor<M>)
        ensures
            is_plain(r, Kind::<M>::USize@),
    {
        plain(Kind::USize)
    }
}

impl<M: MetadataKind> Described<M> for bool {
    fn metadata() -> (r: Descriptor<M>)
        ensures
            is_plain(r, Kind::<M>::Bool@),
    {
        plain(Kind::Bool)
    }
}

impl<M: MetadataKind> Described<M> for serde_json::Value {
    fn metadata() -> (r: Descriptor<M>)
        ensures
            is_plain(r, Kind::<M>::JSON@),
    {
        plain(Kind::JSON)
    }
}

impl<M: MetadataKind, T: Described<M>> Described<M> for Option<T> {
    fn metadata() -> (r: Descriptor<M>)
        ensures
            r.docs is None,
            call_ensures(M::default, (), r.metadata),
            match r.kind {
                Kind::Option(inner) => describes::<M, T>(*inner),
                _ => false,
            },
    {
        plain(Kind::Option(Box::new(T::metadata())))
    }
}

impl<M: MetadataKind, T: Described<M>> Described<M> for Box<T> {
    fn metadata() -> (r: Descriptor<M>)
        ensures
            describes::<M, T>(r),
    {
        T::metadata()
    }
}

impl<M: MetadataKind, T: Described<M>> Described<M> for Vec<T> {
    fn metadata() -> (r: Descriptor<M>)
        ensures
            r.docs is None,
            call_ensures(M::default, (), r.metadata),
            match r.kind {
                Kind::Sequence(inner) => describes::<M, T>(*inner),
                _ => false,
            },
    {
        plain(Kind::Sequence(Box::new(T::metadata())))
    }
}

impl<M: MetadataKind, T: Described<M>> Described<M> for std::collections::VecDeque<T> {
    fn metadata() -> (r: Descriptor<M>)
        ensures
            r.docs is None,
            call_ensures(M::default, (), r.metadata),
            match r.kind {
                Kind::Sequence(inner) => describes::<M, T>(*inner),
                _ => false,
            },
    {
        plain(Kind::Sequence(Box::new(T::metadata())))
    }
}

impl<M: MetadataKind, K: Described<M>, V: Described<M>> Described<M> for std::collections::HashMap<
    K,
    V,
> {
    fn metadata() -> (r: Descriptor<M>)
        ensures
            r.docs is None,
            call_ensures(M::default, (), r.metadata),
            match r.kind {
                Kind::Mapping(key, value) => describes::<M, K>(*key) && describes::<M, V>(*value),
                _ => false,
            },
    {
        let key = K::metadata();
        let value = V::metadata();
        plain(Kind::Mapping(Box::new(key), Box::new(value)))
    }
}

impl<M: MetadataKind, K: Described<M>, V: Described<M>> Described<M> for serde_json::Map<K, V> {
    fn metadata() -> (r: Descriptor<M>)
        ensures
            r.docs is None,
            call_ensures(M::default, (), r.metadata),
            match r.kind {
                Kind::Mapping(key, value) => describes::<M, K>(*key) && describes::<M, V>(*value),
                _ => false,
            },
    {
        let key = K::metadata();
        let value = V::metadata();
        plain(Kind::Mapping(Box::new(key), Box::new(value)))
    }
}

} // verus!
