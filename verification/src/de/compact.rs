//! The read side under `Compact`: the flag is `false` wherever it is asked for.
//!
//! Every operation makes one call of the same operation on what is wrapped, and its contract names
//! that call: `call_ensures(f, args, outcome)` says that `outcome` is what the call of `f` on
//! `args` gave. The arguments are those that were given, a visitor, a seed, a nested engine or an
//! accessor under `Compact`; the outcome is the wrapped object's own, an accessor or a decoded
//! value under `Compact`.

use crate::configure::Compact;
use crate::de::{
    Deserialize, DeserializeSeed, Deserializer, EnumAccess, MapAccess, SeqAccess,
    VariantAccess, Visitor,
};
use vstd::prelude::*;

verus! {

/// A tagged value is its payload decoded from the engine under the same tag.
impl<D, T: Deserialize<Compact<D>>> Deserialize<D> for Compact<T> {
    type Error = T::Error;

    fn deserialize(deserializer: D) -> (outcome: Result<Compact<T>, T::Error>)
        ensures
            call_ensures(T::deserialize, (Compact(deserializer),), Compact::untagged(outcome)),
    {
        Compact::tag_outcome(T::deserialize(Compact(deserializer)))
    }

    fn deserialize_in_place(
        deserializer: D,
        place: &mut Compact<T>,
    ) -> (outcome: Result<(), T::Error>)
        ensures
            exists|inner: &mut T|
                *inner == old(place).0 && *final(inner) == final(place).0
                    && call_ensures(
                        T::deserialize_in_place,
                        (Compact(deserializer), inner),
                        outcome,
                    ),
    {
        T::deserialize_in_place(Compact(deserializer), &mut place.0)
    }
}

/// A tagged seed decodes with its payload from the engine under the same tag.
impl<D, T: DeserializeSeed<Compact<D>>> DeserializeSeed<D> for Compact<T> {
    type Value = T::Value;

    type Error = T::Error;

    fn deserialize(self, deserializer: D) -> (outcome: Result<T::Value, T::Error>)
        ensures
            call_ensures(T::deserialize, (self.0, Compact(deserializer)), outcome),
    {
        self.0.deserialize(Compact(deserializer))
    }
}

/// A tagged engine reports the tag's flag, and forwards every request to the engine it wraps with
/// the visitor under the same tag.
impl<V, D: Deserializer<Compact<V>>> Deserializer<V> for Compact<D> {
    type Value = D::Value;

    type Error = D::Error;

    fn deserialize_any(self, visitor: V) -> (outcome: Result<D::Value, D::Error>)
        ensures
            call_ensures(D::deserialize_any, (self.0, Compact(visitor)), outcome),
    {
        self.0.deserialize_any(Compact(visitor))
    }

    fn deserialize_bool(self, visitor: V) -> (outcome: Result<D::Value, D::Error>)
        ensures
            call_ensures(D::deserialize_bool, (self.0, Compact(visitor)), outcome),
    {
        self.0.deserialize_bool(Compact(visitor))
    }

    fn deserialize_i8(self, visitor: V) -> (outcome: Result<D::Value, D::Error>)
        ensures
            call_ensures(D::deserialize_i8, (self.0, Compact(visitor)), outcome),
    {
        self.0.deserialize_i8(Compact(visitor))
    }

    fn deserialize_i16(self, visitor: V) -> (outcome: Result<D::Value, D::Error>)
        ensures
            call_ensures(D::deserialize_i16, (self.0, Compact(visitor)), outcome),
    {
        self.0.deserialize_i16(Compact(visitor))
    }

    fn deserialize_i32(self, visitor: V) -> (outcome: Result<D::Value, D::Error>)
        ensures
            call_ensures(D::deserialize_i32, (self.0, Compact(visitor)), outcome),
    {
        self.0.deserialize_i32(Compact(visitor))
    }

    fn deserialize_i64(self, visitor: V) -> (outcome: Result<D::Value, D::Error>)
        ensures
            call_ensures(D::deserialize_i64, (self.0, Compact(visitor)), outcome),
    {
        self.0.deserialize_i64(Compact(visitor))
    }

    fn deserialize_i128(self, visitor: V) -> (outcome: Result<D::Value, D::Error>)
        ensures
            call_ensures(D::deserialize_i128, (self.0, Compact(visitor)), outcome),
    {
        self.0.deserialize_i128(Compact(visitor))
    }

    fn deserialize_u8(self, visitor: V) -> (outcome: Result<D::Value, D::Error>)
        ensures
            call_ensures(D::deserialize_u8, (self.0, Compact(visitor)), outcome),
    {
        self.0.deserialize_u8(Compact(visitor))
    }

    fn deserialize_u16(self, visitor: V) -> (outcome: Result<D::Value, D::Error>)
        ensures
            call_ensures(D::deserialize_u16, (self.0, Compact(visitor)), outcome),
    {
        self.0.deserialize_u16(Compact(visitor))
    }

    fn deserialize_u32(self, visitor: V) -> (outcome: Result<D::Value, D::Error>)
        ensures
            call_ensures(D::deserialize_u32, (self.0, Compact(visitor)), outcome),
    {
        self.0.deserialize_u32(Compact(visitor))
    }

    fn deserialize_u64(self, visitor: V) -> (outcome: Result<D::Value, D::Error>)
        ensures
            call_ensures(D::deserialize_u64, (self.0, Compact(visitor)), outcome),
    {
        self.0.deserialize_u64(Compact(visitor))
    }

    fn deserialize_u128(self, visitor: V) -> (outcome: Result<D::Value, D::Error>)
        ensures
            call_ensures(D::deserialize_u128, (self.0, Compact(visitor)), outcome),
    {
        self.0.deserialize_u128(Compact(visitor))
    }

    fn deserialize_f32(self, visitor: V) -> (outcome: Result<D::Value, D::Error>)
        ensures
            call_ensures(D::deserialize_f32, (self.0, Compact(visitor)), outcome),
    {
        self.0.deserialize_f32(Compact(visitor))
    }

    fn deserialize_f64(self, visitor: V) -> (outcome: Result<D::Value, D::Error>)
        ensures
            call_ensures(D::deserialize_f64, (self.0, Compact(visitor)), outcome),
    {
        self.0.deserialize_f64(Compact(visitor))
    }

    fn deserialize_char(self, visitor: V) -> (outcome: Result<D::Value, D::Error>)
        ensures
            call_ensures(D::deserialize_char, (self.0, Compact(visitor)), outcome),
    {
        self.0.deserialize_char(Compact(visitor))
    }

    fn deserialize_str(self, visitor: V) -> (outcome: Result<D::Value, D::Error>)
        ensures
            call_ensures(D::deserialize_str, (self.0, Compact(visitor)), outcome),
    {
        self.0.deserialize_str(Compact(visitor))
    }

    fn deserialize_string(self, visitor: V) -> (outcome: Result<D::Value, D::Error>)
        ensures
            call_ensures(D::deserialize_string, (self.0, Compact(visitor)), outcome),
    {
        self.0.deserialize_string(Compact(visitor))
    }

    fn deserialize_bytes(self, visitor: V) -> (outcome: Result<D::Value, D::Error>)
        ensures
            call_ensures(D::deserialize_bytes, (self.0, Compact(visitor)), outcome),
    {
        self.0.deserialize_bytes(Compact(visitor))
    }

    fn deserialize_byte_buf(self, visitor: V) -> (outcome: Result<D::Value, D::Error>)
        ensures
            call_ensures(D::deserialize_byte_buf, (self.0, Compact(visitor)), outcome),
    {
        self.0.deserialize_byte_buf(Compact(visitor))
    }

    fn deserialize_option(self, visitor: V) -> (outcome: Result<D::Value, D::Error>)
        ensures
            call_ensures(D::deserialize_option, (self.0, Compact(visitor)), outcome),
    {
        self.0.deserialize_option(Compact(visitor))
    }

    fn deserialize_unit(self, visitor: V) -> (outcome: Result<D::Value, D::Error>)
        ensures
            call_ensures(D::deserialize_unit, (self.0, Compact(visitor)), outcome),
    {
        self.0.deserialize_unit(Compact(visitor))
    }

    fn deserialize_unit_struct(
        self,
        name: &'static str,
        visitor: V,
    ) -> (outcome: Result<D::Value, D::Error>)
        ensures
            call_ensures(D::deserialize_unit_struct, (self.0, name, Compact(visitor)), outcome),
    {
        self.0.deserialize_unit_struct(name, Compact(visitor))
    }

    fn deserialize_newtype_struct(
        self,
        name: &'static str,
        visitor: V,
    ) -> (outcome: Result<D::Value, D::Error>)
        ensures
            call_ensures(D::deserialize_newtype_struct, (self.0, name, Compact(visitor)), outcome),
    {
        self.0.deserialize_newtype_struct(name, Compact(visitor))
    }

    fn deserialize_seq(self, visitor: V) -> (outcome: Result<D::Value, D::Error>)
        ensures
            call_ensures(D::deserialize_seq, (self.0, Compact(visitor)), outcome),
    {
        self.0.deserialize_seq(Compact(visitor))
    }

    fn deserialize_tuple(self, len: usize, visitor: V) -> (outcome: Result<D::Value, D::Error>)
        ensures
            call_ensures(D::deserialize_tuple, (self.0, len, Compact(visitor)), outcome),
    {
        self.0.deserialize_tuple(len, Compact(visitor))
    }

    fn deserialize_tuple_struct(
        self,
        name: &'static str,
        len: usize,
        visitor: V,
    ) -> (outcome: Result<D::Value, D::Error>)
        ensures
            call_ensures(
                D::deserialize_tuple_struct,
                (self.0, name, len, Compact(visitor)),
                outcome,
            ),
    {
        self.0.deserialize_tuple_struct(name, len, Compact(visitor))
    }

    fn deserialize_map(self, visitor: V) -> (outcome: Result<D::Value, D::Error>)
        ensures
            call_ensures(D::deserialize_map, (self.0, Compact(visitor)), outcome),
    {
        self.0.deserialize_map(Compact(visitor))
    }

    fn deserialize_struct(
        self,
        name: &'static str,
        fields: &'static [&'static str],
        visitor: V,
    ) -> (outcome: Result<D::Value, D::Error>)
        ensures
            call_ensures(D::deserialize_struct, (self.0, name, fields, Compact(visitor)), outcome),
    {
        self.0.deserialize_struct(name, fields, Compact(visitor))
    }

    fn deserialize_enum(
        self,
        name: &'static str,
        variants: &'static [&'static str],
        visitor: V,
    ) -> (outcome: Result<D::Value, D::Error>)
        ensures
            call_ensures(D::deserialize_enum, (self.0, name, variants, Compact(visitor)), outcome),
    {
        self.0.deserialize_enum(name, variants, Compact(visitor))
    }

    fn deserialize_identifier(self, visitor: V) -> (outcome: Result<D::Value, D::Error>)
        ensures
            call_ensures(D::deserialize_identifier, (self.0, Compact(visitor)), outcome),
    {
        self.0.deserialize_identifier(Compact(visitor))
    }

    fn deserialize_ignored_any(self, visitor: V) -> (outcome: Result<D::Value, D::Error>)
        ensures
            call_ensures(D::deserialize_ignored_any, (self.0, Compact(visitor)), outcome),
    {
        self.0.deserialize_ignored_any(Compact(visitor))
    }

    fn is_human_readable(&self) -> (answer: bool)
        ensures
            answer == false,
    {
        false
    }
}

/// A tagged visitor forwards what it is given to the visitor it wraps, and tags every nested engine
/// and accessor.
impl<
    'de,
    D,
    A,
    M,
    E,
    V: Visitor<'de, Compact<D>, Compact<A>, Compact<M>, Compact<E>>,
> Visitor<'de, D, A, M, E> for Compact<V> {
    type Value = V::Value;

    type Error = V::Error;

    fn expecting(&self) -> (outcome: String)
        ensures
            call_ensures(V::expecting, (&self.0,), outcome),
    {
        self.0.expecting()
    }

    fn visit_bool(self, v: bool) -> (outcome: Result<V::Value, V::Error>)
        ensures
            call_ensures(V::visit_bool, (self.0, v), outcome),
    {
        self.0.visit_bool(v)
    }

    fn visit_i8(self, v: i8) -> (outcome: Result<V::Value, V::Error>)
        ensures
            call_ensures(V::visit_i8, (self.0, v), outcome),
    {
        self.0.visit_i8(v)
    }

    fn visit_i16(self, v: i16) -> (outcome: Result<V::Value, V::Error>)
        ensures
            call_ensures(V::visit_i16, (self.0, v), outcome),
    {
        self.0.visit_i16(v)
    }

    fn visit_i32(self, v: i32) -> (outcome: Result<V::Value, V::Error>)
        ensures
            call_ensures(V::visit_i32, (self.0, v), outcome),
    {
        self.0.visit_i32(v)
    }

    fn visit_i64(self, v: i64) -> (outcome: Result<V::Value, V::Error>)
        ensures
            call_ensures(V::visit_i64, (self.0, v), outcome),
    {
        self.0.visit_i64(v)
    }

    fn visit_i128(self, v: i128) -> (outcome: Result<V::Value, V::Error>)
        ensures
            call_ensures(V::visit_i128, (self.0, v), outcome),
    {
        self.0.visit_i128(v)
    }

    fn visit_u8(self, v: u8) -> (outcome: Result<V::Value, V::Error>)
        ensures
            call_ensures(V::visit_u8, (self.0, v), outcome),
    {
        self.0.visit_u8(v)
    }

    fn visit_u16(self, v: u16) -> (outcome: Result<V::Value, V::Error>)
        ensures
            call_ensures(V::visit_u16, (self.0, v), outcome),
    {
        self.0.visit_u16(v)
    }

    fn visit_u32(self, v: u32) -> (outcome: Result<V::Value, V::Error>)
        ensures
            call_ensures(V::visit_u32, (self.0, v), outcome),
    {
        self.0.visit_u32(v)
    }

    fn visit_u64(self, v: u64) -> (outcome: Result<V::Value, V::Error>)
        ensures
            call_ensures(V::visit_u64, (self.0, v), outcome),
    {
        self.0.visit_u64(v)
    }

    fn visit_u128(self, v: u128) -> (outcome: Result<V::Value, V::Error>)
        ensures
            call_ensures(V::visit_u128, (self.0, v), outcome),
    {
        self.0.visit_u128(v)
    }

    fn visit_f32(self, bits: u32) -> (outcome: Result<V::Value, V::Error>)
        ensures
            call_ensures(V::visit_f32, (self.0, bits), outcome),
    {
        self.0.visit_f32(bits)
    }

    fn visit_f64(self, bits: u64) -> (outcome: Result<V::Value, V::Error>)
        ensures
            call_ensures(V::visit_f64, (self.0, bits), outcome),
    {
        self.0.visit_f64(bits)
    }

    fn visit_char(self, v: char) -> (outcome: Result<V::Value, V::Error>)
        ensures
            call_ensures(V::visit_char, (self.0, v), outcome),
    {
        self.0.visit_char(v)
    }

    fn visit_str(self, v: &str) -> (outcome: Result<V::Value, V::Error>)
        ensures
            call_ensures(V::visit_str, (self.0, v), outcome),
    {
        self.0.visit_str(v)
    }

    fn visit_borrowed_str(self, v: &'de str) -> (outcome: Result<V::Value, V::Error>)
        ensures
            call_ensures(V::visit_borrowed_str, (self.0, v), outcome),
    {
        self.0.visit_borrowed_str(v)
    }

    fn visit_string(self, v: String) -> (outcome: Result<V::Value, V::Error>)
        ensures
            call_ensures(V::visit_string, (self.0, v), outcome),
    {
        self.0.visit_string(v)
    }

    fn visit_bytes(self, v: &[u8]) -> (outcome: Result<V::Value, V::Error>)
        ensures
            call_ensures(V::visit_bytes, (self.0, v), outcome),
    {
        self.0.visit_bytes(v)
    }

    fn visit_borrowed_bytes(self, v: &'de [u8]) -> (outcome: Result<V::Value, V::Error>)
        ensures
            call_ensures(V::visit_borrowed_bytes, (self.0, v), outcome),
    {
        self.0.visit_borrowed_bytes(v)
    }

    fn visit_byte_buf(self, v: Vec<u8>) -> (outcome: Result<V::Value, V::Error>)
        ensures
            call_ensures(V::visit_byte_buf, (self.0, v), outcome),
    {
        self.0.visit_byte_buf(v)
    }

    fn visit_none(self) -> (outcome: Result<V::Value, V::Error>)
        ensures
            call_ensures(V::visit_none, (self.0,), outcome),
    {
        self.0.visit_none()
    }

    fn visit_some(self, deserializer: D) -> (outcome: Result<V::Value, V::Error>)
        ensures
            call_ensures(V::visit_some, (self.0, Compact(deserializer)), outcome),
    {
        self.0.visit_some(Compact(deserializer))
    }

    fn visit_unit(self) -> (outcome: Result<V::Value, V::Error>)
        ensures
            call_ensures(V::visit_unit, (self.0,), outcome),
    {
        self.0.visit_unit()
    }

    fn visit_newtype_struct(self, deserializer: D) -> (outcome: Result<V::Value, V::Error>)
        ensures
            call_ensures(V::visit_newtype_struct, (self.0, Compact(deserializer)), outcome),
    {
        self.0.visit_newtype_struct(Compact(deserializer))
    }

    fn visit_seq(self, seq: A) -> (outcome: Result<V::Value, V::Error>)
        ensures
            call_ensures(V::visit_seq, (self.0, Compact(seq)), outcome),
    {
        self.0.visit_seq(Compact(seq))
    }

    fn visit_map(self, map: M) -> (outcome: Result<V::Value, V::Error>)
        ensures
            call_ensures(V::visit_map, (self.0, Compact(map)), outcome),
    {
        self.0.visit_map(Compact(map))
    }

    fn visit_enum(self, data: E) -> (outcome: Result<V::Value, V::Error>)
        ensures
            call_ensures(V::visit_enum, (self.0, Compact(data)), outcome),
    {
        self.0.visit_enum(Compact(data))
    }
}

/// A tagged accessor tags every seed.
impl<T, A: SeqAccess<Compact<T>>> SeqAccess<T> for Compact<A> {
    type Value = A::Value;

    type Error = A::Error;

    fn next_element_seed(&mut self, seed: T) -> (outcome: Result<Option<A::Value>, A::Error>)
        ensures
            exists|inner: &mut A|
                *inner == old(self).0 && *final(inner) == final(self).0
                    && call_ensures(A::next_element_seed, (inner, Compact(seed)), outcome),
    {
        self.0.next_element_seed(Compact(seed))
    }

    fn size_hint(&self) -> (outcome: Option<usize>)
        ensures
            call_ensures(A::size_hint, (&self.0,), outcome),
    {
        self.0.size_hint()
    }
}

/// A tagged accessor tags every seed.
impl<K, V, A: MapAccess<Compact<K>, Compact<V>>> MapAccess<K, V> for Compact<A> {
    type Key = A::Key;

    type Value = A::Value;

    type Error = A::Error;

    fn next_key_seed(&mut self, seed: K) -> (outcome: Result<Option<A::Key>, A::Error>)
        ensures
            exists|inner: &mut A|
                *inner == old(self).0 && *final(inner) == final(self).0
                    && call_ensures(A::next_key_seed, (inner, Compact(seed)), outcome),
    {
        self.0.next_key_seed(Compact(seed))
    }

    fn next_value_seed(&mut self, seed: V) -> (outcome: Result<A::Value, A::Error>)
        ensures
            exists|inner: &mut A|
                *inner == old(self).0 && *final(inner) == final(self).0
                    && call_ensures(A::next_value_seed, (inner, Compact(seed)), outcome),
    {
        self.0.next_value_seed(Compact(seed))
    }

    fn next_entry_seed(
        &mut self,
        kseed: K,
        vseed: V,
    ) -> (outcome: Result<Option<(A::Key, A::Value)>, A::Error>)
        ensures
            exists|inner: &mut A|
                *inner == old(self).0 && *final(inner) == final(self).0
                    && call_ensures(
                        A::next_entry_seed,
                        (inner, Compact(kseed), Compact(vseed)),
                        outcome,
                    ),
    {
        self.0.next_entry_seed(Compact(kseed), Compact(vseed))
    }

    fn size_hint(&self) -> (outcome: Option<usize>)
        ensures
            call_ensures(A::size_hint, (&self.0,), outcome),
    {
        self.0.size_hint()
    }
}

/// A tagged accessor tags the seed and the accessor of the variant's payload.
impl<T, A: EnumAccess<Compact<T>>> EnumAccess<T> for Compact<A> {
    type Value = A::Value;

    type Error = A::Error;

    type Variant = Compact<A::Variant>;

    fn variant_seed(self, seed: T) -> (outcome: Result<(A::Value, Compact<A::Variant>), A::Error>)
        ensures
            call_ensures(
                A::variant_seed,
                (self.0, Compact(seed)),
                Compact::untagged_variant(outcome),
            ),
    {
        Compact::tag_variant(self.0.variant_seed(Compact(seed)))
    }
}

/// A tagged accessor tags every seed and every visitor.
impl<T, V, A: VariantAccess<Compact<T>, Compact<V>>> VariantAccess<T, V> for Compact<A> {
    type Value = A::Value;

    type Output = A::Output;

    type Error = A::Error;

    fn unit_variant(self) -> (outcome: Result<(), A::Error>)
        ensures
            call_ensures(A::unit_variant, (self.0,), outcome),
    {
        self.0.unit_variant()
    }

    fn newtype_variant_seed(self, seed: T) -> (outcome: Result<A::Value, A::Error>)
        ensures
            call_ensures(A::newtype_variant_seed, (self.0, Compact(seed)), outcome),
    {
        self.0.newtype_variant_seed(Compact(seed))
    }

    fn tuple_variant(self, len: usize, visitor: V) -> (outcome: Result<A::Output, A::Error>)
        ensures
            call_ensures(A::tuple_variant, (self.0, len, Compact(visitor)), outcome),
    {
        self.0.tuple_variant(len, Compact(visitor))
    }

    fn struct_variant(
        self,
        fields: &'static [&'static str],
        visitor: V,
    ) -> (outcome: Result<A::Output, A::Error>)
        ensures
            call_ensures(A::struct_variant, (self.0, fields, Compact(visitor)), outcome),
    {
        self.0.struct_variant(fields, Compact(visitor))
    }
}

} // verus!
