//! The write side under `Compact`: the flag is `false` wherever it is asked for.
//!
//! Every operation makes one call of the same operation on what is wrapped, and its contract names
//! that call: `call_ensures(f, args, outcome)` says that `outcome` is what the call of `f` on
//! `args` gave. The arguments are those that were given, a nested value or a source under
//! `Compact`; the outcome is the wrapped object's own, a builder under `Compact`.

use crate::configure::Compact;
use crate::ser::{
    CollectMap, CollectSeq, EntrySource, Serialize, SerializeMap, SerializeSeq,
    SerializeStruct, SerializeStructVariant, SerializeTuple, SerializeTupleStruct,
    SerializeTupleVariant, Serializer, Source,
};
use vstd::prelude::*;

verus! {

/// A tagged value encodes its payload into the engine under the same tag.
impl<S, T: Serialize<Compact<S>>> Serialize<S> for Compact<T> {
    type Ok = T::Ok;

    type Error = T::Error;

    fn serialize(&self, serializer: S) -> (outcome: Result<T::Ok, T::Error>)
        ensures
            call_ensures(T::serialize, (&self.0, Compact(serializer)), outcome),
    {
        self.0.serialize(Compact(serializer))
    }
}

/// A tagged engine reports the tag's flag, forwards every operation to the engine it wraps, and
/// tags every nested value and every builder it yields.
impl<V, S: Serializer<Compact<V>>> Serializer<V> for Compact<S> {
    type Ok = S::Ok;

    type Error = S::Error;

    type SerializeSeq = Compact<S::SerializeSeq>;

    type SerializeTuple = Compact<S::SerializeTuple>;

    type SerializeTupleStruct = Compact<S::SerializeTupleStruct>;

    type SerializeTupleVariant = Compact<S::SerializeTupleVariant>;

    type SerializeMap = Compact<S::SerializeMap>;

    type SerializeStruct = Compact<S::SerializeStruct>;

    type SerializeStructVariant = Compact<S::SerializeStructVariant>;

    fn serialize_bool(self, v: bool) -> (outcome: Result<S::Ok, S::Error>)
        ensures
            call_ensures(S::serialize_bool, (self.0, v), outcome),
    {
        self.0.serialize_bool(v)
    }

    fn serialize_i8(self, v: i8) -> (outcome: Result<S::Ok, S::Error>)
        ensures
            call_ensures(S::serialize_i8, (self.0, v), outcome),
    {
        self.0.serialize_i8(v)
    }

    fn serialize_i16(self, v: i16) -> (outcome: Result<S::Ok, S::Error>)
        ensures
            call_ensures(S::serialize_i16, (self.0, v), outcome),
    {
        self.0.serialize_i16(v)
    }

    fn serialize_i32(self, v: i32) -> (outcome: Result<S::Ok, S::Error>)
        ensures
            call_ensures(S::serialize_i32, (self.0, v), outcome),
    {
        self.0.serialize_i32(v)
    }

    fn serialize_i64(self, v: i64) -> (outcome: Result<S::Ok, S::Error>)
        ensures
            call_ensures(S::serialize_i64, (self.0, v), outcome),
    {
        self.0.serialize_i64(v)
    }

    fn serialize_i128(self, v: i128) -> (outcome: Result<S::Ok, S::Error>)
        ensures
            call_ensures(S::serialize_i128, (self.0, v), outcome),
    {
        self.0.serialize_i128(v)
    }

    fn serialize_u8(self, v: u8) -> (outcome: Result<S::Ok, S::Error>)
        ensures
            call_ensures(S::serialize_u8, (self.0, v), outcome),
    {
        self.0.serialize_u8(v)
    }

    fn serialize_u16(self, v: u16) -> (outcome: Result<S::Ok, S::Error>)
        ensures
            call_ensures(S::serialize_u16, (self.0, v), outcome),
    {
        self.0.serialize_u16(v)
    }

    fn serialize_u32(self, v: u32) -> (outcome: Result<S::Ok, S::Error>)
        ensures
            call_ensures(S::serialize_u32, (self.0, v), outcome),
    {
        self.0.serialize_u32(v)
    }

    fn serialize_u64(self, v: u64) -> (outcome: Result<S::Ok, S::Error>)
        ensures
            call_ensures(S::serialize_u64, (self.0, v), outcome),
    {
        self.0.serialize_u64(v)
    }

    fn serialize_u128(self, v: u128) -> (outcome: Result<S::Ok, S::Error>)
        ensures
            call_ensures(S::serialize_u128, (self.0, v), outcome),
    {
        self.0.serialize_u128(v)
    }

    fn serialize_f32(self, bits: u32) -> (outcome: Result<S::Ok, S::Error>)
        ensures
            call_ensures(S::serialize_f32, (self.0, bits), outcome),
    {
        self.0.serialize_f32(bits)
    }

    fn serialize_f64(self, bits: u64) -> (outcome: Result<S::Ok, S::Error>)
        ensures
            call_ensures(S::serialize_f64, (self.0, bits), outcome),
    {
        self.0.serialize_f64(bits)
    }

    fn serialize_char(self, v: char) -> (outcome: Result<S::Ok, S::Error>)
        ensures
            call_ensures(S::serialize_char, (self.0, v), outcome),
    {
        self.0.serialize_char(v)
    }

    fn serialize_str(self, v: &str) -> (outcome: Result<S::Ok, S::Error>)
        ensures
            call_ensures(S::serialize_str, (self.0, v), outcome),
    {
        self.0.serialize_str(v)
    }

    fn serialize_bytes(self, v: &[u8]) -> (outcome: Result<S::Ok, S::Error>)
        ensures
            call_ensures(S::serialize_bytes, (self.0, v), outcome),
    {
        self.0.serialize_bytes(v)
    }

    fn serialize_none(self) -> (outcome: Result<S::Ok, S::Error>)
        ensures
            call_ensures(S::serialize_none, (self.0,), outcome),
    {
        self.0.serialize_none()
    }

    fn serialize_some(self, value: V) -> (outcome: Result<S::Ok, S::Error>)
        ensures
            call_ensures(S::serialize_some, (self.0, Compact(value)), outcome),
    {
        self.0.serialize_some(Compact(value))
    }

    fn serialize_unit(self) -> (outcome: Result<S::Ok, S::Error>)
        ensures
            call_ensures(S::serialize_unit, (self.0,), outcome),
    {
        self.0.serialize_unit()
    }

    fn serialize_unit_struct(self, name: &'static str) -> (outcome: Result<S::Ok, S::Error>)
        ensures
            call_ensures(S::serialize_unit_struct, (self.0, name), outcome),
    {
        self.0.serialize_unit_struct(name)
    }

    fn serialize_unit_variant(
        self,
        name: &'static str,
        variant_index: u32,
        variant: &'static str,
    ) -> (outcome: Result<S::Ok, S::Error>)
        ensures
            call_ensures(
                S::serialize_unit_variant,
                (self.0, name, variant_index, variant),
                outcome,
            ),
    {
        self.0.serialize_unit_variant(name, variant_index, variant)
    }

    fn serialize_newtype_struct(
        self,
        name: &'static str,
        value: V,
    ) -> (outcome: Result<S::Ok, S::Error>)
        ensures
            call_ensures(S::serialize_newtype_struct, (self.0, name, Compact(value)), outcome),
    {
        self.0.serialize_newtype_struct(name, Compact(value))
    }

    fn serialize_newtype_variant(
        self,
        name: &'static str,
        variant_index: u32,
        variant: &'static str,
        value: V,
    ) -> (outcome: Result<S::Ok, S::Error>)
        ensures
            call_ensures(
                S::serialize_newtype_variant,
                (self.0, name, variant_index, variant, Compact(value)),
                outcome,
            ),
    {
        self.0.serialize_newtype_variant(name, variant_index, variant, Compact(value))
    }

    fn serialize_seq(
        self,
        len: Option<usize>,
    ) -> (outcome: Result<Compact<S::SerializeSeq>, S::Error>)
        ensures
            call_ensures(S::serialize_seq, (self.0, len), Compact::untagged(outcome)),
    {
        Compact::tag_outcome(self.0.serialize_seq(len))
    }

    fn serialize_tuple(self, len: usize) -> (outcome: Result<Compact<S::SerializeTuple>, S::Error>)
        ensures
            call_ensures(S::serialize_tuple, (self.0, len), Compact::untagged(outcome)),
    {
        Compact::tag_outcome(self.0.serialize_tuple(len))
    }

    fn serialize_tuple_struct(
        self,
        name: &'static str,
        len: usize,
    ) -> (outcome: Result<Compact<S::SerializeTupleStruct>, S::Error>)
        ensures
            call_ensures(
                S::serialize_tuple_struct,
                (self.0, name, len),
                Compact::untagged(outcome),
            ),
    {
        Compact::tag_outcome(self.0.serialize_tuple_struct(name, len))
    }

    fn serialize_tuple_variant(
        self,
        name: &'static str,
        variant_index: u32,
        variant: &'static str,
        len: usize,
    ) -> (outcome: Result<Compact<S::SerializeTupleVariant>, S::Error>)
        ensures
            call_ensures(
                S::serialize_tuple_variant,
                (self.0, name, variant_index, variant, len),
                Compact::untagged(outcome),
            ),
    {
        Compact::tag_outcome(self.0.serialize_tuple_variant(name, variant_index, variant, len))
    }

    fn serialize_map(
        self,
        len: Option<usize>,
    ) -> (outcome: Result<Compact<S::SerializeMap>, S::Error>)
        ensures
            call_ensures(S::serialize_map, (self.0, len), Compact::untagged(outcome)),
    {
        Compact::tag_outcome(self.0.serialize_map(len))
    }

    fn serialize_struct(
        self,
        name: &'static str,
        len: usize,
    ) -> (outcome: Result<Compact<S::SerializeStruct>, S::Error>)
        ensures
            call_ensures(S::serialize_struct, (self.0, name, len), Compact::untagged(outcome)),
    {
        Compact::tag_outcome(self.0.serialize_struct(name, len))
    }

    fn serialize_struct_variant(
        self,
        name: &'static str,
        variant_index: u32,
        variant: &'static str,
        len: usize,
    ) -> (outcome: Result<Compact<S::SerializeStructVariant>, S::Error>)
        ensures
            call_ensures(
                S::serialize_struct_variant,
                (self.0, name, variant_index, variant, len),
                Compact::untagged(outcome),
            ),
    {
        Compact::tag_outcome(self.0.serialize_struct_variant(name, variant_index, variant, len))
    }

    fn collect_str(self, value: &str) -> (outcome: Result<S::Ok, S::Error>)
        ensures
            call_ensures(S::collect_str, (self.0, value), outcome),
    {
        self.0.collect_str(value)
    }

    fn is_human_readable(&self) -> (answer: bool)
        ensures
            answer == false,
    {
        false
    }
}

/// A tagged builder tags every value added to it.
impl<V, B: SerializeSeq<Compact<V>>> SerializeSeq<V> for Compact<B> {
    type Ok = B::Ok;

    type Error = B::Error;

    fn serialize_element(&mut self, value: V) -> (outcome: Result<(), B::Error>)
        ensures
            exists|inner: &mut B|
                *inner == old(self).0 && *final(inner) == final(self).0
                    && call_ensures(B::serialize_element, (inner, Compact(value)), outcome),
    {
        self.0.serialize_element(Compact(value))
    }

    fn end(self) -> (outcome: Result<B::Ok, B::Error>)
        ensures
            call_ensures(B::end, (self.0,), outcome),
    {
        self.0.end()
    }
}

/// A tagged builder tags every value added to it.
impl<V, B: SerializeTuple<Compact<V>>> SerializeTuple<V> for Compact<B> {
    type Ok = B::Ok;

    type Error = B::Error;

    fn serialize_element(&mut self, value: V) -> (outcome: Result<(), B::Error>)
        ensures
            exists|inner: &mut B|
                *inner == old(self).0 && *final(inner) == final(self).0
                    && call_ensures(B::serialize_element, (inner, Compact(value)), outcome),
    {
        self.0.serialize_element(Compact(value))
    }

    fn end(self) -> (outcome: Result<B::Ok, B::Error>)
        ensures
            call_ensures(B::end, (self.0,), outcome),
    {
        self.0.end()
    }
}

/// A tagged builder tags every value added to it.
impl<V, B: SerializeTupleStruct<Compact<V>>> SerializeTupleStruct<V> for Compact<B> {
    type Ok = B::Ok;

    type Error = B::Error;

    fn serialize_field(&mut self, value: V) -> (outcome: Result<(), B::Error>)
        ensures
            exists|inner: &mut B|
                *inner == old(self).0 && *final(inner) == final(self).0
                    && call_ensures(B::serialize_field, (inner, Compact(value)), outcome),
    {
        self.0.serialize_field(Compact(value))
    }

    fn end(self) -> (outcome: Result<B::Ok, B::Error>)
        ensures
            call_ensures(B::end, (self.0,), outcome),
    {
        self.0.end()
    }
}

/// A tagged builder tags every value added to it.
impl<V, B: SerializeTupleVariant<Compact<V>>> SerializeTupleVariant<V> for Compact<B> {
    type Ok = B::Ok;

    type Error = B::Error;

    fn serialize_field(&mut self, value: V) -> (outcome: Result<(), B::Error>)
        ensures
            exists|inner: &mut B|
                *inner == old(self).0 && *final(inner) == final(self).0
                    && call_ensures(B::serialize_field, (inner, Compact(value)), outcome),
    {
        self.0.serialize_field(Compact(value))
    }

    fn end(self) -> (outcome: Result<B::Ok, B::Error>)
        ensures
            call_ensures(B::end, (self.0,), outcome),
    {
        self.0.end()
    }
}

/// A tagged builder tags every value added to it.
impl<K, V, B: SerializeMap<Compact<K>, Compact<V>>> SerializeMap<K, V> for Compact<B> {
    type Ok = B::Ok;

    type Error = B::Error;

    fn serialize_key(&mut self, key: K) -> (outcome: Result<(), B::Error>)
        ensures
            exists|inner: &mut B|
                *inner == old(self).0 && *final(inner) == final(self).0
                    && call_ensures(B::serialize_key, (inner, Compact(key)), outcome),
    {
        self.0.serialize_key(Compact(key))
    }

    fn serialize_value(&mut self, value: V) -> (outcome: Result<(), B::Error>)
        ensures
            exists|inner: &mut B|
                *inner == old(self).0 && *final(inner) == final(self).0
                    && call_ensures(B::serialize_value, (inner, Compact(value)), outcome),
    {
        self.0.serialize_value(Compact(value))
    }

    fn serialize_entry(&mut self, key: K, value: V) -> (outcome: Result<(), B::Error>)
        ensures
            exists|inner: &mut B|
                *inner == old(self).0 && *final(inner) == final(self).0
                    && call_ensures(
                        B::serialize_entry,
                        (inner, Compact(key), Compact(value)),
                        outcome,
                    ),
    {
        self.0.serialize_entry(Compact(key), Compact(value))
    }

    fn end(self) -> (outcome: Result<B::Ok, B::Error>)
        ensures
            call_ensures(B::end, (self.0,), outcome),
    {
        self.0.end()
    }
}

/// A tagged builder tags every value added to it.
impl<V, B: SerializeStruct<Compact<V>>> SerializeStruct<V> for Compact<B> {
    type Ok = B::Ok;

    type Error = B::Error;

    fn serialize_field(&mut self, key: &'static str, value: V) -> (outcome: Result<(), B::Error>)
        ensures
            exists|inner: &mut B|
                *inner == old(self).0 && *final(inner) == final(self).0
                    && call_ensures(B::serialize_field, (inner, key, Compact(value)), outcome),
    {
        self.0.serialize_field(key, Compact(value))
    }

    fn skip_field(&mut self, key: &'static str) -> (outcome: Result<(), B::Error>)
        ensures
            exists|inner: &mut B|
                *inner == old(self).0 && *final(inner) == final(self).0
                    && call_ensures(B::skip_field, (inner, key), outcome),
    {
        self.0.skip_field(key)
    }

    fn end(self) -> (outcome: Result<B::Ok, B::Error>)
        ensures
            call_ensures(B::end, (self.0,), outcome),
    {
        self.0.end()
    }
}

/// A tagged builder tags every value added to it.
impl<V, B: SerializeStructVariant<Compact<V>>> SerializeStructVariant<V> for Compact<B> {
    type Ok = B::Ok;

    type Error = B::Error;

    fn serialize_field(&mut self, key: &'static str, value: V) -> (outcome: Result<(), B::Error>)
        ensures
            exists|inner: &mut B|
                *inner == old(self).0 && *final(inner) == final(self).0
                    && call_ensures(B::serialize_field, (inner, key, Compact(value)), outcome),
    {
        self.0.serialize_field(key, Compact(value))
    }

    fn skip_field(&mut self, key: &'static str) -> (outcome: Result<(), B::Error>)
        ensures
            exists|inner: &mut B|
                *inner == old(self).0 && *final(inner) == final(self).0
                    && call_ensures(B::skip_field, (inner, key), outcome),
    {
        self.0.skip_field(key)
    }

    fn end(self) -> (outcome: Result<B::Ok, B::Error>)
        ensures
            call_ensures(B::end, (self.0,), outcome),
    {
        self.0.end()
    }
}

/// A tagged source tags each element when it is drawn, and none before; its size hint is the
/// source's own.
impl<I: Source> Source for Compact<I> {
    type Item = Compact<I::Item>;

    fn next(&mut self) -> (outcome: Option<Compact<I::Item>>)
        ensures
            exists|inner: &mut I|
                *inner == old(self).0 && *final(inner) == final(self).0
                    && call_ensures(I::next, (inner,), Compact::untagged_item(outcome)),
    {
        Compact::tag_item(self.0.next())
    }

    fn size_hint(&self) -> (outcome: (usize, Option<usize>))
        ensures
            call_ensures(I::size_hint, (&self.0,), outcome),
    {
        self.0.size_hint()
    }
}

/// A tagged source tags each key and each value when the entry is drawn, and none before; its size
/// hint is the source's own.
impl<I: EntrySource> EntrySource for Compact<I> {
    type Key = Compact<I::Key>;

    type Value = Compact<I::Value>;

    fn next_entry(&mut self) -> (outcome: Option<(Compact<I::Key>, Compact<I::Value>)>)
        ensures
            exists|inner: &mut I|
                *inner == old(self).0 && *final(inner) == final(self).0
                    && call_ensures(I::next_entry, (inner,), Compact::untagged_entry(outcome)),
    {
        Compact::tag_entry(self.0.next_entry())
    }

    fn size_hint(&self) -> (outcome: (usize, Option<usize>))
        ensures
            call_ensures(I::size_hint, (&self.0,), outcome),
    {
        self.0.size_hint()
    }
}

/// A tagged engine hands the source on under the same tag.
impl<I, S: CollectSeq<Compact<I>>> CollectSeq<I> for Compact<S> {
    type Ok = S::Ok;

    type Error = S::Error;

    fn collect_seq(self, iter: I) -> (outcome: Result<S::Ok, S::Error>)
        ensures
            call_ensures(S::collect_seq, (self.0, Compact(iter)), outcome),
    {
        self.0.collect_seq(Compact(iter))
    }
}

/// A tagged engine hands the source on under the same tag.
impl<I, S: CollectMap<Compact<I>>> CollectMap<I> for Compact<S> {
    type Ok = S::Ok;

    type Error = S::Error;

    fn collect_map(self, iter: I) -> (outcome: Result<S::Ok, S::Error>)
        ensures
            call_ensures(S::collect_map, (self.0, Compact(iter)), outcome),
    {
        self.0.collect_map(Compact(iter))
    }
}

} // verus!
