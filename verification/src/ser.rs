//! The write side: the roles of an encoding engine and of what it yields.
//!
//! Each role is an interface of its own: the engine, one builder for each kind of aggregate, the
//! value that encodes itself, and the lazy sources that a collection is drawn from. What a role is
//! handed (a nested value, a source, an engine) is a type parameter of the role, so that an overlay
//! can hand on the same thing under a tag, and a contract can name the call that was made with it.
//!
//! A float is encoded by its bit pattern, and a displayable value by the text that displaying it
//! gave.

pub mod compact;
pub mod laws;
pub mod readable;

use vstd::prelude::*;

verus! {

/// A value that encodes itself into an engine of type `S`.
pub trait Serialize<S> {
    /// What the engine gives back once the value is encoded.
    type Ok;

    /// The engine's failure.
    type Error;

    /// Encodes this value into `serializer`.
    fn serialize(&self, serializer: S) -> Result<Self::Ok, Self::Error>;
}

/// An encoding engine. `V` is the type of the nested values handed to it.
pub trait Serializer<V>: Sized {
    /// What the engine gives back once a value is encoded.
    type Ok;

    /// The engine's failure.
    type Error;

    /// The builder for the elements of a sequence.
    type SerializeSeq: SerializeSeq<V, Ok = Self::Ok, Error = Self::Error>;

    /// The builder for the elements of a tuple.
    type SerializeTuple: SerializeTuple<V, Ok = Self::Ok, Error = Self::Error>;

    /// The builder for the fields of a named tuple.
    type SerializeTupleStruct: SerializeTupleStruct<V, Ok = Self::Ok, Error = Self::Error>;

    /// The builder for the fields of a tuple variant.
    type SerializeTupleVariant: SerializeTupleVariant<V, Ok = Self::Ok, Error = Self::Error>;

    /// The builder for the entries of a map.
    type SerializeMap: SerializeMap<V, V, Ok = Self::Ok, Error = Self::Error>;

    /// The builder for the fields of a struct.
    type SerializeStruct: SerializeStruct<V, Ok = Self::Ok, Error = Self::Error>;

    /// The builder for the fields of a struct variant.
    type SerializeStructVariant: SerializeStructVariant<V, Ok = Self::Ok, Error = Self::Error>;

    /// Encodes a boolean.
    fn serialize_bool(self, v: bool) -> Result<Self::Ok, Self::Error>;

    /// Encodes an `i8`.
    fn serialize_i8(self, v: i8) -> Result<Self::Ok, Self::Error>;

    /// Encodes an `i16`.
    fn serialize_i16(self, v: i16) -> Result<Self::Ok, Self::Error>;

    /// Encodes an `i32`.
    fn serialize_i32(self, v: i32) -> Result<Self::Ok, Self::Error>;

    /// Encodes an `i64`.
    fn serialize_i64(self, v: i64) -> Result<Self::Ok, Self::Error>;

    /// Encodes an `i128`.
    fn serialize_i128(self, v: i128) -> Result<Self::Ok, Self::Error>;

    /// Encodes a `u8`.
    fn serialize_u8(self, v: u8) -> Result<Self::Ok, Self::Error>;

    /// Encodes a `u16`.
    fn serialize_u16(self, v: u16) -> Result<Self::Ok, Self::Error>;

    /// Encodes a `u32`.
    fn serialize_u32(self, v: u32) -> Result<Self::Ok, Self::Error>;

    /// Encodes a `u64`.
    fn serialize_u64(self, v: u64) -> Result<Self::Ok, Self::Error>;

    /// Encodes a `u128`.
    fn serialize_u128(self, v: u128) -> Result<Self::Ok, Self::Error>;

    /// Encodes a 32-bit float, given by its bit pattern.
    fn serialize_f32(self, bits: u32) -> Result<Self::Ok, Self::Error>;

    /// Encodes a 64-bit float, given by its bit pattern.
    fn serialize_f64(self, bits: u64) -> Result<Self::Ok, Self::Error>;

    /// Encodes a character.
    fn serialize_char(self, v: char) -> Result<Self::Ok, Self::Error>;

    /// Encodes a string.
    fn serialize_str(self, v: &str) -> Result<Self::Ok, Self::Error>;

    /// Encodes a byte buffer.
    fn serialize_bytes(self, v: &[u8]) -> Result<Self::Ok, Self::Error>;

    /// Encodes an absent optional value.
    fn serialize_none(self) -> Result<Self::Ok, Self::Error>;

    /// Encodes a present optional value.
    fn serialize_some(self, value: V) -> Result<Self::Ok, Self::Error>;

    /// Encodes the unit value.
    fn serialize_unit(self) -> Result<Self::Ok, Self::Error>;

    /// Encodes a named unit.
    fn serialize_unit_struct(self, name: &'static str) -> Result<Self::Ok, Self::Error>;

    /// Encodes a variant without payload.
    fn serialize_unit_variant(
        self,
        name: &'static str,
        variant_index: u32,
        variant: &'static str,
    ) -> Result<Self::Ok, Self::Error>;

    /// Encodes a named wrapper around one value.
    fn serialize_newtype_struct(
        self,
        name: &'static str,
        value: V,
    ) -> Result<Self::Ok, Self::Error>;

    /// Encodes a variant whose payload is one value.
    fn serialize_newtype_variant(
        self,
        name: &'static str,
        variant_index: u32,
        variant: &'static str,
        value: V,
    ) -> Result<Self::Ok, Self::Error>;

    /// Begins a sequence.
    fn serialize_seq(self, len: Option<usize>) -> Result<Self::SerializeSeq, Self::Error>;

    /// Begins a tuple.
    fn serialize_tuple(self, len: usize) -> Result<Self::SerializeTuple, Self::Error>;

    /// Begins a named tuple.
    fn serialize_tuple_struct(
        self,
        name: &'static str,
        len: usize,
    ) -> Result<Self::SerializeTupleStruct, Self::Error>;

    /// Begins a variant whose payload is a tuple.
    fn serialize_tuple_variant(
        self,
        name: &'static str,
        variant_index: u32,
        variant: &'static str,
        len: usize,
    ) -> Result<Self::SerializeTupleVariant, Self::Error>;

    /// Begins a map.
    fn serialize_map(self, len: Option<usize>) -> Result<Self::SerializeMap, Self::Error>;

    /// Begins a struct.
    fn serialize_struct(
        self,
        name: &'static str,
        len: usize,
    ) -> Result<Self::SerializeStruct, Self::Error>;

    /// Begins a variant whose payload is a struct.
    fn serialize_struct_variant(
        self,
        name: &'static str,
        variant_index: u32,
        variant: &'static str,
        len: usize,
    ) -> Result<Self::SerializeStructVariant, Self::Error>;

    /// Encodes the text that a displayable value gave.
    fn collect_str(self, value: &str) -> Result<Self::Ok, Self::Error>;

    /// Whether the format is human readable.
    fn is_human_readable(&self) -> bool;
}

/// The rest of a sequence that is being encoded.
pub trait SerializeSeq<V>: Sized {
    /// What the engine gives when the aggregate is closed.
    type Ok;

    /// The engine's failure.
    type Error;

    /// Adds one element.
    fn serialize_element(&mut self, value: V) -> Result<(), Self::Error>;

    /// Closes the aggregate.
    fn end(self) -> Result<Self::Ok, Self::Error>;
}

/// The rest of a tuple that is being encoded.
pub trait SerializeTuple<V>: Sized {
    /// What the engine gives when the aggregate is closed.
    type Ok;

    /// The engine's failure.
    type Error;

    /// Adds one element.
    fn serialize_element(&mut self, value: V) -> Result<(), Self::Error>;

    /// Closes the aggregate.
    fn end(self) -> Result<Self::Ok, Self::Error>;
}

/// The rest of a named tuple that is being encoded.
pub trait SerializeTupleStruct<V>: Sized {
    /// What the engine gives when the aggregate is closed.
    type Ok;

    /// The engine's failure.
    type Error;

    /// Adds one field.
    fn serialize_field(&mut self, value: V) -> Result<(), Self::Error>;

    /// Closes the aggregate.
    fn end(self) -> Result<Self::Ok, Self::Error>;
}

/// The rest of a tuple variant that is being encoded.
pub trait SerializeTupleVariant<V>: Sized {
    /// What the engine gives when the aggregate is closed.
    type Ok;

    /// The engine's failure.
    type Error;

    /// Adds one field.
    fn serialize_field(&mut self, value: V) -> Result<(), Self::Error>;

    /// Closes the aggregate.
    fn end(self) -> Result<Self::Ok, Self::Error>;
}

/// The rest of a map that is being encoded.
pub trait SerializeMap<K, V>: Sized {
    /// What the engine gives when the map is closed.
    type Ok;

    /// The engine's failure.
    type Error;

    /// Adds one key.
    fn serialize_key(&mut self, key: K) -> Result<(), Self::Error>;

    /// Adds the value of the key added last.
    fn serialize_value(&mut self, value: V) -> Result<(), Self::Error>;

    /// Adds one key with its value.
    fn serialize_entry(&mut self, key: K, value: V) -> Result<(), Self::Error>;

    /// Closes the map.
    fn end(self) -> Result<Self::Ok, Self::Error>;
}

/// The rest of a struct that is being encoded.
pub trait SerializeStruct<V>: Sized {
    /// What the engine gives when the aggregate is closed.
    type Ok;

    /// The engine's failure.
    type Error;

    /// Adds one named field.
    fn serialize_field(&mut self, key: &'static str, value: V) -> Result<(), Self::Error>;

    /// Leaves one named field out.
    fn skip_field(&mut self, key: &'static str) -> Result<(), Self::Error>;

    /// Closes the aggregate.
    fn end(self) -> Result<Self::Ok, Self::Error>;
}

/// The rest of a struct variant that is being encoded.
pub trait SerializeStructVariant<V>: Sized {
    /// What the engine gives when the aggregate is closed.
    type Ok;

    /// The engine's failure.
    type Error;

    /// Adds one named field.
    fn serialize_field(&mut self, key: &'static str, value: V) -> Result<(), Self::Error>;

    /// Leaves one named field out.
    fn skip_field(&mut self, key: &'static str) -> Result<(), Self::Error>;

    /// Closes the aggregate.
    fn end(self) -> Result<Self::Ok, Self::Error>;
}

/// A lazy source of the elements of a sequence: each is produced when it is drawn.
pub trait Source: Sized {
    /// What the source produces.
    type Item;

    /// Draws the next element, if one is left.
    fn next(&mut self) -> Option<Self::Item>;

    /// The bounds on how many elements are left, as far as the source knows.
    fn size_hint(&self) -> (usize, Option<usize>);
}

/// A lazy source of the entries of a map: each is produced when it is drawn.
pub trait EntrySource: Sized {
    /// The keys that the source produces.
    type Key;

    /// The values that the source produces.
    type Value;

    /// Draws the next key with its value, if one is left.
    fn next_entry(&mut self) -> Option<(Self::Key, Self::Value)>;

    /// The bounds on how many entries are left, as far as the source knows.
    fn size_hint(&self) -> (usize, Option<usize>);
}

/// An engine that encodes a sequence drawn from a lazy source of type `I`.
pub trait CollectSeq<I>: Sized {
    /// What the engine gives back once the sequence is encoded.
    type Ok;

    /// The engine's failure.
    type Error;

    /// Encodes as a sequence the elements that `iter` produces.
    fn collect_seq(self, iter: I) -> Result<Self::Ok, Self::Error>;
}

/// An engine that encodes a map drawn from a lazy source of type `I`.
pub trait CollectMap<I>: Sized {
    /// What the engine gives back once the map is encoded.
    type Ok;

    /// The engine's failure.
    type Error;

    /// Encodes as a map the entries that `iter` produces.
    fn collect_map(self, iter: I) -> Result<Self::Ok, Self::Error>;
}

} // verus!
