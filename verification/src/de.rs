//! The read side: the roles of a decoding engine, of the visitors it drives and of the accessors it
//! hands out.
//!
//! Each role is an interface of its own: the engine, the visitor, the accessors of a sequence, of a
//! map, of an enum and of the payload of a variant, the seed, and the value that is decoded. What a
//! role is handed (a visitor, a seed, a nested engine, an accessor) is a type parameter of the
//! role, so that an overlay can hand on the same thing under a tag, and a contract can name the
//! call that was made with it.
//!
//! A float is accepted by its bit pattern, and a visitor says what it expects as text.

pub mod compact;
pub mod laws;
pub mod readable;

use vstd::prelude::*;

verus! {

/// A type whose values are decoded from an engine of type `D`.
pub trait Deserialize<D>: Sized {
    /// The engine's failure.
    type Error;

    /// Decodes a value of this type from `deserializer`.
    fn deserialize(deserializer: D) -> Result<Self, Self::Error>;

    /// Decodes a value of this type from `deserializer` into `place`.
    fn deserialize_in_place(deserializer: D, place: &mut Self) -> Result<(), Self::Error>;
}

/// A strategy that decodes a value from an engine of type `D`.
pub trait DeserializeSeed<D>: Sized {
    /// What the seed produces.
    type Value;

    /// The engine's failure.
    type Error;

    /// Decodes a value from `deserializer`.
    fn deserialize(self, deserializer: D) -> Result<Self::Value, Self::Error>;
}

/// A decoding engine. `V` is the type of the visitors handed to it.
pub trait Deserializer<V>: Sized {
    /// What a visitor of type `V` produces.
    type Value;

    /// The engine's failure.
    type Error;

    /// Asks for whatever the input holds and hands it to `visitor`.
    fn deserialize_any(self, visitor: V) -> Result<Self::Value, Self::Error>;

    /// Asks for a boolean and hands it to `visitor`.
    fn deserialize_bool(self, visitor: V) -> Result<Self::Value, Self::Error>;

    /// Asks for an `i8` and hands it to `visitor`.
    fn deserialize_i8(self, visitor: V) -> Result<Self::Value, Self::Error>;

    /// Asks for an `i16` and hands it to `visitor`.
    fn deserialize_i16(self, visitor: V) -> Result<Self::Value, Self::Error>;

    /// Asks for an `i32` and hands it to `visitor`.
    fn deserialize_i32(self, visitor: V) -> Result<Self::Value, Self::Error>;

    /// Asks for an `i64` and hands it to `visitor`.
    fn deserialize_i64(self, visitor: V) -> Result<Self::Value, Self::Error>;

    /// Asks for an `i128` and hands it to `visitor`.
    fn deserialize_i128(self, visitor: V) -> Result<Self::Value, Self::Error>;

    /// Asks for a `u8` and hands it to `visitor`.
    fn deserialize_u8(self, visitor: V) -> Result<Self::Value, Self::Error>;

    /// Asks for a `u16` and hands it to `visitor`.
    fn deserialize_u16(self, visitor: V) -> Result<Self::Value, Self::Error>;

    /// Asks for a `u32` and hands it to `visitor`.
    fn deserialize_u32(self, visitor: V) -> Result<Self::Value, Self::Error>;

    /// Asks for a `u64` and hands it to `visitor`.
    fn deserialize_u64(self, visitor: V) -> Result<Self::Value, Self::Error>;

    /// Asks for a `u128` and hands it to `visitor`.
    fn deserialize_u128(self, visitor: V) -> Result<Self::Value, Self::Error>;

    /// Asks for a 32-bit float and hands it to `visitor`.
    fn deserialize_f32(self, visitor: V) -> Result<Self::Value, Self::Error>;

    /// Asks for a 64-bit float and hands it to `visitor`.
    fn deserialize_f64(self, visitor: V) -> Result<Self::Value, Self::Error>;

    /// Asks for a character and hands it to `visitor`.
    fn deserialize_char(self, visitor: V) -> Result<Self::Value, Self::Error>;

    /// Asks for a string slice and hands it to `visitor`.
    fn deserialize_str(self, visitor: V) -> Result<Self::Value, Self::Error>;

    /// Asks for an owned string and hands it to `visitor`.
    fn deserialize_string(self, visitor: V) -> Result<Self::Value, Self::Error>;

    /// Asks for a byte slice and hands it to `visitor`.
    fn deserialize_bytes(self, visitor: V) -> Result<Self::Value, Self::Error>;

    /// Asks for an owned byte buffer and hands it to `visitor`.
    fn deserialize_byte_buf(self, visitor: V) -> Result<Self::Value, Self::Error>;

    /// Asks for an optional value and hands it to `visitor`.
    fn deserialize_option(self, visitor: V) -> Result<Self::Value, Self::Error>;

    /// Asks for the unit value and hands it to `visitor`.
    fn deserialize_unit(self, visitor: V) -> Result<Self::Value, Self::Error>;

    /// Asks for a named unit and hands it to `visitor`.
    fn deserialize_unit_struct(
        self,
        name: &'static str,
        visitor: V,
    ) -> Result<Self::Value, Self::Error>;

    /// Asks for a named wrapper around one value and hands it to `visitor`.
    fn deserialize_newtype_struct(
        self,
        name: &'static str,
        visitor: V,
    ) -> Result<Self::Value, Self::Error>;

    /// Asks for a sequence and hands it to `visitor`.
    fn deserialize_seq(self, visitor: V) -> Result<Self::Value, Self::Error>;

    /// Asks for a tuple of `len` elements and hands it to `visitor`.
    fn deserialize_tuple(self, len: usize, visitor: V) -> Result<Self::Value, Self::Error>;

    /// Asks for a named tuple of `len` fields and hands it to `visitor`.
    fn deserialize_tuple_struct(
        self,
        name: &'static str,
        len: usize,
        visitor: V,
    ) -> Result<Self::Value, Self::Error>;

    /// Asks for a map and hands it to `visitor`.
    fn deserialize_map(self, visitor: V) -> Result<Self::Value, Self::Error>;

    /// Asks for a struct with the given fields and hands it to `visitor`.
    fn deserialize_struct(
        self,
        name: &'static str,
        fields: &'static [&'static str],
        visitor: V,
    ) -> Result<Self::Value, Self::Error>;

    /// Asks for an enum with the given variants and hands it to `visitor`.
    fn deserialize_enum(
        self,
        name: &'static str,
        variants: &'static [&'static str],
        visitor: V,
    ) -> Result<Self::Value, Self::Error>;

    /// Asks for the name of a field or variant and hands it to `visitor`.
    fn deserialize_identifier(self, visitor: V) -> Result<Self::Value, Self::Error>;

    /// Asks for whatever the input holds, to be passed over, and hands it to `visitor`.
    fn deserialize_ignored_any(self, visitor: V) -> Result<Self::Value, Self::Error>;

    /// Whether the format is human readable.
    fn is_human_readable(&self) -> bool;
}

/// Receives what a decoding engine found and builds a value from it. `D`, `A`, `M` and `E` are the
/// types of the nested engines, sequence accessors, map accessors and enum accessors handed to it.
pub trait Visitor<'de, D, A, M, E>: Sized {
    /// What the visitor produces.
    type Value;

    /// The failure of the engine that drives the visitor.
    type Error;

    /// Says what this visitor expects to be given.
    fn expecting(&self) -> String;

    /// Accepts a boolean.
    fn visit_bool(self, v: bool) -> Result<Self::Value, Self::Error>;

    /// Accepts an `i8`.
    fn visit_i8(self, v: i8) -> Result<Self::Value, Self::Error>;

    /// Accepts an `i16`.
    fn visit_i16(self, v: i16) -> Result<Self::Value, Self::Error>;

    /// Accepts an `i32`.
    fn visit_i32(self, v: i32) -> Result<Self::Value, Self::Error>;

    /// Accepts an `i64`.
    fn visit_i64(self, v: i64) -> Result<Self::Value, Self::Error>;

    /// Accepts an `i128`.
    fn visit_i128(self, v: i128) -> Result<Self::Value, Self::Error>;

    /// Accepts a `u8`.
    fn visit_u8(self, v: u8) -> Result<Self::Value, Self::Error>;

    /// Accepts a `u16`.
    fn visit_u16(self, v: u16) -> Result<Self::Value, Self::Error>;

    /// Accepts a `u32`.
    fn visit_u32(self, v: u32) -> Result<Self::Value, Self::Error>;

    /// Accepts a `u64`.
    fn visit_u64(self, v: u64) -> Result<Self::Value, Self::Error>;

    /// Accepts a `u128`.
    fn visit_u128(self, v: u128) -> Result<Self::Value, Self::Error>;

    /// Accepts a 32-bit float, given by its bit pattern.
    fn visit_f32(self, bits: u32) -> Result<Self::Value, Self::Error>;

    /// Accepts a 64-bit float, given by its bit pattern.
    fn visit_f64(self, bits: u64) -> Result<Self::Value, Self::Error>;

    /// Accepts a character.
    fn visit_char(self, v: char) -> Result<Self::Value, Self::Error>;

    /// Accepts a string slice.
    fn visit_str(self, v: &str) -> Result<Self::Value, Self::Error>;

    /// Accepts a string slice that lives as long as the input.
    fn visit_borrowed_str(self, v: &'de str) -> Result<Self::Value, Self::Error>;

    /// Accepts an owned string.
    fn visit_string(self, v: String) -> Result<Self::Value, Self::Error>;

    /// Accepts a byte slice.
    fn visit_bytes(self, v: &[u8]) -> Result<Self::Value, Self::Error>;

    /// Accepts a byte slice that lives as long as the input.
    fn visit_borrowed_bytes(self, v: &'de [u8]) -> Result<Self::Value, Self::Error>;

    /// Accepts an owned byte buffer.
    fn visit_byte_buf(self, v: Vec<u8>) -> Result<Self::Value, Self::Error>;

    /// Accepts an absent optional value.
    fn visit_none(self) -> Result<Self::Value, Self::Error>;

    /// Accepts a present optional value, to be read from `deserializer`.
    fn visit_some(self, deserializer: D) -> Result<Self::Value, Self::Error>;

    /// Accepts the unit value.
    fn visit_unit(self) -> Result<Self::Value, Self::Error>;

    /// Accepts a named wrapper, whose one value is to be read from `deserializer`.
    fn visit_newtype_struct(self, deserializer: D) -> Result<Self::Value, Self::Error>;

    /// Accepts a sequence, whose elements are to be read from `seq`.
    fn visit_seq(self, seq: A) -> Result<Self::Value, Self::Error>;

    /// Accepts a map, whose entries are to be read from `map`.
    fn visit_map(self, map: M) -> Result<Self::Value, Self::Error>;

    /// Accepts an enum, whose variant is to be read from `data`.
    fn visit_enum(self, data: E) -> Result<Self::Value, Self::Error>;
}

/// The rest of a sequence that is being decoded.
pub trait SeqAccess<T>: Sized {
    /// What a seed of type `T` produces.
    type Value;

    /// The engine's failure.
    type Error;

    /// Decodes the next element with `seed`, if one is left.
    fn next_element_seed(&mut self, seed: T) -> Result<Option<Self::Value>, Self::Error>;

    /// How many elements are left, where the engine knows.
    fn size_hint(&self) -> Option<usize>;
}

/// The rest of a map that is being decoded.
pub trait MapAccess<K, V>: Sized {
    /// What a seed of type `K` produces.
    type Key;

    /// What a seed of type `V` produces.
    type Value;

    /// The engine's failure.
    type Error;

    /// Decodes the next key with `seed`, if one is left.
    fn next_key_seed(&mut self, seed: K) -> Result<Option<Self::Key>, Self::Error>;

    /// Decodes the value of the key decoded last with `seed`.
    fn next_value_seed(&mut self, seed: V) -> Result<Self::Value, Self::Error>;

    /// Decodes the next key and its value with the two seeds, if an entry is left.
    fn next_entry_seed(
        &mut self,
        kseed: K,
        vseed: V,
    ) -> Result<Option<(Self::Key, Self::Value)>, Self::Error>;

    /// How many entries are left, where the engine knows.
    fn size_hint(&self) -> Option<usize>;
}

/// An enum that is being decoded.
pub trait EnumAccess<T>: Sized {
    /// What a seed of type `T` produces.
    type Value;

    /// The engine's failure.
    type Error;

    /// The accessor for the payload of the variant.
    type Variant;

    /// Decodes which variant the input holds with `seed`, and gives the accessor for its payload.
    fn variant_seed(self, seed: T) -> Result<(Self::Value, Self::Variant), Self::Error>;
}

/// The payload of a variant that is being decoded.
pub trait VariantAccess<T, V>: Sized {
    /// What a seed of type `T` produces.
    type Value;

    /// What a visitor of type `V` produces.
    type Output;

    /// The engine's failure.
    type Error;

    /// Accepts a variant without payload.
    fn unit_variant(self) -> Result<(), Self::Error>;

    /// Decodes with `seed` the one value that is the payload.
    fn newtype_variant_seed(self, seed: T) -> Result<Self::Value, Self::Error>;

    /// Hands a payload of `len` elements to `visitor`.
    fn tuple_variant(self, len: usize, visitor: V) -> Result<Self::Output, Self::Error>;

    /// Hands a payload with the given fields to `visitor`.
    fn struct_variant(
        self,
        fields: &'static [&'static str],
        visitor: V,
    ) -> Result<Self::Output, Self::Error>;
}

} // verus!
