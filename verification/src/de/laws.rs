//! What holds of the read side, whatever engine, visitor, accessor or seed is wrapped.
//!
//! Each statement speaks of outcomes: `call_ensures(f, args, outcome)` says that `outcome` is what
//! the call of `f` on `args` gave. A statement with such a clause on the left of `==>` and another
//! on its right says that the call on the tagged object is one call of the same operation on the
//! object it wraps. The statements hold for every type that fills a role, a tagged one too: that is
//! how they reach every depth of a value.

use crate::configure::{Compact, Readable};
use crate::de::{
    Deserialize, DeserializeSeed, Deserializer, EnumAccess, MapAccess, SeqAccess,
    VariantAccess, Visitor,
};
use vstd::prelude::*;

verus! {

/// The mode that a value observes: a value tagged `Readable` is decoded by decoding its payload
/// from the engine under `Readable`, and that engine answers `true` to the mode query. A failure is
/// the payload's own; so is what decoding in place leaves in the place.
pub proof fn readable_value_is_decoded_from_readable_engine<D, V, T>(
    engine: D,
    outcome: Result<Readable<T>, T::Error>,
    filled: Result<(), T::Error>,
    answer: bool,
)
    where
        T: Deserialize<Readable<D>>,
        D: Deserializer<Readable<V>>,
    ensures
        call_ensures(<Readable<T> as Deserialize<D>>::deserialize, (engine,), outcome)
            ==> call_ensures(T::deserialize, (Readable(engine),), Readable::untagged(outcome)),
        outcome matches Ok(value) ==> Readable::untagged(outcome) == Ok::<T, T::Error>(value.0),
        outcome matches Err(failure) ==> Readable::untagged(outcome) == Err::<T, T::Error>(failure),
        forall|place: &mut Readable<T>|
            call_ensures(
                <Readable<T> as Deserialize<D>>::deserialize_in_place,
                (engine, place),
                filled,
            ) ==> exists|inner: &mut T|
                *inner == (*place).0 && *final(inner) == (*final(place)).0 && call_ensures(
                    T::deserialize_in_place,
                    (Readable(engine), inner),
                    filled,
                ),
        call_ensures(
            <Readable<D> as Deserializer<V>>::is_human_readable,
            (&Readable(engine),),
            answer,
        ) ==> answer == true,
{
}

/// The mode that a seed observes: a seed tagged `Readable` decodes with its payload from the engine
/// under `Readable`, and that engine answers `true` to the mode query. The outcome, a failure too,
/// is the payload's own.
pub proof fn readable_seed_decodes_from_readable_engine<D, V, T>(
    seed: T,
    engine: D,
    outcome: Result<T::Value, T::Error>,
    answer: bool,
)
    where
        T: DeserializeSeed<Readable<D>>,
        D: Deserializer<Readable<V>>,
    ensures
        call_ensures(
            <Readable<T> as DeserializeSeed<D>>::deserialize,
            (Readable(seed), engine),
            outcome,
        ) ==> call_ensures(T::deserialize, (seed, Readable(engine)), outcome),
        call_ensures(
            <Readable<D> as Deserializer<V>>::is_human_readable,
            (&Readable(engine),),
            answer,
        ) ==> answer == true,
{
}

/// Payloads: what a visitor tagged `Readable` is given to read a payload from (a nested engine, or
/// the accessor of a sequence, of a map or of an enum) reaches the visitor it wraps under
/// `Readable`, and a nested engine so tagged answers `true`. The outcome, a failure too, is the
/// inner visitor's.
pub proof fn readable_visitor_reads_from_tagged_payload<'de, N, A, M, E, W, V>(
    visitor: V,
    nested: N,
    seq: A,
    map: M,
    data: E,
    outcome: Result<V::Value, V::Error>,
    answer: bool,
)
    where
        V: Visitor<'de, Readable<N>, Readable<A>, Readable<M>, Readable<E>>,
        N: Deserializer<Readable<W>>,
    ensures
        call_ensures(
            <Readable<V> as Visitor<'de, N, A, M, E>>::visit_some,
            (Readable(visitor), nested),
            outcome,
        ) ==> call_ensures(V::visit_some, (visitor, Readable(nested)), outcome),
        call_ensures(
            <Readable<V> as Visitor<'de, N, A, M, E>>::visit_newtype_struct,
            (Readable(visitor), nested),
            outcome,
        ) ==> call_ensures(V::visit_newtype_struct, (visitor, Readable(nested)), outcome),
        call_ensures(
            <Readable<V> as Visitor<'de, N, A, M, E>>::visit_seq,
            (Readable(visitor), seq),
            outcome,
        ) ==> call_ensures(V::visit_seq, (visitor, Readable(seq)), outcome),
        call_ensures(
            <Readable<V> as Visitor<'de, N, A, M, E>>::visit_map,
            (Readable(visitor), map),
            outcome,
        ) ==> call_ensures(V::visit_map, (visitor, Readable(map)), outcome),
        call_ensures(
            <Readable<V> as Visitor<'de, N, A, M, E>>::visit_enum,
            (Readable(visitor), data),
            outcome,
        ) ==> call_ensures(V::visit_enum, (visitor, Readable(data)), outcome),
        call_ensures(
            <Readable<N> as Deserializer<W>>::is_human_readable,
            (&Readable(nested),),
            answer,
        ) ==> answer == true,
{
}

/// Elements: a seed handed to a sequence accessor tagged `Readable` reaches the accessor it wraps
/// under `Readable`; the outcome, a failure too, and the size hint are the inner accessor's.
pub proof fn readable_seq_access_is_inner_seq_access<T, A: SeqAccess<Readable<T>>>(
    seed: T,
    outcome: Result<Option<A::Value>, A::Error>,
    hint: Option<usize>,
)
    ensures
        forall|access: &mut Readable<A>|
            call_ensures(
                <Readable<A> as SeqAccess<T>>::next_element_seed,
                (access, seed),
                outcome,
            ) ==> exists|inner: &mut A|
                *inner == (*access).0 && *final(inner) == (*final(access)).0 && call_ensures(
                    A::next_element_seed,
                    (inner, Readable(seed)),
                    outcome,
                ),
        forall|access: Readable<A>|
            call_ensures(<Readable<A> as SeqAccess<T>>::size_hint, (&access,), hint)
                ==> call_ensures(A::size_hint, (&access.0,), hint),
{
}

/// Entries: every seed handed to a map accessor tagged `Readable` reaches the accessor it wraps
/// under `Readable`; the outcomes, failures too, and the size hint are the inner accessor's.
pub proof fn readable_map_access_is_inner_map_access<K, V, A: MapAccess<Readable<K>, Readable<V>>>(
    kseed: K,
    vseed: V,
    key: Result<Option<A::Key>, A::Error>,
    value: Result<A::Value, A::Error>,
    entry: Result<Option<(A::Key, A::Value)>, A::Error>,
    hint: Option<usize>,
)
    ensures
        forall|access: &mut Readable<A>|
            call_ensures(<Readable<A> as MapAccess<K, V>>::next_key_seed, (access, kseed), key)
                ==> exists|inner: &mut A|
                *inner == (*access).0 && *final(inner) == (*final(access)).0 && call_ensures(
                    A::next_key_seed,
                    (inner, Readable(kseed)),
                    key,
                ),
        forall|access: &mut Readable<A>|
            call_ensures(<Readable<A> as MapAccess<K, V>>::next_value_seed, (access, vseed), value)
                ==> exists|inner: &mut A|
                *inner == (*access).0 && *final(inner) == (*final(access)).0 && call_ensures(
                    A::next_value_seed,
                    (inner, Readable(vseed)),
                    value,
                ),
        forall|access: &mut Readable<A>|
            call_ensures(
                <Readable<A> as MapAccess<K, V>>::next_entry_seed,
                (access, kseed, vseed),
                entry,
            ) ==> exists|inner: &mut A|
                *inner == (*access).0 && *final(inner) == (*final(access)).0 && call_ensures(
                    A::next_entry_seed,
                    (inner, Readable(kseed), Readable(vseed)),
                    entry,
                ),
        forall|access: Readable<A>|
            call_ensures(<Readable<A> as MapAccess<K, V>>::size_hint, (&access,), hint)
                ==> call_ensures(A::size_hint, (&access.0,), hint),
{
}

/// Variants: the seed handed to an enum accessor tagged `Readable` reaches the accessor it wraps
/// under `Readable`, and the accessor of the payload comes back under `Readable`; a failure is the
/// inner accessor's.
pub proof fn readable_enum_access_is_inner_enum_access<T, A: EnumAccess<Readable<T>>>(
    access: A,
    seed: T,
    outcome: Result<(A::Value, Readable<A::Variant>), A::Error>,
)
    ensures
        call_ensures(
            <Readable<A> as EnumAccess<T>>::variant_seed,
            (Readable(access), seed),
            outcome,
        ) ==> call_ensures(
            A::variant_seed,
            (access, Readable(seed)),
            Readable::untagged_variant(outcome),
        ),
        outcome matches Ok((value, variant)) ==> Readable::untagged_variant(outcome) == Ok::<
            (A::Value, A::Variant),
            A::Error,
        >((value, variant.0)),
        outcome matches Err(failure) ==> Readable::untagged_variant(outcome) == Err::<
            (A::Value, A::Variant),
            A::Error,
        >(failure),
{
}

/// Payloads of variants: a seed or a visitor handed to a variant accessor tagged `Readable` reaches
/// the accessor it wraps under `Readable`, with the arity and the field names as they were given;
/// the outcome, a failure too, is the inner accessor's.
pub proof fn readable_variant_access_is_inner_variant_access<T, V, A>(
    access: A,
    seed: T,
    visitor: V,
    len: usize,
    fields: &'static [&'static str],
    unit: Result<(), A::Error>,
    value: Result<A::Value, A::Error>,
    output: Result<A::Output, A::Error>,
)
    where
        A: VariantAccess<Readable<T>, Readable<V>>,
    ensures
        call_ensures(<Readable<A> as VariantAccess<T, V>>::unit_variant, (Readable(access),), unit)
            ==> call_ensures(A::unit_variant, (access,), unit),
        call_ensures(
            <Readable<A> as VariantAccess<T, V>>::newtype_variant_seed,
            (Readable(access), seed),
            value,
        ) ==> call_ensures(A::newtype_variant_seed, (access, Readable(seed)), value),
        call_ensures(
            <Readable<A> as VariantAccess<T, V>>::tuple_variant,
            (Readable(access), len, visitor),
            output,
        ) ==> call_ensures(A::tuple_variant, (access, len, Readable(visitor)), output),
        call_ensures(
            <Readable<A> as VariantAccess<T, V>>::struct_variant,
            (Readable(access), fields, visitor),
            output,
        ) ==> call_ensures(A::struct_variant, (access, fields, Readable(visitor)), output),
{
}

/// The mode that a value observes: a value tagged `Compact` is decoded by decoding its payload from
/// the engine under `Compact`, and that engine answers `false` to the mode query. A failure is the
/// payload's own; so is what decoding in place leaves in the place.
pub proof fn compact_value_is_decoded_from_compact_engine<D, V, T>(
    engine: D,
    outcome: Result<Compact<T>, T::Error>,
    filled: Result<(), T::Error>,
    answer: bool,
)
    where
        T: Deserialize<Compact<D>>,
        D: Deserializer<Compact<V>>,
    ensures
        call_ensures(<Compact<T> as Deserialize<D>>::deserialize, (engine,), outcome)
            ==> call_ensures(T::deserialize, (Compact(engine),), Compact::untagged(outcome)),
        outcome matches Ok(value) ==> Compact::untagged(outcome) == Ok::<T, T::Error>(value.0),
        outcome matches Err(failure) ==> Compact::untagged(outcome) == Err::<T, T::Error>(failure),
        forall|place: &mut Compact<T>|
            call_ensures(
                <Compact<T> as Deserialize<D>>::deserialize_in_place,
                (engine, place),
                filled,
            ) ==> exists|inner: &mut T|
                *inner == (*place).0 && *final(inner) == (*final(place)).0 && call_ensures(
                    T::deserialize_in_place,
                    (Compact(engine), inner),
                    filled,
                ),
        call_ensures(
            <Compact<D> as Deserializer<V>>::is_human_readable,
            (&Compact(engine),),
            answer,
        ) ==> answer == false,
{
}

/// The mode that a seed observes: a seed tagged `Compact` decodes with its payload from the engine
/// under `Compact`, and that engine answers `false` to the mode query. The outcome, a failure too,
/// is the payload's own.
pub proof fn compact_seed_decodes_from_compact_engine<D, V, T>(
    seed: T,
    engine: D,
    outcome: Result<T::Value, T::Error>,
    answer: bool,
)
    where
        T: DeserializeSeed<Compact<D>>,
        D: Deserializer<Compact<V>>,
    ensures
        call_ensures(
            <Compact<T> as DeserializeSeed<D>>::deserialize,
            (Compact(seed), engine),
            outcome,
        ) ==> call_ensures(T::deserialize, (seed, Compact(engine)), outcome),
        call_ensures(
            <Compact<D> as Deserializer<V>>::is_human_readable,
            (&Compact(engine),),
            answer,
        ) ==> answer == false,
{
}

/// Payloads: what a visitor tagged `Compact` is given to read a payload from (a nested engine, or
/// the accessor of a sequence, of a map or of an enum) reaches the visitor it wraps under
/// `Compact`, and a nested engine so tagged answers `false`. The outcome, a failure too, is the
/// inner visitor's.
pub proof fn compact_visitor_reads_from_tagged_payload<'de, N, A, M, E, W, V>(
    visitor: V,
    nested: N,
    seq: A,
    map: M,
    data: E,
    outcome: Result<V::Value, V::Error>,
    answer: bool,
)
    where
        V: Visitor<'de, Compact<N>, Compact<A>, Compact<M>, Compact<E>>,
        N: Deserializer<Compact<W>>,
    ensures
        call_ensures(
            <Compact<V> as Visitor<'de, N, A, M, E>>::visit_some,
            (Compact(visitor), nested),
            outcome,
        ) ==> call_ensures(V::visit_some, (visitor, Compact(nested)), outcome),
        call_ensures(
            <Compact<V> as Visitor<'de, N, A, M, E>>::visit_newtype_struct,
            (Compact(visitor), nested),
            outcome,
        ) ==> call_ensures(V::visit_newtype_struct, (visitor, Compact(nested)), outcome),
        call_ensures(
            <Compact<V> as Visitor<'de, N, A, M, E>>::visit_seq,
            (Compact(visitor), seq),
            outcome,
        ) ==> call_ensures(V::visit_seq, (visitor, Compact(seq)), outcome),
        call_ensures(
            <Compact<V> as Visitor<'de, N, A, M, E>>::visit_map,
            (Compact(visitor), map),
            outcome,
        ) ==> call_ensures(V::visit_map, (visitor, Compact(map)), outcome),
        call_ensures(
            <Compact<V> as Visitor<'de, N, A, M, E>>::visit_enum,
            (Compact(visitor), data),
            outcome,
        ) ==> call_ensures(V::visit_enum, (visitor, Compact(data)), outcome),
        call_ensures(
            <Compact<N> as Deserializer<W>>::is_human_readable,
            (&Compact(nested),),
            answer,
        ) ==> answer == false,
{
}

/// Elements: a seed handed to a sequence accessor tagged `Compact` reaches the accessor it wraps
/// under `Compact`; the outcome, a failure too, and the size hint are the inner accessor's.
pub proof fn compact_seq_access_is_inner_seq_access<T, A: SeqAccess<Compact<T>>>(
    seed: T,
    outcome: Result<Option<A::Value>, A::Error>,
    hint: Option<usize>,
)
    ensures
        forall|access: &mut Compact<A>|
            call_ensures(
                <Compact<A> as SeqAccess<T>>::next_element_seed,
                (access, seed),
                outcome,
            ) ==> exists|inner: &mut A|
                *inner == (*access).0 && *final(inner) == (*final(access)).0 && call_ensures(
                    A::next_element_seed,
                    (inner, Compact(seed)),
                    outcome,
                ),
        forall|access: Compact<A>|
            call_ensures(<Compact<A> as SeqAccess<T>>::size_hint, (&access,), hint)
                ==> call_ensures(A::size_hint, (&access.0,), hint),
{
}

/// Entries: every seed handed to a map accessor tagged `Compact` reaches the accessor it wraps
/// under `Compact`; the outcomes, failures too, and the size hint are the inner accessor's.
pub proof fn compact_map_access_is_inner_map_access<K, V, A: MapAccess<Compact<K>, Compact<V>>>(
    kseed: K,
    vseed: V,
    key: Result<Option<A::Key>, A::Error>,
    value: Result<A::Value, A::Error>,
    entry: Result<Option<(A::Key, A::Value)>, A::Error>,
    hint: Option<usize>,
)
    ensures
        forall|access: &mut Compact<A>|
            call_ensures(<Compact<A> as MapAccess<K, V>>::next_key_seed, (access, kseed), key)
                ==> exists|inner: &mut A|
                *inner == (*access).0 && *final(inner) == (*final(access)).0 && call_ensures(
                    A::next_key_seed,
                    (inner, Compact(kseed)),
                    key,
                ),
        forall|access: &mut Compact<A>|
            call_ensures(<Compact<A> as MapAccess<K, V>>::next_value_seed, (access, vseed), value)
                ==> exists|inner: &mut A|
                *inner == (*access).0 && *final(inner) == (*final(access)).0 && call_ensures(
                    A::next_value_seed,
                    (inner, Compact(vseed)),
                    value,
                ),
        forall|access: &mut Compact<A>|
            call_ensures(
                <Compact<A> as MapAccess<K, V>>::next_entry_seed,
                (access, kseed, vseed),
                entry,
            ) ==> exists|inner: &mut A|
                *inner == (*access).0 && *final(inner) == (*final(access)).0 && call_ensures(
                    A::next_entry_seed,
                    (inner, Compact(kseed), Compact(vseed)),
                    entry,
                ),
        forall|access: Compact<A>|
            call_ensures(<Compact<A> as MapAccess<K, V>>::size_hint, (&access,), hint)
                ==> call_ensures(A::size_hint, (&access.0,), hint),
{
}

/// Variants: the seed handed to an enum accessor tagged `Compact` reaches the accessor it wraps
/// under `Compact`, and the accessor of the payload comes back under `Compact`; a failure is the
/// inner accessor's.
pub proof fn compact_enum_access_is_inner_enum_access<T, A: EnumAccess<Compact<T>>>(
    access: A,
    seed: T,
    outcome: Result<(A::Value, Compact<A::Variant>), A::Error>,
)
    ensures
        call_ensures(
            <Compact<A> as EnumAccess<T>>::variant_seed,
            (Compact(access), seed),
            outcome,
        ) ==> call_ensures(
            A::variant_seed,
            (access, Compact(seed)),
            Compact::untagged_variant(outcome),
        ),
        outcome matches Ok((value, variant)) ==> Compact::untagged_variant(outcome) == Ok::<
            (A::Value, A::Variant),
            A::Error,
        >((value, variant.0)),
        outcome matches Err(failure) ==> Compact::untagged_variant(outcome) == Err::<
            (A::Value, A::Variant),
            A::Error,
        >(failure),
{
}

/// Payloads of variants: a seed or a visitor handed to a variant accessor tagged `Compact` reaches
/// the accessor it wraps under `Compact`, with the arity and the field names as they were given;
/// the outcome, a failure too, is the inner accessor's.
pub proof fn compact_variant_access_is_inner_variant_access<T, V, A>(
    access: A,
    seed: T,
    visitor: V,
    len: usize,
    fields: &'static [&'static str],
    unit: Result<(), A::Error>,
    value: Result<A::Value, A::Error>,
    output: Result<A::Output, A::Error>,
)
    where
        A: VariantAccess<Compact<T>, Compact<V>>,
    ensures
        call_ensures(<Compact<A> as VariantAccess<T, V>>::unit_variant, (Compact(access),), unit)
            ==> call_ensures(A::unit_variant, (access,), unit),
        call_ensures(
            <Compact<A> as VariantAccess<T, V>>::newtype_variant_seed,
            (Compact(access), seed),
            value,
        ) ==> call_ensures(A::newtype_variant_seed, (access, Compact(seed)), value),
        call_ensures(
            <Compact<A> as VariantAccess<T, V>>::tuple_variant,
            (Compact(access), len, visitor),
            output,
        ) ==> call_ensures(A::tuple_variant, (access, len, Compact(visitor)), output),
        call_ensures(
            <Compact<A> as VariantAccess<T, V>>::struct_variant,
            (Compact(access), fields, visitor),
            output,
        ) ==> call_ensures(A::struct_variant, (access, fields, Compact(visitor)), output),
{
}

/// Wrapping twice: an engine tagged `Readable` and then `Readable` answers `true`, as the tag
/// applied last says, and makes of every request one call of the same request on the innermost
/// engine: a name, an arity and a list of fields arrive as they were given, and the visitor arrives
/// under `Readable` over `Readable`. The statement names one request of each kind; the others of a
/// kind have contracts of the same shape.
pub proof fn readable_over_readable_decoder<V, D: Deserializer<Readable<Readable<V>>>>(
    engine: D,
    visitor: V,
    name: &'static str,
    fields: &'static [&'static str],
    answer: bool,
    outcome: Result<D::Value, D::Error>,
)
    ensures
        call_ensures(
            <Readable<Readable<D>> as Deserializer<V>>::is_human_readable,
            (&Readable(Readable(engine)),),
            answer,
        ) ==> answer == true,
        call_ensures(
            <Readable<Readable<D>> as Deserializer<V>>::deserialize_any,
            (Readable(Readable(engine)), visitor),
            outcome,
        ) ==> call_ensures(D::deserialize_any, (engine, Readable(Readable(visitor))), outcome),
        call_ensures(
            <Readable<Readable<D>> as Deserializer<V>>::deserialize_struct,
            (Readable(Readable(engine)), name, fields, visitor),
            outcome,
        ) ==> call_ensures(
            D::deserialize_struct,
            (engine, name, fields, Readable(Readable(visitor))),
            outcome,
        ),
{
}

/// Wrapping twice: a seed tagged `Readable` and then `Readable` decodes with its payload from the
/// engine under `Readable` and then `Readable`, which answers `true`: the payload observes the tag
/// that stands next to it.
pub proof fn readable_over_readable_seed<D, V, T>(
    seed: T,
    engine: D,
    outcome: Result<T::Value, T::Error>,
    answer: bool,
)
    where
        T: DeserializeSeed<Readable<Readable<D>>>,
        D: Deserializer<Readable<Readable<V>>>,
    ensures
        call_ensures(
            <Readable<Readable<T>> as DeserializeSeed<D>>::deserialize,
            (Readable(Readable(seed)), engine),
            outcome,
        ) ==> call_ensures(T::deserialize, (seed, Readable(Readable(engine))), outcome),
        call_ensures(
            <Readable<Readable<D>> as Deserializer<V>>::is_human_readable,
            (&Readable(Readable(engine)),),
            answer,
        ) ==> answer == true,
{
}

/// Wrapping twice: a value tagged `Readable` and then `Readable` is decoded by decoding its payload
/// from the engine under `Readable` and then `Readable`, which answers `true`.
pub proof fn readable_over_readable_decoded_value<D, V, T>(
    engine: D,
    outcome: Result<Readable<Readable<T>>, T::Error>,
    answer: bool,
)
    where
        T: Deserialize<Readable<Readable<D>>>,
        D: Deserializer<Readable<Readable<V>>>,
    ensures
        call_ensures(<Readable<Readable<T>> as Deserialize<D>>::deserialize, (engine,), outcome)
            ==> call_ensures(
            T::deserialize,
            (Readable(Readable(engine)),),
            Readable::untagged(Readable::untagged(outcome)),
        ),
        call_ensures(
            <Readable<Readable<D>> as Deserializer<V>>::is_human_readable,
            (&Readable(Readable(engine)),),
            answer,
        ) ==> answer == true,
{
}

/// Wrapping twice: an engine tagged `Compact` and then `Readable` answers `true`, as the tag
/// applied last says, and makes of every request one call of the same request on the innermost
/// engine: a name, an arity and a list of fields arrive as they were given, and the visitor arrives
/// under `Compact` over `Readable`. The statement names one request of each kind; the others of a
/// kind have contracts of the same shape.
pub proof fn readable_over_compact_decoder<V, D: Deserializer<Compact<Readable<V>>>>(
    engine: D,
    visitor: V,
    name: &'static str,
    fields: &'static [&'static str],
    answer: bool,
    outcome: Result<D::Value, D::Error>,
)
    ensures
        call_ensures(
            <Readable<Compact<D>> as Deserializer<V>>::is_human_readable,
            (&Readable(Compact(engine)),),
            answer,
        ) ==> answer == true,
        call_ensures(
            <Readable<Compact<D>> as Deserializer<V>>::deserialize_any,
            (Readable(Compact(engine)), visitor),
            outcome,
        ) ==> call_ensures(D::deserialize_any, (engine, Compact(Readable(visitor))), outcome),
        call_ensures(
            <Readable<Compact<D>> as Deserializer<V>>::deserialize_struct,
            (Readable(Compact(engine)), name, fields, visitor),
            outcome,
        ) ==> call_ensures(
            D::deserialize_struct,
            (engine, name, fields, Compact(Readable(visitor))),
            outcome,
        ),
{
}

/// Wrapping twice: a seed tagged `Compact` and then `Readable` decodes with its payload from the
/// engine under `Readable` and then `Compact`, which answers `false`: the payload observes the tag
/// that stands next to it.
pub proof fn readable_over_compact_seed<D, V, T>(
    seed: T,
    engine: D,
    outcome: Result<T::Value, T::Error>,
    answer: bool,
)
    where
        T: DeserializeSeed<Compact<Readable<D>>>,
        D: Deserializer<Readable<Compact<V>>>,
    ensures
        call_ensures(
            <Readable<Compact<T>> as DeserializeSeed<D>>::deserialize,
            (Readable(Compact(seed)), engine),
            outcome,
        ) ==> call_ensures(T::deserialize, (seed, Compact(Readable(engine))), outcome),
        call_ensures(
            <Compact<Readable<D>> as Deserializer<V>>::is_human_readable,
            (&Compact(Readable(engine)),),
            answer,
        ) ==> answer == false,
{
}

/// Wrapping twice: a value tagged `Compact` and then `Readable` is decoded by decoding its payload
/// from the engine under `Readable` and then `Compact`, which answers `false`.
pub proof fn readable_over_compact_decoded_value<D, V, T>(
    engine: D,
    outcome: Result<Readable<Compact<T>>, T::Error>,
    answer: bool,
)
    where
        T: Deserialize<Compact<Readable<D>>>,
        D: Deserializer<Readable<Compact<V>>>,
    ensures
        call_ensures(<Readable<Compact<T>> as Deserialize<D>>::deserialize, (engine,), outcome)
            ==> call_ensures(
            T::deserialize,
            (Compact(Readable(engine)),),
            Compact::untagged(Readable::untagged(outcome)),
        ),
        call_ensures(
            <Compact<Readable<D>> as Deserializer<V>>::is_human_readable,
            (&Compact(Readable(engine)),),
            answer,
        ) ==> answer == false,
{
}

/// Wrapping twice: an engine tagged `Readable` and then `Compact` answers `false`, as the tag
/// applied last says, and makes of every request one call of the same request on the innermost
/// engine: a name, an arity and a list of fields arrive as they were given, and the visitor arrives
/// under `Readable` over `Compact`. The statement names one request of each kind; the others of a
/// kind have contracts of the same shape.
pub proof fn compact_over_readable_decoder<V, D: Deserializer<Readable<Compact<V>>>>(
    engine: D,
    visitor: V,
    name: &'static str,
    fields: &'static [&'static str],
    answer: bool,
    outcome: Result<D::Value, D::Error>,
)
    ensures
        call_ensures(
            <Compact<Readable<D>> as Deserializer<V>>::is_human_readable,
            (&Compact(Readable(engine)),),
            answer,
        ) ==> answer == false,
        call_ensures(
            <Compact<Readable<D>> as Deserializer<V>>::deserialize_any,
            (Compact(Readable(engine)), visitor),
            outcome,
        ) ==> call_ensures(D::deserialize_any, (engine, Readable(Compact(visitor))), outcome),
        call_ensures(
            <Compact<Readable<D>> as Deserializer<V>>::deserialize_struct,
            (Compact(Readable(engine)), name, fields, visitor),
            outcome,
        ) ==> call_ensures(
            D::deserialize_struct,
            (engine, name, fields, Readable(Compact(visitor))),
            outcome,
        ),
{
}

/// Wrapping twice: a seed tagged `Readable` and then `Compact` decodes with its payload from the
/// engine under `Compact` and then `Readable`, which answers `true`: the payload observes the tag
/// that stands next to it.
pub proof fn compact_over_readable_seed<D, V, T>(
    seed: T,
    engine: D,
    outcome: Result<T::Value, T::Error>,
    answer: bool,
)
    where
        T: DeserializeSeed<Readable<Compact<D>>>,
        D: Deserializer<Compact<Readable<V>>>,
    ensures
        call_ensures(
            <Compact<Readable<T>> as DeserializeSeed<D>>::deserialize,
            (Compact(Readable(seed)), engine),
            outcome,
        ) ==> call_ensures(T::deserialize, (seed, Readable(Compact(engine))), outcome),
        call_ensures(
            <Readable<Compact<D>> as Deserializer<V>>::is_human_readable,
            (&Readable(Compact(engine)),),
            answer,
        ) ==> answer == true,
{
}

/// Wrapping twice: a value tagged `Readable` and then `Compact` is decoded by decoding its payload
/// from the engine under `Compact` and then `Readable`, which answers `true`.
pub proof fn compact_over_readable_decoded_value<D, V, T>(
    engine: D,
    outcome: Result<Compact<Readable<T>>, T::Error>,
    answer: bool,
)
    where
        T: Deserialize<Readable<Compact<D>>>,
        D: Deserializer<Compact<Readable<V>>>,
    ensures
        call_ensures(<Compact<Readable<T>> as Deserialize<D>>::deserialize, (engine,), outcome)
            ==> call_ensures(
            T::deserialize,
            (Readable(Compact(engine)),),
            Readable::untagged(Compact::untagged(outcome)),
        ),
        call_ensures(
            <Readable<Compact<D>> as Deserializer<V>>::is_human_readable,
            (&Readable(Compact(engine)),),
            answer,
        ) ==> answer == true,
{
}

/// Wrapping twice: an engine tagged `Compact` and then `Compact` answers `false`, as the tag
/// applied last says, and makes of every request one call of the same request on the innermost
/// engine: a name, an arity and a list of fields arrive as they were given, and the visitor arrives
/// under `Compact` over `Compact`. The statement names one request of each kind; the others of a
/// kind have contracts of the same shape.
pub proof fn compact_over_compact_decoder<V, D: Deserializer<Compact<Compact<V>>>>(
    engine: D,
    visitor: V,
    name: &'static str,
    fields: &'static [&'static str],
    answer: bool,
    outcome: Result<D::Value, D::Error>,
)
    ensures
        call_ensures(
            <Compact<Compact<D>> as Deserializer<V>>::is_human_readable,
            (&Compact(Compact(engine)),),
            answer,
        ) ==> answer == false,
        call_ensures(
            <Compact<Compact<D>> as Deserializer<V>>::deserialize_any,
            (Compact(Compact(engine)), visitor),
            outcome,
        ) ==> call_ensures(D::deserialize_any, (engine, Compact(Compact(visitor))), outcome),
        call_ensures(
            <Compact<Compact<D>> as Deserializer<V>>::deserialize_struct,
            (Compact(Compact(engine)), name, fields, visitor),
            outcome,
        ) ==> call_ensures(
            D::deserialize_struct,
            (engine, name, fields, Compact(Compact(visitor))),
            outcome,
        ),
{
}

/// Wrapping twice: a seed tagged `Compact` and then `Compact` decodes with its payload from the
/// engine under `Compact` and then `Compact`, which answers `false`: the payload observes the tag
/// that stands next to it.
pub proof fn compact_over_compact_seed<D, V, T>(
    seed: T,
    engine: D,
    outcome: Result<T::Value, T::Error>,
    answer: bool,
)
    where
        T: DeserializeSeed<Compact<Compact<D>>>,
        D: Deserializer<Compact<Compact<V>>>,
    ensures
        call_ensures(
            <Compact<Compact<T>> as DeserializeSeed<D>>::deserialize,
            (Compact(Compact(seed)), engine),
            outcome,
        ) ==> call_ensures(T::deserialize, (seed, Compact(Compact(engine))), outcome),
        call_ensures(
            <Compact<Compact<D>> as Deserializer<V>>::is_human_readable,
            (&Compact(Compact(engine)),),
            answer,
        ) ==> answer == false,
{
}

/// Wrapping twice: a value tagged `Compact` and then `Compact` is decoded by decoding its payload
/// from the engine under `Compact` and then `Compact`, which answers `false`.
pub proof fn compact_over_compact_decoded_value<D, V, T>(
    engine: D,
    outcome: Result<Compact<Compact<T>>, T::Error>,
    answer: bool,
)
    where
        T: Deserialize<Compact<Compact<D>>>,
        D: Deserializer<Compact<Compact<V>>>,
    ensures
        call_ensures(<Compact<Compact<T>> as Deserialize<D>>::deserialize, (engine,), outcome)
            ==> call_ensures(
            T::deserialize,
            (Compact(Compact(engine)),),
            Compact::untagged(Compact::untagged(outcome)),
        ),
        call_ensures(
            <Compact<Compact<D>> as Deserializer<V>>::is_human_readable,
            (&Compact(Compact(engine)),),
            answer,
        ) ==> answer == false,
{
}

} // verus!
