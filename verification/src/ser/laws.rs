//! What holds of the write side, whatever engine, builder or value is wrapped.
//!
//! Each statement speaks of outcomes: `call_ensures(f, args, outcome)` says that `outcome` is what
//! the call of `f` on `args` gave. A statement that assumes such a clause (under `requires`, or on
//! the left of `==>`) and concludes another says that the call on the tagged object is one call of
//! the same operation on the object it wraps. The statements hold for every type that fills a role,
//! a tagged one too: that is how they reach every depth of a value.

use crate::configure::{Compact, Readable};
use crate::ser::{
    CollectMap, CollectSeq, EntrySource, Serialize, SerializeMap, SerializeSeq, SerializeStruct,
    SerializeStructVariant, SerializeTuple, SerializeTupleStruct, SerializeTupleVariant,
    Serializer, Source,
};
use vstd::prelude::*;

verus! {

/// The mode that a value observes: a value tagged `Readable` is encoded by encoding its payload
/// into the engine under `Readable`, and that engine answers `true` to the mode query. The outcome,
/// a failure too, is the payload's own.
pub proof fn readable_value_meets_readable_engine<S, V, T>(
    value: T,
    engine: S,
    outcome: Result<T::Ok, T::Error>,
    answer: bool,
)
    where
        T: Serialize<Readable<S>>,
        S: Serializer<Readable<V>>,
    requires
        call_ensures(<Readable<T> as Serialize<S>>::serialize, (&Readable(value), engine), outcome),
        call_ensures(
            <Readable<S> as Serializer<V>>::is_human_readable,
            (&Readable(engine),),
            answer,
        ),
    ensures
        call_ensures(T::serialize, (&value, Readable(engine)), outcome),
        answer == true,
{
}

/// Single values: a present optional value, the value of a named wrapper and the payload of a
/// variant each reach the inner engine under `Readable`, with the names and the index as they were
/// given; the outcome is the inner engine's.
pub proof fn readable_single_value_is_handed_on_tagged<V, S: Serializer<Readable<V>>>(
    engine: S,
    name: &'static str,
    variant_index: u32,
    variant: &'static str,
    value: V,
    outcome: Result<S::Ok, S::Error>,
)
    ensures
        call_ensures(
            <Readable<S> as Serializer<V>>::serialize_some,
            (Readable(engine), value),
            outcome,
        ) ==> call_ensures(S::serialize_some, (engine, Readable(value)), outcome),
        call_ensures(
            <Readable<S> as Serializer<V>>::serialize_newtype_struct,
            (Readable(engine), name, value),
            outcome,
        ) ==> call_ensures(S::serialize_newtype_struct, (engine, name, Readable(value)), outcome),
        call_ensures(
            <Readable<S> as Serializer<V>>::serialize_newtype_variant,
            (Readable(engine), name, variant_index, variant, value),
            outcome,
        ) ==> call_ensures(
            S::serialize_newtype_variant,
            (engine, name, variant_index, variant, Readable(value)),
            outcome,
        ),
{
}

/// A sequence begun on a `Readable` engine is the same sequence begun on the inner engine: the
/// builder is the inner engine's builder under `Readable`, what is added reaches the inner builder
/// under `Readable`, and every outcome, a failure too, is the inner one.
pub proof fn readable_seq_is_inner_seq<V, S: Serializer<Readable<V>>>(
    engine: S,
    len: Option<usize>,
    value: V,
    begun: Result<Readable<S::SerializeSeq>, S::Error>,
    added: Result<(), S::Error>,
    closed: Result<S::Ok, S::Error>,
)
    requires
        call_ensures(
            <Readable<S> as Serializer<V>>::serialize_seq,
            (Readable(engine), len),
            begun,
        ),
    ensures
        call_ensures(S::serialize_seq, (engine, len), Readable::untagged(begun)),
        begun matches Ok(builder) ==> Readable::untagged(begun) == Ok::<
            S::SerializeSeq,
            S::Error,
        >(builder.0),
        begun matches Err(failure) ==> Readable::untagged(begun) == Err::<
            S::SerializeSeq,
            S::Error,
        >(failure),
        forall|builder: &mut Readable<S::SerializeSeq>|
            call_ensures(
                <Readable<S::SerializeSeq> as SerializeSeq<V>>::serialize_element,
                (builder, value),
                added,
            ) ==> exists|inner: &mut S::SerializeSeq|
                *inner == (*builder).0 && *final(inner) == (*final(builder)).0
                    && call_ensures(
                    <S::SerializeSeq as SerializeSeq<Readable<V>>>::serialize_element,
                    (inner, Readable(value)),
                    added,
                ),
        forall|builder: Readable<S::SerializeSeq>|
            call_ensures(
                <Readable<S::SerializeSeq> as SerializeSeq<V>>::end,
                (builder,),
                closed,
            ) ==> call_ensures(
                <S::SerializeSeq as SerializeSeq<Readable<V>>>::end,
                (builder.0,),
                closed,
            ),
{
}

/// A tuple begun on a `Readable` engine is the same tuple begun on the inner engine: the builder is
/// the inner engine's builder under `Readable`, what is added reaches the inner builder under
/// `Readable`, and every outcome, a failure too, is the inner one.
pub proof fn readable_tuple_is_inner_tuple<V, S: Serializer<Readable<V>>>(
    engine: S,
    len: usize,
    value: V,
    begun: Result<Readable<S::SerializeTuple>, S::Error>,
    added: Result<(), S::Error>,
    closed: Result<S::Ok, S::Error>,
)
    requires
        call_ensures(
            <Readable<S> as Serializer<V>>::serialize_tuple,
            (Readable(engine), len),
            begun,
        ),
    ensures
        call_ensures(S::serialize_tuple, (engine, len), Readable::untagged(begun)),
        begun matches Ok(builder) ==> Readable::untagged(begun) == Ok::<
            S::SerializeTuple,
            S::Error,
        >(builder.0),
        begun matches Err(failure) ==> Readable::untagged(begun) == Err::<
            S::SerializeTuple,
            S::Error,
        >(failure),
        forall|builder: &mut Readable<S::SerializeTuple>|
            call_ensures(
                <Readable<S::SerializeTuple> as SerializeTuple<V>>::serialize_element,
                (builder, value),
                added,
            ) ==> exists|inner: &mut S::SerializeTuple|
                *inner == (*builder).0 && *final(inner) == (*final(builder)).0
                    && call_ensures(
                    <S::SerializeTuple as SerializeTuple<Readable<V>>>::serialize_element,
                    (inner, Readable(value)),
                    added,
                ),
        forall|builder: Readable<S::SerializeTuple>|
            call_ensures(
                <Readable<S::SerializeTuple> as SerializeTuple<V>>::end,
                (builder,),
                closed,
            ) ==> call_ensures(
                <S::SerializeTuple as SerializeTuple<Readable<V>>>::end,
                (builder.0,),
                closed,
            ),
{
}

/// A named tuple begun on a `Readable` engine is the same named tuple begun on the inner engine:
/// the builder is the inner engine's builder under `Readable`, what is added reaches the inner
/// builder under `Readable`, and every outcome, a failure too, is the inner one.
pub proof fn readable_tuple_struct_is_inner_tuple_struct<V, S: Serializer<Readable<V>>>(
    engine: S,
    name: &'static str,
    len: usize,
    value: V,
    begun: Result<Readable<S::SerializeTupleStruct>, S::Error>,
    added: Result<(), S::Error>,
    closed: Result<S::Ok, S::Error>,
)
    requires
        call_ensures(
            <Readable<S> as Serializer<V>>::serialize_tuple_struct,
            (Readable(engine), name, len),
            begun,
        ),
    ensures
        call_ensures(S::serialize_tuple_struct, (engine, name, len), Readable::untagged(begun)),
        begun matches Ok(builder) ==> Readable::untagged(begun) == Ok::<
            S::SerializeTupleStruct,
            S::Error,
        >(builder.0),
        begun matches Err(failure) ==> Readable::untagged(begun) == Err::<
            S::SerializeTupleStruct,
            S::Error,
        >(failure),
        forall|builder: &mut Readable<S::SerializeTupleStruct>|
            call_ensures(
                <Readable<S::SerializeTupleStruct> as SerializeTupleStruct<V>>::serialize_field,
                (builder, value),
                added,
            ) ==> exists|inner: &mut S::SerializeTupleStruct|
                *inner == (*builder).0 && *final(inner) == (*final(builder)).0
                    && call_ensures(
                    <S::SerializeTupleStruct as SerializeTupleStruct<Readable<V>>>::serialize_field,
                    (inner, Readable(value)),
                    added,
                ),
        forall|builder: Readable<S::SerializeTupleStruct>|
            call_ensures(
                <Readable<S::SerializeTupleStruct> as SerializeTupleStruct<V>>::end,
                (builder,),
                closed,
            ) ==> call_ensures(
                <S::SerializeTupleStruct as SerializeTupleStruct<Readable<V>>>::end,
                (builder.0,),
                closed,
            ),
{
}

/// A tuple variant begun on a `Readable` engine is the same tuple variant begun on the inner
/// engine: the builder is the inner engine's builder under `Readable`, what is added reaches the
/// inner builder under `Readable`, and every outcome, a failure too, is the inner one.
pub proof fn readable_tuple_variant_is_inner_tuple_variant<V, S: Serializer<Readable<V>>>(
    engine: S,
    name: &'static str,
    variant_index: u32,
    variant: &'static str,
    len: usize,
    value: V,
    begun: Result<Readable<S::SerializeTupleVariant>, S::Error>,
    added: Result<(), S::Error>,
    closed: Result<S::Ok, S::Error>,
)
    requires
        call_ensures(
            <Readable<S> as Serializer<V>>::serialize_tuple_variant,
            (Readable(engine), name, variant_index, variant, len),
            begun,
        ),
    ensures
        call_ensures(
            S::serialize_tuple_variant,
            (engine, name, variant_index, variant, len),
            Readable::untagged(begun),
        ),
        begun matches Ok(builder) ==> Readable::untagged(begun) == Ok::<
            S::SerializeTupleVariant,
            S::Error,
        >(builder.0),
        begun matches Err(failure) ==> Readable::untagged(begun) == Err::<
            S::SerializeTupleVariant,
            S::Error,
        >(failure),
        forall|builder: &mut Readable<S::SerializeTupleVariant>|
            call_ensures(
                <Readable<S::SerializeTupleVariant> as SerializeTupleVariant<V>>::serialize_field,
                (builder, value),
                added,
            ) ==> exists|inner: &mut S::SerializeTupleVariant|
                *inner == (*builder).0 && *final(inner) == (*final(builder)).0
                    && call_ensures(
                    <S::SerializeTupleVariant as SerializeTupleVariant<
                        Readable<V>,
                    >>::serialize_field,
                    (inner, Readable(value)),
                    added,
                ),
        forall|builder: Readable<S::SerializeTupleVariant>|
            call_ensures(
                <Readable<S::SerializeTupleVariant> as SerializeTupleVariant<V>>::end,
                (builder,),
                closed,
            ) ==> call_ensures(
                <S::SerializeTupleVariant as SerializeTupleVariant<Readable<V>>>::end,
                (builder.0,),
                closed,
            ),
{
}

/// A map begun on a `Readable` engine is the same map begun on the inner engine: the builder is the
/// inner engine's builder under `Readable`, what is added reaches the inner builder under
/// `Readable`, and every outcome, a failure too, is the inner one.
pub proof fn readable_map_is_inner_map<V, S: Serializer<Readable<V>>>(
    engine: S,
    len: Option<usize>,
    value: V,
    begun: Result<Readable<S::SerializeMap>, S::Error>,
    added: Result<(), S::Error>,
    closed: Result<S::Ok, S::Error>,
)
    requires
        call_ensures(
            <Readable<S> as Serializer<V>>::serialize_map,
            (Readable(engine), len),
            begun,
        ),
    ensures
        call_ensures(S::serialize_map, (engine, len), Readable::untagged(begun)),
        begun matches Ok(builder) ==> Readable::untagged(begun) == Ok::<
            S::SerializeMap,
            S::Error,
        >(builder.0),
        begun matches Err(failure) ==> Readable::untagged(begun) == Err::<
            S::SerializeMap,
            S::Error,
        >(failure),
        forall|builder: &mut Readable<S::SerializeMap>|
            call_ensures(
                <Readable<S::SerializeMap> as SerializeMap<V, V>>::serialize_key,
                (builder, value),
                added,
            ) ==> exists|inner: &mut S::SerializeMap|
                *inner == (*builder).0 && *final(inner) == (*final(builder)).0
                    && call_ensures(
                    <S::SerializeMap as SerializeMap<Readable<V>, Readable<V>>>::serialize_key,
                    (inner, Readable(value)),
                    added,
                ),
        forall|builder: &mut Readable<S::SerializeMap>|
            call_ensures(
                <Readable<S::SerializeMap> as SerializeMap<V, V>>::serialize_value,
                (builder, value),
                added,
            ) ==> exists|inner: &mut S::SerializeMap|
                *inner == (*builder).0 && *final(inner) == (*final(builder)).0
                    && call_ensures(
                    <S::SerializeMap as SerializeMap<Readable<V>, Readable<V>>>::serialize_value,
                    (inner, Readable(value)),
                    added,
                ),
        forall|builder: &mut Readable<S::SerializeMap>|
            call_ensures(
                <Readable<S::SerializeMap> as SerializeMap<V, V>>::serialize_entry,
                (builder, value, value),
                added,
            ) ==> exists|inner: &mut S::SerializeMap|
                *inner == (*builder).0 && *final(inner) == (*final(builder)).0
                    && call_ensures(
                    <S::SerializeMap as SerializeMap<Readable<V>, Readable<V>>>::serialize_entry,
                    (inner, Readable(value), Readable(value)),
                    added,
                ),
        forall|builder: Readable<S::SerializeMap>|
            call_ensures(
                <Readable<S::SerializeMap> as SerializeMap<V, V>>::end,
                (builder,),
                closed,
            ) ==> call_ensures(
                <S::SerializeMap as SerializeMap<Readable<V>, Readable<V>>>::end,
                (builder.0,),
                closed,
            ),
{
}

/// A struct begun on a `Readable` engine is the same struct begun on the inner engine: the builder
/// is the inner engine's builder under `Readable`, what is added reaches the inner builder under
/// `Readable`, and every outcome, a failure too, is the inner one.
pub proof fn readable_struct_is_inner_struct<V, S: Serializer<Readable<V>>>(
    engine: S,
    name: &'static str,
    len: usize,
    key: &'static str,
    value: V,
    begun: Result<Readable<S::SerializeStruct>, S::Error>,
    added: Result<(), S::Error>,
    closed: Result<S::Ok, S::Error>,
)
    requires
        call_ensures(
            <Readable<S> as Serializer<V>>::serialize_struct,
            (Readable(engine), name, len),
            begun,
        ),
    ensures
        call_ensures(S::serialize_struct, (engine, name, len), Readable::untagged(begun)),
        begun matches Ok(builder) ==> Readable::untagged(begun) == Ok::<
            S::SerializeStruct,
            S::Error,
        >(builder.0),
        begun matches Err(failure) ==> Readable::untagged(begun) == Err::<
            S::SerializeStruct,
            S::Error,
        >(failure),
        forall|builder: &mut Readable<S::SerializeStruct>|
            call_ensures(
                <Readable<S::SerializeStruct> as SerializeStruct<V>>::serialize_field,
                (builder, key, value),
                added,
            ) ==> exists|inner: &mut S::SerializeStruct|
                *inner == (*builder).0 && *final(inner) == (*final(builder)).0
                    && call_ensures(
                    <S::SerializeStruct as SerializeStruct<Readable<V>>>::serialize_field,
                    (inner, key, Readable(value)),
                    added,
                ),
        forall|builder: &mut Readable<S::SerializeStruct>|
            call_ensures(
                <Readable<S::SerializeStruct> as SerializeStruct<V>>::skip_field,
                (builder, key),
                added,
            ) ==> exists|inner: &mut S::SerializeStruct|
                *inner == (*builder).0 && *final(inner) == (*final(builder)).0
                    && call_ensures(
                    <S::SerializeStruct as SerializeStruct<Readable<V>>>::skip_field,
                    (inner, key),
                    added,
                ),
        forall|builder: Readable<S::SerializeStruct>|
            call_ensures(
                <Readable<S::SerializeStruct> as SerializeStruct<V>>::end,
                (builder,),
                closed,
            ) ==> call_ensures(
                <S::SerializeStruct as SerializeStruct<Readable<V>>>::end,
                (builder.0,),
                closed,
            ),
{
}

/// A struct variant begun on a `Readable` engine is the same struct variant begun on the inner
/// engine: the builder is the inner engine's builder under `Readable`, what is added reaches the
/// inner builder under `Readable`, and every outcome, a failure too, is the inner one.
pub proof fn readable_struct_variant_is_inner_struct_variant<V, S: Serializer<Readable<V>>>(
    engine: S,
    name: &'static str,
    variant_index: u32,
    variant: &'static str,
    len: usize,
    key: &'static str,
    value: V,
    begun: Result<Readable<S::SerializeStructVariant>, S::Error>,
    added: Result<(), S::Error>,
    closed: Result<S::Ok, S::Error>,
)
    requires
        call_ensures(
            <Readable<S> as Serializer<V>>::serialize_struct_variant,
            (Readable(engine), name, variant_index, variant, len),
            begun,
        ),
    ensures
        call_ensures(
            S::serialize_struct_variant,
            (engine, name, variant_index, variant, len),
            Readable::untagged(begun),
        ),
        begun matches Ok(builder) ==> Readable::untagged(begun) == Ok::<
            S::SerializeStructVariant,
            S::Error,
        >(builder.0),
        begun matches Err(failure) ==> Readable::untagged(begun) == Err::<
            S::SerializeStructVariant,
            S::Error,
        >(failure),
        forall|builder: &mut Readable<S::SerializeStructVariant>|
            call_ensures(
                <Readable<S::SerializeStructVariant> as SerializeStructVariant<V>>::serialize_field,
                (builder, key, value),
                added,
            ) ==> exists|inner: &mut S::SerializeStructVariant|
                *inner == (*builder).0 && *final(inner) == (*final(builder)).0
                    && call_ensures(
                    <S::SerializeStructVariant as SerializeStructVariant<
                        Readable<V>,
                    >>::serialize_field,
                    (inner, key, Readable(value)),
                    added,
                ),
        forall|builder: &mut Readable<S::SerializeStructVariant>|
            call_ensures(
                <Readable<S::SerializeStructVariant> as SerializeStructVariant<V>>::skip_field,
                (builder, key),
                added,
            ) ==> exists|inner: &mut S::SerializeStructVariant|
                *inner == (*builder).0 && *final(inner) == (*final(builder)).0
                    && call_ensures(
                    <S::SerializeStructVariant as SerializeStructVariant<Readable<V>>>::skip_field,
                    (inner, key),
                    added,
                ),
        forall|builder: Readable<S::SerializeStructVariant>|
            call_ensures(
                <Readable<S::SerializeStructVariant> as SerializeStructVariant<V>>::end,
                (builder,),
                closed,
            ) ==> call_ensures(
                <S::SerializeStructVariant as SerializeStructVariant<Readable<V>>>::end,
                (builder.0,),
                closed,
            ),
{
}

/// Lazy sources: a source handed to a `Readable` engine reaches the inner engine under `Readable`
/// with nothing drawn from it. What is drawn from the tagged source afterwards is one element of
/// the source, tagged when it is drawn, and the size hint is the source's own.
pub proof fn readable_source_is_tagged_as_it_is_drawn<I: Source, S: CollectSeq<Readable<I>>>(
    engine: S,
    source: I,
    outcome: Result<S::Ok, S::Error>,
    drawn: Option<Readable<I::Item>>,
    hint: (usize, Option<usize>),
)
    ensures
        call_ensures(
            <Readable<S> as CollectSeq<I>>::collect_seq,
            (Readable(engine), source),
            outcome,
        ) ==> call_ensures(S::collect_seq, (engine, Readable(source)), outcome),
        forall|tagged: &mut Readable<I>|
            call_ensures(<Readable<I> as Source>::next, (tagged,), drawn) ==> exists|inner: &mut I|
                *inner == (*tagged).0 && *final(inner) == (*final(tagged)).0 && call_ensures(
                    I::next,
                    (inner,),
                    Readable::untagged_item(drawn),
                ),
        forall|tagged: Readable<I>|
            call_ensures(<Readable<I> as Source>::size_hint, (&tagged,), hint) ==> call_ensures(
                I::size_hint,
                (&tagged.0,),
                hint,
            ),
{
}

/// Lazy sources of entries: a source handed to a `Readable` engine reaches the inner engine under
/// `Readable` with nothing drawn from it. What is drawn from the tagged source afterwards is one
/// entry of the source, its key and its value tagged when it is drawn, and the size hint is the
/// source's own.
pub proof fn readable_entries_are_tagged_as_they_are_drawn<I, S>(
    engine: S,
    source: I,
    outcome: Result<S::Ok, S::Error>,
    drawn: Option<(Readable<I::Key>, Readable<I::Value>)>,
    hint: (usize, Option<usize>),
)
    where
        I: EntrySource,
        S: CollectMap<Readable<I>>,
    ensures
        call_ensures(
            <Readable<S> as CollectMap<I>>::collect_map,
            (Readable(engine), source),
            outcome,
        ) ==> call_ensures(S::collect_map, (engine, Readable(source)), outcome),
        forall|tagged: &mut Readable<I>|
            call_ensures(<Readable<I> as EntrySource>::next_entry, (tagged,), drawn)
                ==> exists|inner: &mut I|
                *inner == (*tagged).0 && *final(inner) == (*final(tagged)).0 && call_ensures(
                    I::next_entry,
                    (inner,),
                    Readable::untagged_entry(drawn),
                ),
        forall|tagged: Readable<I>|
            call_ensures(<Readable<I> as EntrySource>::size_hint, (&tagged,), hint)
                ==> call_ensures(I::size_hint, (&tagged.0,), hint),
{
}

/// The mode that a value observes: a value tagged `Compact` is encoded by encoding its payload into
/// the engine under `Compact`, and that engine answers `false` to the mode query. The outcome, a
/// failure too, is the payload's own.
pub proof fn compact_value_meets_compact_engine<S, V, T>(
    value: T,
    engine: S,
    outcome: Result<T::Ok, T::Error>,
    answer: bool,
)
    where
        T: Serialize<Compact<S>>,
        S: Serializer<Compact<V>>,
    requires
        call_ensures(<Compact<T> as Serialize<S>>::serialize, (&Compact(value), engine), outcome),
        call_ensures(
            <Compact<S> as Serializer<V>>::is_human_readable,
            (&Compact(engine),),
            answer,
        ),
    ensures
        call_ensures(T::serialize, (&value, Compact(engine)), outcome),
        answer == false,
{
}

/// Single values: a present optional value, the value of a named wrapper and the payload of a
/// variant each reach the inner engine under `Compact`, with the names and the index as they were
/// given; the outcome is the inner engine's.
pub proof fn compact_single_value_is_handed_on_tagged<V, S: Serializer<Compact<V>>>(
    engine: S,
    name: &'static str,
    variant_index: u32,
    variant: &'static str,
    value: V,
    outcome: Result<S::Ok, S::Error>,
)
    ensures
        call_ensures(
            <Compact<S> as Serializer<V>>::serialize_some,
            (Compact(engine), value),
            outcome,
        ) ==> call_ensures(S::serialize_some, (engine, Compact(value)), outcome),
        call_ensures(
            <Compact<S> as Serializer<V>>::serialize_newtype_struct,
            (Compact(engine), name, value),
            outcome,
        ) ==> call_ensures(S::serialize_newtype_struct, (engine, name, Compact(value)), outcome),
        call_ensures(
            <Compact<S> as Serializer<V>>::serialize_newtype_variant,
            (Compact(engine), name, variant_index, variant, value),
            outcome,
        ) ==> call_ensures(
            S::serialize_newtype_variant,
            (engine, name, variant_index, variant, Compact(value)),
            outcome,
        ),
{
}

/// A sequence begun on a `Compact` engine is the same sequence begun on the inner engine: the
/// builder is the inner engine's builder under `Compact`, what is added reaches the inner builder
/// under `Compact`, and every outcome, a failure too, is the inner one.
pub proof fn compact_seq_is_inner_seq<V, S: Serializer<Compact<V>>>(
    engine: S,
    len: Option<usize>,
    value: V,
    begun: Result<Compact<S::SerializeSeq>, S::Error>,
    added: Result<(), S::Error>,
    closed: Result<S::Ok, S::Error>,
)
    requires
        call_ensures(
            <Compact<S> as Serializer<V>>::serialize_seq,
            (Compact(engine), len),
            begun,
        ),
    ensures
        call_ensures(S::serialize_seq, (engine, len), Compact::untagged(begun)),
        begun matches Ok(builder) ==> Compact::untagged(begun) == Ok::<
            S::SerializeSeq,
            S::Error,
        >(builder.0),
        begun matches Err(failure) ==> Compact::untagged(begun) == Err::<
            S::SerializeSeq,
            S::Error,
        >(failure),
        forall|builder: &mut Compact<S::SerializeSeq>|
            call_ensures(
                <Compact<S::SerializeSeq> as SerializeSeq<V>>::serialize_element,
                (builder, value),
                added,
            ) ==> exists|inner: &mut S::SerializeSeq|
                *inner == (*builder).0 && *final(inner) == (*final(builder)).0
                    && call_ensures(
                    <S::SerializeSeq as SerializeSeq<Compact<V>>>::serialize_element,
                    (inner, Compact(value)),
                    added,
                ),
        forall|builder: Compact<S::SerializeSeq>|
            call_ensures(
                <Compact<S::SerializeSeq> as SerializeSeq<V>>::end,
                (builder,),
                closed,
            ) ==> call_ensures(
                <S::SerializeSeq as SerializeSeq<Compact<V>>>::end,
                (builder.0,),
                closed,
            ),
{
}

/// A tuple begun on a `Compact` engine is the same tuple begun on the inner engine: the builder is
/// the inner engine's builder under `Compact`, what is added reaches the inner builder under
/// `Compact`, and every outcome, a failure too, is the inner one.
pub proof fn compact_tuple_is_inner_tuple<V, S: Serializer<Compact<V>>>(
    engine: S,
    len: usize,
    value: V,
    begun: Result<Compact<S::SerializeTuple>, S::Error>,
    added: Result<(), S::Error>,
    closed: Result<S::Ok, S::Error>,
)
    requires
        call_ensures(
            <Compact<S> as Serializer<V>>::serialize_tuple,
            (Compact(engine), len),
            begun,
        ),
    ensures
        call_ensures(S::serialize_tuple, (engine, len), Compact::untagged(begun)),
        begun matches Ok(builder) ==> Compact::untagged(begun) == Ok::<
            S::SerializeTuple,
            S::Error,
        >(builder.0),
        begun matches Err(failure) ==> Compact::untagged(begun) == Err::<
            S::SerializeTuple,
            S::Error,
        >(failure),
        forall|builder: &mut Compact<S::SerializeTuple>|
            call_ensures(
                <Compact<S::SerializeTuple> as SerializeTuple<V>>::serialize_element,
                (builder, value),
                added,
            ) ==> exists|inner: &mut S::SerializeTuple|
                *inner == (*builder).0 && *final(inner) == (*final(builder)).0
                    && call_ensures(
                    <S::SerializeTuple as SerializeTuple<Compact<V>>>::serialize_element,
                    (inner, Compact(value)),
                    added,
                ),
        forall|builder: Compact<S::SerializeTuple>|
            call_ensures(
                <Compact<S::SerializeTuple> as SerializeTuple<V>>::end,
                (builder,),
                closed,
            ) ==> call_ensures(
                <S::SerializeTuple as SerializeTuple<Compact<V>>>::end,
                (builder.0,),
                closed,
            ),
{
}

/// A named tuple begun on a `Compact` engine is the same named tuple begun on the inner engine: the
/// builder is the inner engine's builder under `Compact`, what is added reaches the inner builder
/// under `Compact`, and every outcome, a failure too, is the inner one.
pub proof fn compact_tuple_struct_is_inner_tuple_struct<V, S: Serializer<Compact<V>>>(
    engine: S,
    name: &'static str,
    len: usize,
    value: V,
    begun: Result<Compact<S::SerializeTupleStruct>, S::Error>,
    added: Result<(), S::Error>,
    closed: Result<S::Ok, S::Error>,
)
    requires
        call_ensures(
            <Compact<S> as Serializer<V>>::serialize_tuple_struct,
            (Compact(engine), name, len),
            begun,
        ),
    ensures
        call_ensures(S::serialize_tuple_struct, (engine, name, len), Compact::untagged(begun)),
        begun matches Ok(builder) ==> Compact::untagged(begun) == Ok::<
            S::SerializeTupleStruct,
            S::Error,
        >(builder.0),
        begun matches Err(failure) ==> Compact::untagged(begun) == Err::<
            S::SerializeTupleStruct,
            S::Error,
        >(failure),
        forall|builder: &mut Compact<S::SerializeTupleStruct>|
            call_ensures(
                <Compact<S::SerializeTupleStruct> as SerializeTupleStruct<V>>::serialize_field,
                (builder, value),
                added,
            ) ==> exists|inner: &mut S::SerializeTupleStruct|
                *inner == (*builder).0 && *final(inner) == (*final(builder)).0
                    && call_ensures(
                    <S::SerializeTupleStruct as SerializeTupleStruct<Compact<V>>>::serialize_field,
                    (inner, Compact(value)),
                    added,
                ),
        forall|builder: Compact<S::SerializeTupleStruct>|
            call_ensures(
                <Compact<S::SerializeTupleStruct> as SerializeTupleStruct<V>>::end,
                (builder,),
                closed,
            ) ==> call_ensures(
                <S::SerializeTupleStruct as SerializeTupleStruct<Compact<V>>>::end,
                (builder.0,),
                closed,
            ),
{
}

/// A tuple variant begun on a `Compact` engine is the same tuple variant begun on the inner engine:
/// the builder is the inner engine's builder under `Compact`, what is added reaches the inner
/// builder under `Compact`, and every outcome, a failure too, is the inner one.
pub proof fn compact_tuple_variant_is_inner_tuple_variant<V, S: Serializer<Compact<V>>>(
    engine: S,
    name: &'static str,
    variant_index: u32,
    variant: &'static str,
    len: usize,
    value: V,
    begun: Result<Compact<S::SerializeTupleVariant>, S::Error>,
    added: Result<(), S::Error>,
    closed: Result<S::Ok, S::Error>,
)
    requires
        call_ensures(
            <Compact<S> as Serializer<V>>::serialize_tuple_variant,
            (Compact(engine), name, variant_index, variant, len),
            begun,
        ),
    ensures
        call_ensures(
            S::serialize_tuple_variant,
            (engine, name, variant_index, variant, len),
            Compact::untagged(begun),
        ),
        begun matches Ok(builder) ==> Compact::untagged(begun) == Ok::<
            S::SerializeTupleVariant,
            S::Error,
        >(builder.0),
        begun matches Err(failure) ==> Compact::untagged(begun) == Err::<
            S::SerializeTupleVariant,
            S::Error,
        >(failure),
        forall|builder: &mut Compact<S::SerializeTupleVariant>|
            call_ensures(
                <Compact<S::SerializeTupleVariant> as SerializeTupleVariant<V>>::serialize_field,
                (builder, value),
                added,
            ) ==> exists|inner: &mut S::SerializeTupleVariant|
                *inner == (*builder).0 && *final(inner) == (*final(builder)).0
                    && call_ensures(
                    <S::SerializeTupleVariant as SerializeTupleVariant<
                        Compact<V>,
                    >>::serialize_field,
                    (inner, Compact(value)),
                    added,
                ),
        forall|builder: Compact<S::SerializeTupleVariant>|
            call_ensures(
                <Compact<S::SerializeTupleVariant> as SerializeTupleVariant<V>>::end,
                (builder,),
                closed,
            ) ==> call_ensures(
                <S::SerializeTupleVariant as SerializeTupleVariant<Compact<V>>>::end,
                (builder.0,),
                closed,
            ),
{
}

/// A map begun on a `Compact` engine is the same map begun on the inner engine: the builder is the
/// inner engine's builder under `Compact`, what is added reaches the inner builder under `Compact`,
/// and every outcome, a failure too, is the inner one.
pub proof fn compact_map_is_inner_map<V, S: Serializer<Compact<V>>>(
    engine: S,
    len: Option<usize>,
    value: V,
    begun: Result<Compact<S::SerializeMap>, S::Error>,
    added: Result<(), S::Error>,
    closed: Result<S::Ok, S::Error>,
)
    requires
        call_ensures(
            <Compact<S> as Serializer<V>>::serialize_map,
            (Compact(engine), len),
            begun,
        ),
    ensures
        call_ensures(S::serialize_map, (engine, len), Compact::untagged(begun)),
        begun matches Ok(builder) ==> Compact::untagged(begun) == Ok::<
            S::SerializeMap,
            S::Error,
        >(builder.0),
        begun matches Err(failure) ==> Compact::untagged(begun) == Err::<
            S::SerializeMap,
            S::Error,
        >(failure),
        forall|builder: &mut Compact<S::SerializeMap>|
            call_ensures(
                <Compact<S::SerializeMap> as SerializeMap<V, V>>::serialize_key,
                (builder, value),
                added,
            ) ==> exists|inner: &mut S::SerializeMap|
                *inner == (*builder).0 && *final(inner) == (*final(builder)).0
                    && call_ensures(
                    <S::SerializeMap as SerializeMap<Compact<V>, Compact<V>>>::serialize_key,
                    (inner, Compact(value)),
                    added,
                ),
        forall|builder: &mut Compact<S::SerializeMap>|
            call_ensures(
                <Compact<S::SerializeMap> as SerializeMap<V, V>>::serialize_value,
                (builder, value),
                added,
            ) ==> exists|inner: &mut S::SerializeMap|
                *inner == (*builder).0 && *final(inner) == (*final(builder)).0
                    && call_ensures(
                    <S::SerializeMap as SerializeMap<Compact<V>, Compact<V>>>::serialize_value,
                    (inner, Compact(value)),
                    added,
                ),
        forall|builder: &mut Compact<S::SerializeMap>|
            call_ensures(
                <Compact<S::SerializeMap> as SerializeMap<V, V>>::serialize_entry,
                (builder, value, value),
                added,
            ) ==> exists|inner: &mut S::SerializeMap|
                *inner == (*builder).0 && *final(inner) == (*final(builder)).0
                    && call_ensures(
                    <S::SerializeMap as SerializeMap<Compact<V>, Compact<V>>>::serialize_entry,
                    (inner, Compact(value), Compact(value)),
                    added,
                ),
        forall|builder: Compact<S::SerializeMap>|
            call_ensures(
                <Compact<S::SerializeMap> as SerializeMap<V, V>>::end,
                (builder,),
                closed,
            ) ==> call_ensures(
                <S::SerializeMap as SerializeMap<Compact<V>, Compact<V>>>::end,
                (builder.0,),
                closed,
            ),
{
}

/// A struct begun on a `Compact` engine is the same struct begun on the inner engine: the builder
/// is the inner engine's builder under `Compact`, what is added reaches the inner builder under
/// `Compact`, and every outcome, a failure too, is the inner one.
pub proof fn compact_struct_is_inner_struct<V, S: Serializer<Compact<V>>>(
    engine: S,
    name: &'static str,
    len: usize,
    key: &'static str,
    value: V,
    begun: Result<Compact<S::SerializeStruct>, S::Error>,
    added: Result<(), S::Error>,
    closed: Result<S::Ok, S::Error>,
)
    requires
        call_ensures(
            <Compact<S> as Serializer<V>>::serialize_struct,
            (Compact(engine), name, len),
            begun,
        ),
    ensures
        call_ensures(S::serialize_struct, (engine, name, len), Compact::untagged(begun)),
        begun matches Ok(builder) ==> Compact::untagged(begun) == Ok::<
            S::SerializeStruct,
            S::Error,
        >(builder.0),
        begun matches Err(failure) ==> Compact::untagged(begun) == Err::<
            S::SerializeStruct,
            S::Error,
        >(failure),
        forall|builder: &mut Compact<S::SerializeStruct>|
            call_ensures(
                <Compact<S::SerializeStruct> as SerializeStruct<V>>::serialize_field,
                (builder, key, value),
                added,
            ) ==> exists|inner: &mut S::SerializeStruct|
                *inner == (*builder).0 && *final(inner) == (*final(builder)).0
                    && call_ensures(
                    <S::SerializeStruct as SerializeStruct<Compact<V>>>::serialize_field,
                    (inner, key, Compact(value)),
                    added,
                ),
        forall|builder: &mut Compact<S::SerializeStruct>|
            call_ensures(
                <Compact<S::SerializeStruct> as SerializeStruct<V>>::skip_field,
                (builder, key),
                added,
            ) ==> exists|inner: &mut S::SerializeStruct|
                *inner == (*builder).0 && *final(inner) == (*final(builder)).0
                    && call_ensures(
                    <S::SerializeStruct as SerializeStruct<Compact<V>>>::skip_field,
                    (inner, key),
                    added,
                ),
        forall|builder: Compact<S::SerializeStruct>|
            call_ensures(
                <Compact<S::SerializeStruct> as SerializeStruct<V>>::end,
                (builder,),
                closed,
            ) ==> call_ensures(
                <S::SerializeStruct as SerializeStruct<Compact<V>>>::end,
                (builder.0,),
                closed,
            ),
{
}

/// A struct variant begun on a `Compact` engine is the same struct variant begun on the inner
/// engine: the builder is the inner engine's builder under `Compact`, what is added reaches the
/// inner builder under `Compact`, and every outcome, a failure too, is the inner one.
pub proof fn compact_struct_variant_is_inner_struct_variant<V, S: Serializer<Compact<V>>>(
    engine: S,
    name: &'static str,
    variant_index: u32,
    variant: &'static str,
    len: usize,
    key: &'static str,
    value: V,
    begun: Result<Compact<S::SerializeStructVariant>, S::Error>,
    added: Result<(), S::Error>,
    closed: Result<S::Ok, S::Error>,
)
    requires
        call_ensures(
            <Compact<S> as Serializer<V>>::serialize_struct_variant,
            (Compact(engine), name, variant_index, variant, len),
            begun,
        ),
    ensures
        call_ensures(
            S::serialize_struct_variant,
            (engine, name, variant_index, variant, len),
            Compact::untagged(begun),
        ),
        begun matches Ok(builder) ==> Compact::untagged(begun) == Ok::<
            S::SerializeStructVariant,
            S::Error,
        >(builder.0),
        begun matches Err(failure) ==> Compact::untagged(begun) == Err::<
            S::SerializeStructVariant,
            S::Error,
        >(failure),
        forall|builder: &mut Compact<S::SerializeStructVariant>|
            call_ensures(
                <Compact<S::SerializeStructVariant> as SerializeStructVariant<V>>::serialize_field,
                (builder, key, value),
                added,
            ) ==> exists|inner: &mut S::SerializeStructVariant|
                *inner == (*builder).0 && *final(inner) == (*final(builder)).0
                    && call_ensures(
                    <S::SerializeStructVariant as SerializeStructVariant<
                        Compact<V>,
                    >>::serialize_field,
                    (inner, key, Compact(value)),
                    added,
                ),
        forall|builder: &mut Compact<S::SerializeStructVariant>|
            call_ensures(
                <Compact<S::SerializeStructVariant> as SerializeStructVariant<V>>::skip_field,
                (builder, key),
                added,
            ) ==> exists|inner: &mut S::SerializeStructVariant|
                *inner == (*builder).0 && *final(inner) == (*final(builder)).0
                    && call_ensures(
                    <S::SerializeStructVariant as SerializeStructVariant<Compact<V>>>::skip_field,
                    (inner, key),
                    added,
                ),
        forall|builder: Compact<S::SerializeStructVariant>|
            call_ensures(
                <Compact<S::SerializeStructVariant> as SerializeStructVariant<V>>::end,
                (builder,),
                closed,
            ) ==> call_ensures(
                <S::SerializeStructVariant as SerializeStructVariant<Compact<V>>>::end,
                (builder.0,),
                closed,
            ),
{
}

/// Lazy sources: a source handed to a `Compact` engine reaches the inner engine under `Compact`
/// with nothing drawn from it. What is drawn from the tagged source afterwards is one element of
/// the source, tagged when it is drawn, and the size hint is the source's own.
pub proof fn compact_source_is_tagged_as_it_is_drawn<I: Source, S: CollectSeq<Compact<I>>>(
    engine: S,
    source: I,
    outcome: Result<S::Ok, S::Error>,
    drawn: Option<Compact<I::Item>>,
    hint: (usize, Option<usize>),
)
    ensures
        call_ensures(
            <Compact<S> as CollectSeq<I>>::collect_seq,
            (Compact(engine), source),
            outcome,
        ) ==> call_ensures(S::collect_seq, (engine, Compact(source)), outcome),
        forall|tagged: &mut Compact<I>|
            call_ensures(<Compact<I> as Source>::next, (tagged,), drawn) ==> exists|inner: &mut I|
                *inner == (*tagged).0 && *final(inner) == (*final(tagged)).0 && call_ensures(
                    I::next,
                    (inner,),
                    Compact::untagged_item(drawn),
                ),
        forall|tagged: Compact<I>|
            call_ensures(<Compact<I> as Source>::size_hint, (&tagged,), hint) ==> call_ensures(
                I::size_hint,
                (&tagged.0,),
                hint,
            ),
{
}

/// Lazy sources of entries: a source handed to a `Compact` engine reaches the inner engine under
/// `Compact` with nothing drawn from it. What is drawn from the tagged source afterwards is one
/// entry of the source, its key and its value tagged when it is drawn, and the size hint is the
/// source's own.
pub proof fn compact_entries_are_tagged_as_they_are_drawn<I, S>(
    engine: S,
    source: I,
    outcome: Result<S::Ok, S::Error>,
    drawn: Option<(Compact<I::Key>, Compact<I::Value>)>,
    hint: (usize, Option<usize>),
)
    where
        I: EntrySource,
        S: CollectMap<Compact<I>>,
    ensures
        call_ensures(
            <Compact<S> as CollectMap<I>>::collect_map,
            (Compact(engine), source),
            outcome,
        ) ==> call_ensures(S::collect_map, (engine, Compact(source)), outcome),
        forall|tagged: &mut Compact<I>|
            call_ensures(<Compact<I> as EntrySource>::next_entry, (tagged,), drawn)
                ==> exists|inner: &mut I|
                *inner == (*tagged).0 && *final(inner) == (*final(tagged)).0 && call_ensures(
                    I::next_entry,
                    (inner,),
                    Compact::untagged_entry(drawn),
                ),
        forall|tagged: Compact<I>|
            call_ensures(<Compact<I> as EntrySource>::size_hint, (&tagged,), hint)
                ==> call_ensures(I::size_hint, (&tagged.0,), hint),
{
}

/// Wrapping twice: an engine tagged `Readable` and then `Readable` answers `true`, as the tag
/// applied last says, and makes of every operation one call of the same operation on the innermost
/// engine: a scalar, a name and an index arrive as they were given, a nested value arrives under
/// `Readable` over `Readable`, and a builder comes back under `Readable` over `Readable`. The
/// statement names one operation of each kind; the others of a kind have contracts of the same
/// shape.
pub proof fn readable_over_readable_engine<V, S: Serializer<Readable<Readable<V>>>>(
    engine: S,
    v: bool,
    name: &'static str,
    variant_index: u32,
    variant: &'static str,
    len: Option<usize>,
    value: V,
    answer: bool,
    outcome: Result<S::Ok, S::Error>,
    begun: Result<Readable<Readable<S::SerializeSeq>>, S::Error>,
)
    ensures
        call_ensures(
            <Readable<Readable<S>> as Serializer<V>>::is_human_readable,
            (&Readable(Readable(engine)),),
            answer,
        ) ==> answer == true,
        call_ensures(
            <Readable<Readable<S>> as Serializer<V>>::serialize_bool,
            (Readable(Readable(engine)), v),
            outcome,
        ) ==> call_ensures(S::serialize_bool, (engine, v), outcome),
        call_ensures(
            <Readable<Readable<S>> as Serializer<V>>::serialize_none,
            (Readable(Readable(engine)),),
            outcome,
        ) ==> call_ensures(S::serialize_none, (engine,), outcome),
        call_ensures(
            <Readable<Readable<S>> as Serializer<V>>::serialize_unit_variant,
            (Readable(Readable(engine)), name, variant_index, variant),
            outcome,
        ) ==> call_ensures(
            S::serialize_unit_variant,
            (engine, name, variant_index, variant),
            outcome,
        ),
        call_ensures(
            <Readable<Readable<S>> as Serializer<V>>::serialize_some,
            (Readable(Readable(engine)), value),
            outcome,
        ) ==> call_ensures(S::serialize_some, (engine, Readable(Readable(value))), outcome),
        call_ensures(
            <Readable<Readable<S>> as Serializer<V>>::serialize_seq,
            (Readable(Readable(engine)), len),
            begun,
        ) ==> call_ensures(
            S::serialize_seq,
            (engine, len),
            Readable::untagged(Readable::untagged(begun)),
        ),
{
}

/// Wrapping twice: a value tagged `Readable` and then `Readable` is encoded by encoding its payload
/// into the engine under `Readable` and then `Readable`, which answers `true`: the payload observes
/// the tag that stands next to it.
pub proof fn readable_over_readable_value<S, V, T>(
    value: T,
    engine: S,
    outcome: Result<T::Ok, T::Error>,
    answer: bool,
)
    where
        T: Serialize<Readable<Readable<S>>>,
        S: Serializer<Readable<Readable<V>>>,
    requires
        call_ensures(
            <Readable<Readable<T>> as Serialize<S>>::serialize,
            (&Readable(Readable(value)), engine),
            outcome,
        ),
        call_ensures(
            <Readable<Readable<S>> as Serializer<V>>::is_human_readable,
            (&Readable(Readable(engine)),),
            answer,
        ),
    ensures
        call_ensures(T::serialize, (&value, Readable(Readable(engine))), outcome),
        answer == true,
{
}

/// Wrapping twice: an engine tagged `Compact` and then `Readable` answers `true`, as the tag
/// applied last says, and makes of every operation one call of the same operation on the innermost
/// engine: a scalar, a name and an index arrive as they were given, a nested value arrives under
/// `Compact` over `Readable`, and a builder comes back under `Readable` over `Compact`. The
/// statement names one operation of each kind; the others of a kind have contracts of the same
/// shape.
pub proof fn readable_over_compact_engine<V, S: Serializer<Compact<Readable<V>>>>(
    engine: S,
    v: bool,
    name: &'static str,
    variant_index: u32,
    variant: &'static str,
    len: Option<usize>,
    value: V,
    answer: bool,
    outcome: Result<S::Ok, S::Error>,
    begun: Result<Readable<Compact<S::SerializeSeq>>, S::Error>,
)
    ensures
        call_ensures(
            <Readable<Compact<S>> as Serializer<V>>::is_human_readable,
            (&Readable(Compact(engine)),),
            answer,
        ) ==> answer == true,
        call_ensures(
            <Readable<Compact<S>> as Serializer<V>>::serialize_bool,
            (Readable(Compact(engine)), v),
            outcome,
        ) ==> call_ensures(S::serialize_bool, (engine, v), outcome),
        call_ensures(
            <Readable<Compact<S>> as Serializer<V>>::serialize_none,
            (Readable(Compact(engine)),),
            outcome,
        ) ==> call_ensures(S::serialize_none, (engine,), outcome),
        call_ensures(
            <Readable<Compact<S>> as Serializer<V>>::serialize_unit_variant,
            (Readable(Compact(engine)), name, variant_index, variant),
            outcome,
        ) ==> call_ensures(
            S::serialize_unit_variant,
            (engine, name, variant_index, variant),
            outcome,
        ),
        call_ensures(
            <Readable<Compact<S>> as Serializer<V>>::serialize_some,
            (Readable(Compact(engine)), value),
            outcome,
        ) ==> call_ensures(S::serialize_some, (engine, Compact(Readable(value))), outcome),
        call_ensures(
            <Readable<Compact<S>> as Serializer<V>>::serialize_seq,
            (Readable(Compact(engine)), len),
            begun,
        ) ==> call_ensures(
            S::serialize_seq,
            (engine, len),
            Compact::untagged(Readable::untagged(begun)),
        ),
{
}

/// Wrapping twice: a value tagged `Compact` and then `Readable` is encoded by encoding its payload
/// into the engine under `Readable` and then `Compact`, which answers `false`: the payload observes
/// the tag that stands next to it.
pub proof fn readable_over_compact_value<S, V, T>(
    value: T,
    engine: S,
    outcome: Result<T::Ok, T::Error>,
    answer: bool,
)
    where
        T: Serialize<Compact<Readable<S>>>,
        S: Serializer<Readable<Compact<V>>>,
    requires
        call_ensures(
            <Readable<Compact<T>> as Serialize<S>>::serialize,
            (&Readable(Compact(value)), engine),
            outcome,
        ),
        call_ensures(
            <Compact<Readable<S>> as Serializer<V>>::is_human_readable,
            (&Compact(Readable(engine)),),
            answer,
        ),
    ensures
        call_ensures(T::serialize, (&value, Compact(Readable(engine))), outcome),
        answer == false,
{
}

/// Wrapping twice: an engine tagged `Readable` and then `Compact` answers `false`, as the tag
/// applied last says, and makes of every operation one call of the same operation on the innermost
/// engine: a scalar, a name and an index arrive as they were given, a nested value arrives under
/// `Readable` over `Compact`, and a builder comes back under `Compact` over `Readable`. The
/// statement names one operation of each kind; the others of a kind have contracts of the same
/// shape.
pub proof fn compact_over_readable_engine<V, S: Serializer<Readable<Compact<V>>>>(
    engine: S,
    v: bool,
    name: &'static str,
    variant_index: u32,
    variant: &'static str,
    len: Option<usize>,
    value: V,
    answer: bool,
    outcome: Result<S::Ok, S::Error>,
    begun: Result<Compact<Readable<S::SerializeSeq>>, S::Error>,
)
    ensures
        call_ensures(
            <Compact<Readable<S>> as Serializer<V>>::is_human_readable,
            (&Compact(Readable(engine)),),
            answer,
        ) ==> answer == false,
        call_ensures(
            <Compact<Readable<S>> as Serializer<V>>::serialize_bool,
            (Compact(Readable(engine)), v),
            outcome,
        ) ==> call_ensures(S::serialize_bool, (engine, v), outcome),
        call_ensures(
            <Compact<Readable<S>> as Serializer<V>>::serialize_none,
            (Compact(Readable(engine)),),
            outcome,
        ) ==> call_ensures(S::serialize_none, (engine,), outcome),
        call_ensures(
            <Compact<Readable<S>> as Serializer<V>>::serialize_unit_variant,
            (Compact(Readable(engine)), name, variant_index, variant),
            outcome,
        ) ==> call_ensures(
            S::serialize_unit_variant,
            (engine, name, variant_index, variant),
            outcome,
        ),
        call_ensures(
            <Compact<Readable<S>> as Serializer<V>>::serialize_some,
            (Compact(Readable(engine)), value),
            outcome,
        ) ==> call_ensures(S::serialize_some, (engine, Readable(Compact(value))), outcome),
        call_ensures(
            <Compact<Readable<S>> as Serializer<V>>::serialize_seq,
            (Compact(Readable(engine)), len),
            begun,
        ) ==> call_ensures(
            S::serialize_seq,
            (engine, len),
            Readable::untagged(Compact::untagged(begun)),
        ),
{
}

/// Wrapping twice: a value tagged `Readable` and then `Compact` is encoded by encoding its payload
/// into the engine under `Compact` and then `Readable`, which answers `true`: the payload observes
/// the tag that stands next to it.
pub proof fn compact_over_readable_value<S, V, T>(
    value: T,
    engine: S,
    outcome: Result<T::Ok, T::Error>,
    answer: bool,
)
    where
        T: Serialize<Readable<Compact<S>>>,
        S: Serializer<Compact<Readable<V>>>,
    requires
        call_ensures(
            <Compact<Readable<T>> as Serialize<S>>::serialize,
            (&Compact(Readable(value)), engine),
            outcome,
        ),
        call_ensures(
            <Readable<Compact<S>> as Serializer<V>>::is_human_readable,
            (&Readable(Compact(engine)),),
            answer,
        ),
    ensures
        call_ensures(T::serialize, (&value, Readable(Compact(engine))), outcome),
        answer == true,
{
}

/// Wrapping twice: an engine tagged `Compact` and then `Compact` answers `false`, as the tag
/// applied last says, and makes of every operation one call of the same operation on the innermost
/// engine: a scalar, a name and an index arrive as they were given, a nested value arrives under
/// `Compact` over `Compact`, and a builder comes back under `Compact` over `Compact`. The statement
/// names one operation of each kind; the others of a kind have contracts of the same shape.
pub proof fn compact_over_compact_engine<V, S: Serializer<Compact<Compact<V>>>>(
    engine: S,
    v: bool,
    name: &'static str,
    variant_index: u32,
    variant: &'static str,
    len: Option<usize>,
    value: V,
    answer: bool,
    outcome: Result<S::Ok, S::Error>,
    begun: Result<Compact<Compact<S::SerializeSeq>>, S::Error>,
)
    ensures
        call_ensures(
            <Compact<Compact<S>> as Serializer<V>>::is_human_readable,
            (&Compact(Compact(engine)),),
            answer,
        ) ==> answer == false,
        call_ensures(
            <Compact<Compact<S>> as Serializer<V>>::serialize_bool,
            (Compact(Compact(engine)), v),
            outcome,
        ) ==> call_ensures(S::serialize_bool, (engine, v), outcome),
        call_ensures(
            <Compact<Compact<S>> as Serializer<V>>::serialize_none,
            (Compact(Compact(engine)),),
            outcome,
        ) ==> call_ensures(S::serialize_none, (engine,), outcome),
        call_ensures(
            <Compact<Compact<S>> as Serializer<V>>::serialize_unit_variant,
            (Compact(Compact(engine)), name, variant_index, variant),
            outcome,
        ) ==> call_ensures(
            S::serialize_unit_variant,
            (engine, name, variant_index, variant),
            outcome,
        ),
        call_ensures(
            <Compact<Compact<S>> as Serializer<V>>::serialize_some,
            (Compact(Compact(engine)), value),
            outcome,
        ) ==> call_ensures(S::serialize_some, (engine, Compact(Compact(value))), outcome),
        call_ensures(
            <Compact<Compact<S>> as Serializer<V>>::serialize_seq,
            (Compact(Compact(engine)), len),
            begun,
        ) ==> call_ensures(
            S::serialize_seq,
            (engine, len),
            Compact::untagged(Compact::untagged(begun)),
        ),
{
}

/// Wrapping twice: a value tagged `Compact` and then `Compact` is encoded by encoding its payload
/// into the engine under `Compact` and then `Compact`, which answers `false`: the payload observes
/// the tag that stands next to it.
pub proof fn compact_over_compact_value<S, V, T>(
    value: T,
    engine: S,
    outcome: Result<T::Ok, T::Error>,
    answer: bool,
)
    where
        T: Serialize<Compact<Compact<S>>>,
        S: Serializer<Compact<Compact<V>>>,
    requires
        call_ensures(
            <Compact<Compact<T>> as Serialize<S>>::serialize,
            (&Compact(Compact(value)), engine),
            outcome,
        ),
        call_ensures(
            <Compact<Compact<S>> as Serializer<V>>::is_human_readable,
            (&Compact(Compact(engine)),),
            answer,
        ),
    ensures
        call_ensures(T::serialize, (&value, Compact(Compact(engine))), outcome),
        answer == false,
{
}

} // verus!
