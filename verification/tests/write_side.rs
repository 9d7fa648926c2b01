//! The write side of the overlay, with an engine that writes down what reaches it and values that
//! write down the mode they observe.

use format_mode::ser::{
    CollectMap, CollectSeq, EntrySource, Serialize, SerializeMap, SerializeSeq, SerializeStruct,
    SerializeStructVariant, SerializeTuple, SerializeTupleStruct, SerializeTupleVariant,
    Serializer, Source,
};
use format_mode::{Compact, Configure, Error, Readable};
use std::cell::RefCell;
use std::rc::Rc;

/// One operation that reached the recording engine, with its plain arguments.
#[derive(Clone, Debug, PartialEq)]
enum Token {
    Bool(bool),
    I8(i8),
    I16(i16),
    I32(i32),
    I64(i64),
    I128(i128),
    U8(u8),
    U16(u16),
    U32(u32),
    U64(u64),
    U128(u128),
    F32(u32),
    F64(u64),
    Char(char),
    Str(String),
    Bytes(Vec<u8>),
    Absent,
    Present,
    Unit,
    UnitStruct(&'static str),
    UnitVariant(&'static str, u32, &'static str),
    NewtypeStruct(&'static str),
    NewtypeVariant(&'static str, u32, &'static str),
    Sequence(Option<usize>),
    Tuple(usize),
    TupleStruct(&'static str, usize),
    TupleVariant(&'static str, u32, &'static str, usize),
    Mapping(Option<usize>),
    Struct(&'static str, usize),
    StructVariant(&'static str, u32, &'static str, usize),
    Element,
    Key,
    Value,
    Entry,
    Field(&'static str),
    Skipped(&'static str),
    End,
    CollectedStr(String),
    CollectedSeq(Option<usize>),
    CollectedMap(Option<usize>),
}

/// An engine that writes down every operation it is asked for. It fails, with the message `boom`,
/// when the operation with the index `fail_at` arrives.
#[derive(Clone)]
struct Recorder {
    log: Rc<RefCell<Vec<Token>>>,
    human_readable: bool,
    fail_at: Option<usize>,
}

impl Recorder {
    fn new(human_readable: bool) -> Recorder {
        Recorder { log: Rc::new(RefCell::new(Vec::new())), human_readable, fail_at: None }
    }

    fn failing_at(human_readable: bool, index: usize) -> Recorder {
        Recorder { log: Rc::new(RefCell::new(Vec::new())), human_readable, fail_at: Some(index) }
    }

    fn push(&self, token: Token) -> Result<(), Error> {
        if self.fail_at == Some(self.log.borrow().len()) {
            return Err(Error::custom("boom"));
        }
        self.log.borrow_mut().push(token);
        Ok(())
    }

    fn begin(self, token: Token) -> Result<Aggregate, Error> {
        self.push(token)?;
        Ok(Aggregate { engine: self })
    }

    fn tokens(&self) -> Vec<Token> {
        self.log.borrow().clone()
    }
}

/// The recording engine's builder, for every kind of aggregate.
struct Aggregate {
    engine: Recorder,
}

impl Aggregate {
    fn add<V: Serialize<Recorder, Ok = (), Error = Error>>(
        &mut self,
        token: Token,
        value: V,
    ) -> Result<(), Error> {
        self.engine.push(token)?;
        value.serialize(self.engine.clone())
    }
}

/// The flags that the values of one test observed, in the order in which they asked.
#[derive(Clone)]
struct Seen(Rc<RefCell<Vec<bool>>>);

impl Seen {
    fn new() -> Seen {
        Seen(Rc::new(RefCell::new(Vec::new())))
    }

    fn flags(&self) -> Vec<bool> {
        self.0.borrow().clone()
    }
}

/// The nested value of a value that has none.
struct Nothing;

impl<S> Serialize<S> for Nothing {
    type Ok = ();
    type Error = Error;

    fn serialize(&self, _serializer: S) -> Result<(), Error> {
        unreachable!()
    }
}

/// A number that asks for the mode before it writes itself, and writes down the answer.
#[derive(Clone)]
struct Num {
    value: u8,
    seen: Seen,
}

impl<S: Serializer<Nothing, Ok = (), Error = Error>> Serialize<S> for Num {
    type Ok = ();
    type Error = Error;

    fn serialize(&self, serializer: S) -> Result<(), Error> {
        self.seen.0.borrow_mut().push(serializer.is_human_readable());
        serializer.serialize_u8(self.value)
    }
}

/// A pair of numbers that writes itself as text for a human-readable format, and as a tuple
/// otherwise.
struct Version(u8, u8);

impl<S: Serializer<Num, Ok = (), Error = Error>> Serialize<S> for Version {
    type Ok = ();
    type Error = Error;

    fn serialize(&self, serializer: S) -> Result<(), Error> {
        if serializer.is_human_readable() {
            serializer.serialize_str(&format!("{}.{}", self.0, self.1))
        } else {
            let seen = Seen::new();
            let mut tuple = serializer.serialize_tuple(2)?;
            tuple.serialize_element(Num { value: self.0, seen: seen.clone() })?;
            tuple.serialize_element(Num { value: self.1, seen })?;
            tuple.end()
        }
    }
}

/// One value for each way of handing nested values to an engine.
#[derive(Clone)]
enum Shape {
    Present(Num),
    NewtypeStruct(Num),
    NewtypeVariant(Num),
    Sequence(Vec<Num>),
    Tuple(Vec<Num>),
    TupleStruct(Vec<Num>),
    TupleVariant(Vec<Num>),
    Mapping(Vec<(Num, Num)>),
    MapByEntry(Vec<(Num, Num)>),
    Struct(Num, Num),
    StructVariant(Num, Num),
}

impl<S: Serializer<Num, Ok = (), Error = Error>> Serialize<S> for Shape {
    type Ok = ();
    type Error = Error;

    fn serialize(&self, serializer: S) -> Result<(), Error> {
        match self {
            Shape::Present(n) => serializer.serialize_some(n.clone()),
            Shape::NewtypeStruct(n) => serializer.serialize_newtype_struct("N", n.clone()),
            Shape::NewtypeVariant(n) => {
                serializer.serialize_newtype_variant("E", 1, "B", n.clone())
            }
            Shape::Sequence(items) => {
                let mut seq = serializer.serialize_seq(Some(items.len()))?;
                for item in items {
                    seq.serialize_element(item.clone())?;
                }
                seq.end()
            }
            Shape::Tuple(items) => {
                let mut tuple = serializer.serialize_tuple(items.len())?;
                for item in items {
                    tuple.serialize_element(item.clone())?;
                }
                tuple.end()
            }
            Shape::TupleStruct(items) => {
                let mut tuple = serializer.serialize_tuple_struct("T", items.len())?;
                for item in items {
                    tuple.serialize_field(item.clone())?;
                }
                tuple.end()
            }
            Shape::TupleVariant(items) => {
                let mut tuple = serializer.serialize_tuple_variant("E", 2, "C", items.len())?;
                for item in items {
                    tuple.serialize_field(item.clone())?;
                }
                tuple.end()
            }
            Shape::Mapping(entries) => {
                let mut map = serializer.serialize_map(Some(entries.len()))?;
                for (key, value) in entries {
                    map.serialize_key(key.clone())?;
                    map.serialize_value(value.clone())?;
                }
                map.end()
            }
            Shape::MapByEntry(entries) => {
                let mut map = serializer.serialize_map(None)?;
                for (key, value) in entries {
                    map.serialize_entry(key.clone(), value.clone())?;
                }
                map.end()
            }
            Shape::Struct(a, b) => {
                let mut fields = serializer.serialize_struct("X", 2)?;
                fields.serialize_field("a", a.clone())?;
                fields.serialize_field("b", b.clone())?;
                fields.end()
            }
            Shape::StructVariant(a, b) => {
                let mut fields = serializer.serialize_struct_variant("E", 3, "D", 3)?;
                fields.serialize_field("a", a.clone())?;
                fields.skip_field("hidden")?;
                fields.serialize_field("b", b.clone())?;
                fields.end()
            }
        }
    }
}

/// A sequence of shapes: nested values that hold nested values.
struct Deep(Vec<Shape>);

impl<S: Serializer<Shape, Ok = (), Error = Error>> Serialize<S> for Deep {
    type Ok = ();
    type Error = Error;

    fn serialize(&self, serializer: S) -> Result<(), Error> {
        let mut seq = serializer.serialize_seq(None)?;
        for shape in &self.0 {
            seq.serialize_element(shape.clone())?;
        }
        seq.end()
    }
}

/// A lazy source of numbers that counts how many were drawn from it.
struct Numbers {
    left: Vec<u8>,
    seen: Seen,
    drawn: Rc<RefCell<usize>>,
}

impl Numbers {
    fn new(values: &[u8], seen: &Seen) -> Numbers {
        let mut left = values.to_vec();
        left.reverse();
        Numbers { left, seen: seen.clone(), drawn: Rc::new(RefCell::new(0)) }
    }
}

impl Source for Numbers {
    type Item = Num;

    fn next(&mut self) -> Option<Num> {
        let value = self.left.pop()?;
        *self.drawn.borrow_mut() += 1;
        Some(Num { value, seen: self.seen.clone() })
    }

    fn size_hint(&self) -> (usize, Option<usize>) {
        (self.left.len(), Some(self.left.len()))
    }
}

impl EntrySource for Numbers {
    type Key = Num;
    type Value = Num;

    fn next_entry(&mut self) -> Option<(Num, Num)> {
        let key = self.left.pop()?;
        let value = self.left.pop()?;
        *self.drawn.borrow_mut() += 1;
        Some((Num { value: key, seen: self.seen.clone() }, Num { value, seen: self.seen.clone() }))
    }

    fn size_hint(&self) -> (usize, Option<usize>) {
        (self.left.len() / 2, Some(self.left.len() / 2))
    }
}

impl<I: Source> CollectSeq<I> for Recorder
where
    I::Item: Serialize<Recorder, Ok = (), Error = Error>,
{
    type Ok = ();
    type Error = Error;

    fn collect_seq(self, iter: I) -> Result<(), Error> {
        let mut iter = iter;
        self.push(Token::CollectedSeq(iter.size_hint().1))?;
        while let Some(item) = iter.next() {
            self.push(Token::Element)?;
            item.serialize(self.clone())?;
        }
        self.push(Token::End)
    }
}

impl<I: EntrySource> CollectMap<I> for Recorder
where
    I::Key: Serialize<Recorder, Ok = (), Error = Error>,
    I::Value: Serialize<Recorder, Ok = (), Error = Error>,
{
    type Ok = ();
    type Error = Error;

    fn collect_map(self, iter: I) -> Result<(), Error> {
        let mut iter = iter;
        self.push(Token::CollectedMap(iter.size_hint().1))?;
        while let Some((key, value)) = iter.next_entry() {
            self.push(Token::Entry)?;
            key.serialize(self.clone())?;
            value.serialize(self.clone())?;
        }
        self.push(Token::End)
    }
}

/// A source that never ends: the numbers from zero on.
struct Naturals {
    next: u8,
    seen: Seen,
}

impl Source for Naturals {
    type Item = Num;

    fn next(&mut self) -> Option<Num> {
        let value = self.next;
        self.next = self.next.wrapping_add(1);
        Some(Num { value, seen: self.seen.clone() })
    }

    fn size_hint(&self) -> (usize, Option<usize>) {
        (usize::MAX, None)
    }
}

/// A number that is either left to the mode around it or tagged on its own.
#[derive(Clone)]
enum Item {
    Plain(Num),
    Shrunk(Num),
    Spelled(Num),
}

impl<S> Serialize<S> for Item
where
    S: Serializer<Nothing, Ok = (), Error = Error>,
    S: Serializer<Compact<Nothing>, Ok = (), Error = Error>,
    S: Serializer<Readable<Nothing>, Ok = (), Error = Error>,
{
    type Ok = ();
    type Error = Error;

    fn serialize(&self, serializer: S) -> Result<(), Error> {
        match self {
            Item::Plain(number) => number.serialize(serializer),
            Item::Shrunk(number) => Compact(number.clone()).serialize(serializer),
            Item::Spelled(number) => Readable(number.clone()).serialize(serializer),
        }
    }
}

/// A tuple of such numbers.
struct Mixed(Vec<Item>);

impl<S: Serializer<Item, Ok = (), Error = Error>> Serialize<S> for Mixed {
    type Ok = ();
    type Error = Error;

    fn serialize(&self, serializer: S) -> Result<(), Error> {
        let mut tuple = serializer.serialize_tuple(self.0.len())?;
        for item in &self.0 {
            tuple.serialize_element(item.clone())?;
        }
        tuple.end()
    }
}

impl<V: Serialize<Recorder, Ok = (), Error = Error>> Serializer<V> for Recorder {
    type Ok = ();
    type Error = Error;
    type SerializeSeq = Aggregate;
    type SerializeTuple = Aggregate;
    type SerializeTupleStruct = Aggregate;
    type SerializeTupleVariant = Aggregate;
    type SerializeMap = Aggregate;
    type SerializeStruct = Aggregate;
    type SerializeStructVariant = Aggregate;

    fn serialize_bool(self, v: bool) -> Result<(), Error> {
        self.push(Token::Bool(v))
    }

    fn serialize_i8(self, v: i8) -> Result<(), Error> {
        self.push(Token::I8(v))
    }

    fn serialize_i16(self, v: i16) -> Result<(), Error> {
        self.push(Token::I16(v))
    }

    fn serialize_i32(self, v: i32) -> Result<(), Error> {
        self.push(Token::I32(v))
    }

    fn serialize_i64(self, v: i64) -> Result<(), Error> {
        self.push(Token::I64(v))
    }

    fn serialize_i128(self, v: i128) -> Result<(), Error> {
        self.push(Token::I128(v))
    }

    fn serialize_u8(self, v: u8) -> Result<(), Error> {
        self.push(Token::U8(v))
    }

    fn serialize_u16(self, v: u16) -> Result<(), Error> {
        self.push(Token::U16(v))
    }

    fn serialize_u32(self, v: u32) -> Result<(), Error> {
        self.push(Token::U32(v))
    }

    fn serialize_u64(self, v: u64) -> Result<(), Error> {
        self.push(Token::U64(v))
    }

    fn serialize_u128(self, v: u128) -> Result<(), Error> {
        self.push(Token::U128(v))
    }

    fn serialize_f32(self, bits: u32) -> Result<(), Error> {
        self.push(Token::F32(bits))
    }

    fn serialize_f64(self, bits: u64) -> Result<(), Error> {
        self.push(Token::F64(bits))
    }

    fn serialize_char(self, v: char) -> Result<(), Error> {
        self.push(Token::Char(v))
    }

    fn serialize_str(self, v: &str) -> Result<(), Error> {
        self.push(Token::Str(v.to_string()))
    }

    fn serialize_bytes(self, v: &[u8]) -> Result<(), Error> {
        self.push(Token::Bytes(v.to_vec()))
    }

    fn serialize_none(self) -> Result<(), Error> {
        self.push(Token::Absent)
    }

    fn serialize_some(self, value: V) -> Result<(), Error> {
        self.push(Token::Present)?;
        value.serialize(self)
    }

    fn serialize_unit(self) -> Result<(), Error> {
        self.push(Token::Unit)
    }

    fn serialize_unit_struct(self, name: &'static str) -> Result<(), Error> {
        self.push(Token::UnitStruct(name))
    }

    fn serialize_unit_variant(
        self,
        name: &'static str,
        variant_index: u32,
        variant: &'static str,
    ) -> Result<(), Error> {
        self.push(Token::UnitVariant(name, variant_index, variant))
    }

    fn serialize_newtype_struct(self, name: &'static str, value: V) -> Result<(), Error> {
        self.push(Token::NewtypeStruct(name))?;
        value.serialize(self)
    }

    fn serialize_newtype_variant(
        self,
        name: &'static str,
        variant_index: u32,
        variant: &'static str,
        value: V,
    ) -> Result<(), Error> {
        self.push(Token::NewtypeVariant(name, variant_index, variant))?;
        value.serialize(self)
    }

    fn serialize_seq(self, len: Option<usize>) -> Result<Aggregate, Error> {
        self.begin(Token::Sequence(len))
    }

    fn serialize_tuple(self, len: usize) -> Result<Aggregate, Error> {
        self.begin(Token::Tuple(len))
    }

    fn serialize_tuple_struct(self, name: &'static str, len: usize) -> Result<Aggregate, Error> {
        self.begin(Token::TupleStruct(name, len))
    }

    fn serialize_tuple_variant(
        self,
        name: &'static str,
        variant_index: u32,
        variant: &'static str,
        len: usize,
    ) -> Result<Aggregate, Error> {
        self.begin(Token::TupleVariant(name, variant_index, variant, len))
    }

    fn serialize_map(self, len: Option<usize>) -> Result<Aggregate, Error> {
        self.begin(Token::Mapping(len))
    }

    fn serialize_struct(self, name: &'static str, len: usize) -> Result<Aggregate, Error> {
        self.begin(Token::Struct(name, len))
    }

    fn serialize_struct_variant(
        self,
        name: &'static str,
        variant_index: u32,
        variant: &'static str,
        len: usize,
    ) -> Result<Aggregate, Error> {
        self.begin(Token::StructVariant(name, variant_index, variant, len))
    }

    fn collect_str(self, value: &str) -> Result<(), Error> {
        self.push(Token::CollectedStr(value.to_string()))
    }

    fn is_human_readable(&self) -> bool {
        self.human_readable
    }
}


impl<V: Serialize<Recorder, Ok = (), Error = Error>> SerializeSeq<V> for Aggregate {
    type Ok = ();
    type Error = Error;

    fn serialize_element(&mut self, value: V) -> Result<(), Error> {
        self.add(Token::Element, value)
    }

    fn end(self) -> Result<(), Error> {
        self.engine.push(Token::End)
    }
}


impl<V: Serialize<Recorder, Ok = (), Error = Error>> SerializeTuple<V> for Aggregate {
    type Ok = ();
    type Error = Error;

    fn serialize_element(&mut self, value: V) -> Result<(), Error> {
        self.add(Token::Element, value)
    }

    fn end(self) -> Result<(), Error> {
        self.engine.push(Token::End)
    }
}


impl<V: Serialize<Recorder, Ok = (), Error = Error>> SerializeTupleStruct<V> for Aggregate {
    type Ok = ();
    type Error = Error;

    fn serialize_field(&mut self, value: V) -> Result<(), Error> {
        self.add(Token::Element, value)
    }

    fn end(self) -> Result<(), Error> {
        self.engine.push(Token::End)
    }
}


impl<V: Serialize<Recorder, Ok = (), Error = Error>> SerializeTupleVariant<V> for Aggregate {
    type Ok = ();
    type Error = Error;

    fn serialize_field(&mut self, value: V) -> Result<(), Error> {
        self.add(Token::Element, value)
    }

    fn end(self) -> Result<(), Error> {
        self.engine.push(Token::End)
    }
}


impl<K, V> SerializeMap<K, V> for Aggregate
where
    K: Serialize<Recorder, Ok = (), Error = Error>,
    V: Serialize<Recorder, Ok = (), Error = Error>,
{
    type Ok = ();
    type Error = Error;

    fn serialize_key(&mut self, key: K) -> Result<(), Error> {
        self.add(Token::Key, key)
    }

    fn serialize_value(&mut self, value: V) -> Result<(), Error> {
        self.add(Token::Value, value)
    }

    fn serialize_entry(&mut self, key: K, value: V) -> Result<(), Error> {
        self.add(Token::Entry, key)?;
        value.serialize(self.engine.clone())
    }

    fn end(self) -> Result<(), Error> {
        self.engine.push(Token::End)
    }
}


impl<V: Serialize<Recorder, Ok = (), Error = Error>> SerializeStruct<V> for Aggregate {
    type Ok = ();
    type Error = Error;

    fn serialize_field(&mut self, key: &'static str, value: V) -> Result<(), Error> {
        self.add(Token::Field(key), value)
    }

    fn skip_field(&mut self, key: &'static str) -> Result<(), Error> {
        self.engine.push(Token::Skipped(key))
    }

    fn end(self) -> Result<(), Error> {
        self.engine.push(Token::End)
    }
}


impl<V: Serialize<Recorder, Ok = (), Error = Error>> SerializeStructVariant<V> for Aggregate {
    type Ok = ();
    type Error = Error;

    fn serialize_field(&mut self, key: &'static str, value: V) -> Result<(), Error> {
        self.add(Token::Field(key), value)
    }

    fn skip_field(&mut self, key: &'static str) -> Result<(), Error> {
        self.engine.push(Token::Skipped(key))
    }

    fn end(self) -> Result<(), Error> {
        self.engine.push(Token::End)
    }
}

fn num(value: u8, seen: &Seen) -> Num {
    Num { value, seen: seen.clone() }
}

/// Every shape, built from numbers that share one record of what they observed.
fn shapes(seen: &Seen) -> Vec<Shape> {
    vec![
        Shape::Present(num(1, seen)),
        Shape::NewtypeStruct(num(2, seen)),
        Shape::NewtypeVariant(num(3, seen)),
        Shape::Sequence(vec![num(4, seen), num(5, seen)]),
        Shape::Tuple(vec![num(6, seen), num(7, seen)]),
        Shape::TupleStruct(vec![num(8, seen)]),
        Shape::TupleVariant(vec![num(9, seen), num(10, seen)]),
        Shape::Mapping(vec![(num(11, seen), num(12, seen))]),
        Shape::MapByEntry(vec![(num(13, seen), num(14, seen))]),
        Shape::Struct(num(15, seen), num(16, seen)),
        Shape::StructVariant(num(17, seen), num(18, seen)),
    ]
}

fn numbers_in(shape: &Shape) -> usize {
    match shape {
        Shape::Present(_) | Shape::NewtypeStruct(_) | Shape::NewtypeVariant(_) => 1,
        Shape::Sequence(items)
        | Shape::Tuple(items)
        | Shape::TupleStruct(items)
        | Shape::TupleVariant(items) => items.len(),
        Shape::Mapping(entries) | Shape::MapByEntry(entries) => 2 * entries.len(),
        Shape::Struct(_, _) | Shape::StructVariant(_, _) => 2,
    }
}

#[test]
fn compact_struct_is_written_field_by_field_under_compact() {
    let seen = Seen::new();
    let engine = Recorder::new(true);
    let value = Shape::Struct(num(1, &seen), num(2, &seen));
    value.compact().serialize(engine.clone()).unwrap();
    assert_eq!(seen.flags(), vec![false, false]);
    assert_eq!(
        engine.tokens(),
        vec![
            Token::Struct("X", 2),
            Token::Field("a"),
            Token::U8(1),
            Token::Field("b"),
            Token::U8(2),
            Token::End,
        ]
    );
}

#[test]
fn readable_struct_is_written_field_by_field_under_readable() {
    let seen = Seen::new();
    let engine = Recorder::new(false);
    let value = Shape::Struct(num(1, &seen), num(2, &seen));
    value.readable().serialize(engine.clone()).unwrap();
    assert_eq!(seen.flags(), vec![true, true]);
    assert_eq!(
        engine.tokens(),
        vec![
            Token::Struct("X", 2),
            Token::Field("a"),
            Token::U8(1),
            Token::Field("b"),
            Token::U8(2),
            Token::End,
        ]
    );
}

#[test]
fn untagged_value_observes_the_engine_itself() {
    for flag in [true, false] {
        let seen = Seen::new();
        let value = Shape::Struct(num(1, &seen), num(2, &seen));
        value.serialize(Recorder::new(flag)).unwrap();
        assert_eq!(seen.flags(), vec![flag, flag]);
    }
}

#[test]
fn readable_engine_answers_true() {
    for flag in [true, false] {
        let engine = Readable(Recorder::new(flag));
        assert!(Serializer::<Nothing>::is_human_readable(&engine));
    }
}

#[test]
fn compact_engine_answers_false() {
    for flag in [true, false] {
        let engine = Compact(Recorder::new(flag));
        assert!(!Serializer::<Nothing>::is_human_readable(&engine));
    }
}

#[test]
fn every_shape_keeps_readable() {
    let seen = Seen::new();
    for shape in shapes(&seen) {
        let plain = Recorder::new(false);
        shape.serialize(plain.clone()).unwrap();
        let before = seen.flags().len();
        let engine = Recorder::new(false);
        shape.clone().readable().serialize(engine.clone()).unwrap();
        let observed = seen.flags()[before..].to_vec();
        assert_eq!(observed, vec![true; numbers_in(&shape)]);
        assert_eq!(engine.tokens(), plain.tokens());
    }
}

#[test]
fn every_shape_keeps_compact() {
    let seen = Seen::new();
    for shape in shapes(&seen) {
        let plain = Recorder::new(true);
        shape.serialize(plain.clone()).unwrap();
        let before = seen.flags().len();
        let engine = Recorder::new(true);
        shape.clone().compact().serialize(engine.clone()).unwrap();
        let observed = seen.flags()[before..].to_vec();
        assert_eq!(observed, vec![false; numbers_in(&shape)]);
        assert_eq!(engine.tokens(), plain.tokens());
    }
}

#[test]
fn shapes_inside_a_sequence_keep_the_mode() {
    let seen = Seen::new();
    let all = shapes(&seen);
    let count: usize = all.iter().map(numbers_in).sum();
    let plain = Recorder::new(true);
    Deep(all.clone()).serialize(plain.clone()).unwrap();
    assert_eq!(seen.flags(), vec![true; count]);

    let engine = Recorder::new(true);
    Deep(all.clone()).compact().serialize(engine.clone()).unwrap();
    assert_eq!(seen.flags()[count..].to_vec(), vec![false; count]);
    assert_eq!(engine.tokens(), plain.tokens());

    let engine = Recorder::new(false);
    Deep(all).readable().serialize(engine.clone()).unwrap();
    assert_eq!(seen.flags()[2 * count..].to_vec(), vec![true; count]);
    assert_eq!(engine.tokens(), plain.tokens());
}

#[test]
fn struct_variant_keeps_names_index_and_skipped_field() {
    let seen = Seen::new();
    let engine = Recorder::new(true);
    let value = Shape::StructVariant(num(7, &seen), num(8, &seen));
    value.compact().serialize(engine.clone()).unwrap();
    assert_eq!(
        engine.tokens(),
        vec![
            Token::StructVariant("E", 3, "D", 3),
            Token::Field("a"),
            Token::U8(7),
            Token::Skipped("hidden"),
            Token::Field("b"),
            Token::U8(8),
            Token::End,
        ]
    );
    assert_eq!(seen.flags(), vec![false, false]);
}

#[test]
fn map_keys_and_values_keep_the_mode() {
    let seen = Seen::new();
    let engine = Recorder::new(false);
    let value = Shape::Mapping(vec![(num(1, &seen), num(2, &seen))]);
    value.readable().serialize(engine.clone()).unwrap();
    assert_eq!(
        engine.tokens(),
        vec![
            Token::Mapping(Some(1)),
            Token::Key,
            Token::U8(1),
            Token::Value,
            Token::U8(2),
            Token::End,
        ]
    );
    assert_eq!(seen.flags(), vec![true, true]);
}

#[test]
fn value_that_asks_for_the_mode_follows_the_tag() {
    let engine = Recorder::new(false);
    Version(1, 0).readable().serialize(engine.clone()).unwrap();
    assert_eq!(engine.tokens(), vec![Token::Str("1.0".to_string())]);

    let engine = Recorder::new(true);
    Version(1, 0).compact().serialize(engine.clone()).unwrap();
    assert_eq!(
        engine.tokens(),
        vec![
            Token::Tuple(2),
            Token::Element,
            Token::U8(1),
            Token::Element,
            Token::U8(0),
            Token::End,
        ]
    );
}

fn write_scalars<S: Serializer<Nothing, Ok = (), Error = Error>>(fresh: impl Fn() -> S) {
    fresh().serialize_bool(true).unwrap();
    fresh().serialize_i8(-8).unwrap();
    fresh().serialize_i16(-16).unwrap();
    fresh().serialize_i32(-32).unwrap();
    fresh().serialize_i64(-64).unwrap();
    fresh().serialize_i128(-128).unwrap();
    fresh().serialize_u8(8).unwrap();
    fresh().serialize_u16(16).unwrap();
    fresh().serialize_u32(32).unwrap();
    fresh().serialize_u64(64).unwrap();
    fresh().serialize_u128(128).unwrap();
    fresh().serialize_f32(1.5f32.to_bits()).unwrap();
    fresh().serialize_f64((-0.25f64).to_bits()).unwrap();
    fresh().serialize_char('c').unwrap();
    fresh().serialize_str("text").unwrap();
    fresh().serialize_bytes(&[1, 2, 3]).unwrap();
    fresh().serialize_none().unwrap();
    fresh().serialize_unit().unwrap();
    fresh().serialize_unit_struct("U").unwrap();
    fresh().serialize_unit_variant("E", 4, "A").unwrap();
    fresh().collect_str("shown").unwrap();
}

fn scalar_tokens() -> Vec<Token> {
    vec![
        Token::Bool(true),
        Token::I8(-8),
        Token::I16(-16),
        Token::I32(-32),
        Token::I64(-64),
        Token::I128(-128),
        Token::U8(8),
        Token::U16(16),
        Token::U32(32),
        Token::U64(64),
        Token::U128(128),
        Token::F32(0x3fc0_0000),
        Token::F64(0xbfd0_0000_0000_0000),
        Token::Char('c'),
        Token::Str("text".to_string()),
        Token::Bytes(vec![1, 2, 3]),
        Token::Absent,
        Token::Unit,
        Token::UnitStruct("U"),
        Token::UnitVariant("E", 4, "A"),
        Token::CollectedStr("shown".to_string()),
    ]
}

#[test]
fn scalars_reach_the_engine_as_given() {
    let engine = Recorder::new(true);
    write_scalars(|| engine.clone());
    assert_eq!(engine.tokens(), scalar_tokens());
}

#[test]
fn scalars_pass_through_readable_as_given() {
    let engine = Recorder::new(false);
    write_scalars(|| Readable(engine.clone()));
    assert_eq!(engine.tokens(), scalar_tokens());
    assert_eq!(f32::from_bits(0x3fc0_0000), 1.5);
    assert_eq!(f64::from_bits(0xbfd0_0000_0000_0000), -0.25);
}

#[test]
fn scalars_pass_through_compact_as_given() {
    let engine = Recorder::new(true);
    write_scalars(|| Compact(engine.clone()));
    assert_eq!(engine.tokens(), scalar_tokens());
}

#[test]
fn scalars_pass_through_two_tags_as_given() {
    let engine = Recorder::new(true);
    write_scalars(|| Compact(Readable(engine.clone())));
    assert_eq!(engine.tokens(), scalar_tokens());
}

#[test]
fn failure_of_the_engine_comes_back_unchanged() {
    let seen = Seen::new();
    let value = Shape::Struct(num(1, &seen), num(2, &seen));
    for index in 0..6 {
        let plain = Recorder::failing_at(true, index);
        let without = value.serialize(plain.clone());
        let engine = Recorder::failing_at(true, index);
        let with = value.clone().compact().serialize(engine.clone());
        assert_eq!(without.unwrap_err().description(), "boom");
        let error = with.unwrap_err();
        assert_eq!(error.description(), "boom");
        assert!(error == *"boom");
        assert_eq!(error.to_string(), "boom".to_string());
        assert_eq!(engine.tokens(), plain.tokens());
        assert_eq!(engine.tokens().len(), index);
    }
}

#[test]
fn failure_to_begin_comes_back_unchanged() {
    let engine = Readable(Recorder::failing_at(false, 0));
    let begun = Serializer::<Nothing>::serialize_seq(engine, Some(3));
    match begun {
        Ok(_) => panic!("the engine fails at once"),
        Err(error) => assert_eq!(error.description(), "boom"),
    }
}

#[test]
fn readable_twice_is_readable_once() {
    let seen = Seen::new();
    let once = Recorder::new(false);
    let value = Shape::Sequence(vec![num(1, &seen), num(2, &seen)]);
    value.clone().readable().serialize(once.clone()).unwrap();
    let twice = Recorder::new(false);
    value.readable().readable().serialize(twice.clone()).unwrap();
    assert_eq!(seen.flags(), vec![true, true, true, true]);
    assert_eq!(twice.tokens(), once.tokens());
}

#[test]
fn compact_twice_is_compact_once() {
    let seen = Seen::new();
    let once = Recorder::new(true);
    let value = Shape::Sequence(vec![num(1, &seen), num(2, &seen)]);
    value.clone().compact().serialize(once.clone()).unwrap();
    let twice = Recorder::new(true);
    value.compact().compact().serialize(twice.clone()).unwrap();
    assert_eq!(seen.flags(), vec![false, false, false, false]);
    assert_eq!(twice.tokens(), once.tokens());
}

#[test]
fn payload_observes_the_tag_next_to_it() {
    let seen = Seen::new();
    let value = Shape::Sequence(vec![num(1, &seen)]);
    value.clone().compact().readable().serialize(Recorder::new(true)).unwrap();
    assert_eq!(seen.flags(), vec![false]);
    value.readable().compact().serialize(Recorder::new(false)).unwrap();
    assert_eq!(seen.flags(), vec![false, true]);
}

#[test]
fn engine_answers_as_the_tag_applied_last() {
    let engine = Recorder::new(false).compact().readable();
    assert!(Serializer::<Nothing>::is_human_readable(&engine));
    let engine = Recorder::new(true).readable().compact();
    assert!(!Serializer::<Nothing>::is_human_readable(&engine));
}

#[test]
fn tagged_value_overrides_tagged_engine() {
    let seen = Seen::new();
    let value = Shape::Tuple(vec![num(1, &seen), num(2, &seen)]);
    let engine = Recorder::new(false);
    value.readable().serialize(Compact(engine.clone())).unwrap();
    assert_eq!(seen.flags(), vec![true, true]);
    assert_eq!(
        engine.tokens(),
        vec![
            Token::Tuple(2),
            Token::Element,
            Token::U8(1),
            Token::Element,
            Token::U8(2),
            Token::End,
        ]
    );
}

#[test]
fn tagged_source_tags_each_element_when_it_is_drawn() {
    let seen = Seen::new();
    let source = Numbers::new(&[1, 2, 3], &seen);
    let drawn = source.drawn.clone();
    let mut tagged = Readable(source);
    assert_eq!(*drawn.borrow(), 0);
    let first = Source::next(&mut tagged);
    assert_eq!(*drawn.borrow(), 1);
    match first {
        Some(Readable(number)) => assert_eq!(number.value, 1),
        None => panic!("three numbers are left"),
    }
    assert_eq!(Source::size_hint(&tagged), (2, Some(2)));
    assert!(Source::next(&mut tagged).is_some());
    assert!(Source::next(&mut tagged).is_some());
    assert_eq!(*drawn.borrow(), 3);
    assert_eq!(Source::size_hint(&tagged), (0, Some(0)));
    assert!(Source::next(&mut tagged).is_none());
    assert_eq!(*drawn.borrow(), 3);
}

#[test]
fn tagged_source_tags_each_entry_when_it_is_drawn() {
    let seen = Seen::new();
    let source = Numbers::new(&[1, 2, 3, 4], &seen);
    let drawn = source.drawn.clone();
    let mut tagged = Compact(source);
    assert_eq!(*drawn.borrow(), 0);
    match tagged.next_entry() {
        Some((Compact(key), Compact(value))) => {
            assert_eq!(key.value, 1);
            assert_eq!(value.value, 2);
        }
        None => panic!("two entries are left"),
    }
    assert_eq!(*drawn.borrow(), 1);
    assert_eq!(EntrySource::size_hint(&tagged), (1, Some(1)));
    assert!(tagged.next_entry().is_some());
    assert!(tagged.next_entry().is_none());
}

#[test]
fn collected_sequence_keeps_the_mode() {
    let seen = Seen::new();
    let engine = Recorder::new(true);
    let source = Numbers::new(&[1, 2], &seen);
    Compact(engine.clone()).collect_seq(source).unwrap();
    assert_eq!(seen.flags(), vec![false, false]);
    assert_eq!(
        engine.tokens(),
        vec![
            Token::CollectedSeq(Some(2)),
            Token::Element,
            Token::U8(1),
            Token::Element,
            Token::U8(2),
            Token::End,
        ]
    );
}

#[test]
fn collected_map_keeps_the_mode() {
    let seen = Seen::new();
    let engine = Recorder::new(false);
    let source = Numbers::new(&[1, 2, 3, 4], &seen);
    Readable(engine.clone()).collect_map(source).unwrap();
    assert_eq!(seen.flags(), vec![true, true, true, true]);
    assert_eq!(
        engine.tokens(),
        vec![
            Token::CollectedMap(Some(2)),
            Token::Entry,
            Token::U8(1),
            Token::U8(2),
            Token::Entry,
            Token::U8(3),
            Token::U8(4),
            Token::End,
        ]
    );
}

#[test]
fn collected_sequence_stops_at_the_engines_failure() {
    let seen = Seen::new();
    let engine = Recorder::failing_at(true, 3);
    let source = Numbers::new(&[1, 2, 3], &seen);
    let drawn = source.drawn.clone();
    let outcome = Compact(engine.clone()).collect_seq(source);
    assert_eq!(outcome.unwrap_err().description(), "boom");
    assert_eq!(*drawn.borrow(), 2);
    assert_eq!(seen.flags(), vec![false]);
}

#[test]
fn endless_source_is_drawn_one_element_at_a_time() {
    let seen = Seen::new();
    let mut tagged = Compact(Naturals { next: 0, seen });
    assert_eq!(Source::size_hint(&tagged), (usize::MAX, None));
    for expected in 0..5u8 {
        match Source::next(&mut tagged) {
            Some(Compact(number)) => assert_eq!(number.value, expected),
            None => panic!("the source never ends"),
        }
    }
    assert_eq!(tagged.0.next, 5);
}

#[test]
fn tag_holds_from_where_it_is_applied_and_no_further() {
    let seen = Seen::new();
    let mixed = Mixed(vec![
        Item::Plain(num(1, &seen)),
        Item::Shrunk(num(2, &seen)),
        Item::Plain(num(3, &seen)),
        Item::Spelled(num(4, &seen)),
    ]);
    let engine = Recorder::new(false);
    mixed.serialize(Readable(engine.clone())).unwrap();
    assert_eq!(seen.flags(), vec![true, false, true, true]);
    mixed.serialize(Compact(Recorder::new(true))).unwrap();
    assert_eq!(seen.flags()[4..].to_vec(), vec![false, false, false, true]);
    mixed.serialize(Recorder::new(true)).unwrap();
    assert_eq!(seen.flags()[8..].to_vec(), vec![true, false, true, true]);
    assert_eq!(
        engine.tokens(),
        vec![
            Token::Tuple(4),
            Token::Element,
            Token::U8(1),
            Token::Element,
            Token::U8(2),
            Token::Element,
            Token::U8(3),
            Token::Element,
            Token::U8(4),
            Token::End,
        ]
    );
}
