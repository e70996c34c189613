//! The value tree: what a decoded message is, and what an encoder takes.

use vstd::prelude::*;
use vstd::std_specs::convert::FromSpecImpl;

verus! {

/// An IEEE-754 single-precision number, held as its 32 bits. Two of them are
/// equal where their bits are: 0.0 and -0.0 differ, and every NaN equals
/// itself.
#[derive(Clone, Copy, Debug, PartialEq, Eq, Hash, Structural)]
pub struct Float32 {
    pub bits: u32,
}

/// An IEEE-754 double-precision number, held as its 64 bits. Two of them are
/// equal where their bits are: 0.0 and -0.0 differ, and every NaN equals
/// itself.
#[derive(Clone, Copy, Debug, PartialEq, Eq, Hash, Structural)]
pub struct Float64 {
    pub bits: u64,
}

/// A typed opaque payload: an application-defined tag and the bytes.
#[derive(Debug, PartialEq, Eq, Hash)]
pub struct Extension {
    type_: u8,
    data: Vec<u8>,
}

/// What an `Extension` stands for.
pub struct ExtensionView {
    pub type_: u8,
    pub data: Seq<u8>,
}

impl View for Extension {
    type V = ExtensionView;

    closed spec fn view(&self) -> ExtensionView {
        ExtensionView { type_: self.type_, data: self.data@ }
    }
}

impl Clone for Extension {
    fn clone(&self) -> (copy: Extension)
        ensures
            copy@ == self@,
    {
        Extension { type_: self.type_, data: self.data.clone() }
    }
}

impl Extension {
    pub fn new(type_: u8, data: Vec<u8>) -> (e: Extension)
        ensures
            e@ == (ExtensionView { type_: type_, data: data@ }),
    {
        Extension { type_, data }
    }

    /// The application-defined tag.
    pub fn type_tag(&self) -> (t: u8)
        ensures
            t == self@.type_,
    {
        self.type_
    }

    /// The payload.
    pub fn data(&self) -> (d: &Vec<u8>)
        ensures
            d@ == self@.data,
    {
        &self.data
    }
}

/// Any message of the format. A map is a sequence of pairs in the order in
/// which they were written: keys may repeat and need not be hashable.
#[derive(Debug, PartialEq, Eq, Hash)]
pub enum Value {
    Nil,
    Bool(bool),
    U8(u8),
    U16(u16),
    U32(u32),
    U64(u64),
    F32(Float32),
    F64(Float64),
    I8(i8),
    I16(i16),
    I32(i32),
    I64(i64),
    Str(String),
    Bin(Vec<u8>),
    Array(Vec<Value>),
    Mapping(Vec<(Value, Value)>),
    Extension(Extension),
}

/// The mathematical value that a `Value` stands for.
pub enum ValueView {
    Nil,
    Bool(bool),
    U8(u8),
    U16(u16),
    U32(u32),
    U64(u64),
    F32(Float32),
    F64(Float64),
    I8(i8),
    I16(i16),
    I32(i32),
    I64(i64),
    Str(Seq<char>),
    Bin(Seq<u8>),
    Array(Seq<ValueView>),
    Mapping(Seq<(ValueView, ValueView)>),
    Extension(ExtensionView),
}

/// The model of a value, by recursion on the tree.
pub open spec fn value_view(v: Value) -> ValueView
    decreases v,
{
    match v {
        Value::Nil => ValueView::Nil,
        Value::Bool(b) => ValueView::Bool(b),
        Value::U8(x) => ValueView::U8(x),
        Value::U16(x) => ValueView::U16(x),
        Value::U32(x) => ValueView::U32(x),
        Value::U64(x) => ValueView::U64(x),
        Value::F32(x) => ValueView::F32(x),
        Value::F64(x) => ValueView::F64(x),
        Value::I8(x) => ValueView::I8(x),
        Value::I16(x) => ValueView::I16(x),
        Value::I32(x) => ValueView::I32(x),
        Value::I64(x) => ValueView::I64(x),
        Value::Str(s) => ValueView::Str(s@),
        Value::Bin(b) => ValueView::Bin(b@),
        Value::Array(items) => ValueView::Array(
            Seq::new(
                items@.len(),
                |i: int|
                    if 0 <= i < items@.len() {
                        value_view(items@[i])
                    } else {
                        ValueView::Nil
                    },
            ),
        ),
        Value::Mapping(pairs) => ValueView::Mapping(
            Seq::new(
                pairs@.len(),
                |i: int|
                    if 0 <= i < pairs@.len() {
                        (value_view(pairs@[i].0), value_view(pairs@[i].1))
                    } else {
                        (ValueView::Nil, ValueView::Nil)
                    },
            ),
        ),
        Value::Extension(e) => ValueView::Extension(e@),
    }
}

impl View for Value {
    type V = ValueView;

    open spec fn view(&self) -> ValueView {
        value_view(*self)
    }
}

/// The models of the elements of an array, in order.
pub open spec fn views(items: Seq<Value>) -> Seq<ValueView> {
    Seq::new(items.len(), |i: int| items[i]@)
}

/// The models of the pairs of a map, in order.
pub open spec fn pair_views(pairs: Seq<(Value, Value)>) -> Seq<(ValueView, ValueView)> {
    Seq::new(pairs.len(), |i: int| (pairs[i].0@, pairs[i].1@))
}

/// An array's model is the sequence of its elements' models.
pub proof fn lemma_view_array(items: Vec<Value>)
    ensures
        Value::Array(items)@ == ValueView::Array(views(items@)),
{
    assert(Value::Array(items)@->Array_0 =~= views(items@));
}

/// A map's model is the sequence of its pairs' models.
pub proof fn lemma_view_mapping(pairs: Vec<(Value, Value)>)
    ensures
        Value::Mapping(pairs)@ == ValueView::Mapping(pair_views(pairs@)),
{
    assert(Value::Mapping(pairs)@->Mapping_0 =~= pair_views(pairs@));
}

/// A copy of a value: the same tree, in memory of its own.
pub fn clone_value(value: &Value) -> (copy: Value)
    ensures
        copy@ == value@,
    decreases value,
{
    match value {
        Value::Nil => Value::Nil,
        Value::Bool(x) => Value::Bool(*x),
        Value::U8(x) => Value::U8(*x),
        Value::U16(x) => Value::U16(*x),
        Value::U32(x) => Value::U32(*x),
        Value::U64(x) => Value::U64(*x),
        Value::F32(x) => Value::F32(*x),
        Value::F64(x) => Value::F64(*x),
        Value::I8(x) => Value::I8(*x),
        Value::I16(x) => Value::I16(*x),
        Value::I32(x) => Value::I32(*x),
        Value::I64(x) => Value::I64(*x),
        Value::Str(x) => Value::Str(x.clone()),
        Value::Bin(x) => Value::Bin(x.clone()),
        Value::Array(items) => {
            let copies = clone_items(items);
            proof {
                lemma_view_array(*items);
                lemma_view_array(copies);
            }
            Value::Array(copies)
        },
        Value::Mapping(pairs) => {
            let copies = clone_pairs(pairs);
            proof {
                lemma_view_mapping(*pairs);
                lemma_view_mapping(copies);
            }
            Value::Mapping(copies)
        },
        Value::Extension(x) => Value::Extension(x.clone()),
    }
}

/// A copy of every element of an array, in order.
pub fn clone_items(items: &Vec<Value>) -> (copies: Vec<Value>)
    ensures
        views(copies@) == views(items@),
    decreases items,
{
    let mut copies: Vec<Value> = Vec::new();
    let mut i: usize = 0;
    while i < items.len()
        invariant
            i <= items.len(),
            copies@.len() == i,
            forall|j: int| 0 <= j < i ==> (#[trigger] copies@[j])@ == items@[j]@,
        decreases items.len() - i,
    {
        copies.push(clone_value(&items[i]));
        i += 1;
    }
    assert(views(copies@) =~= views(items@));
    copies
}

/// A copy of every pair of a map, in order.
pub fn clone_pairs(pairs: &Vec<(Value, Value)>) -> (copies: Vec<(Value, Value)>)
    ensures
        pair_views(copies@) == pair_views(pairs@),
    decreases pairs,
{
    let mut copies: Vec<(Value, Value)> = Vec::new();
    let mut i: usize = 0;
    while i < pairs.len()
        invariant
            i <= pairs.len(),
            copies@.len() == i,
            forall|j: int|
                0 <= j < i ==> (#[trigger] copies@[j]).0@ == pairs@[j].0@ && copies@[j].1@
                    == pairs@[j].1@,
        decreases pairs.len() - i,
    {
        let pair = &pairs[i];
        let key = clone_value(&pair.0);
        let held = clone_value(&pair.1);
        copies.push((key, held));
        i += 1;
    }
    assert(pair_views(copies@) =~= pair_views(pairs@));
    copies
}

impl Clone for Value {
    fn clone(&self) -> (copy: Value)
        ensures
            copy@ == self@,
    {
        clone_value(self)
    }
}

impl Value {
    pub fn nil() -> (v: Value)
        ensures
            v == Value::Nil,
    {
        Value::Nil
    }

    pub fn bool(value: bool) -> (v: Value)
        ensures
            v == Value::Bool(value),
    {
        Value::Bool(value)
    }

    pub fn u8(value: u8) -> (v: Value)
        ensures
            v == Value::U8(value),
    {
        Value::U8(value)
    }

    pub fn u16(value: u16) -> (v: Value)
        ensures
            v == Value::U16(value),
    {
        Value::U16(value)
    }

    pub fn u32(value: u32) -> (v: Value)
        ensures
            v == Value::U32(value),
    {
        Value::U32(value)
    }

    pub fn u64(value: u64) -> (v: Value)
        ensures
            v == Value::U64(value),
    {
        Value::U64(value)
    }

    pub fn float32(value: Float32) -> (v: Value)
        ensures
            v == Value::F32(value),
    {
        Value::F32(value)
    }

    pub fn float64(value: Float64) -> (v: Value)
        ensures
            v == Value::F64(value),
    {
        Value::F64(value)
    }

    pub fn i8(value: i8) -> (v: Value)
        ensures
            v == Value::I8(value),
    {
        Value::I8(value)
    }

    pub fn i16(value: i16) -> (v: Value)
        ensures
            v == Value::I16(value),
    {
        Value::I16(value)
    }

    pub fn i32(value: i32) -> (v: Value)
        ensures
            v == Value::I32(value),
    {
        Value::I32(value)
    }

    pub fn i64(value: i64) -> (v: Value)
        ensures
            v == Value::I64(value),
    {
        Value::I64(value)
    }

    pub fn str(value: &str) -> (v: Value)
        ensures
            v@ == ValueView::Str(value@),
    {
        Value::Str(value.to_owned())
    }

    pub fn bin(value: Vec<u8>) -> (v: Value)
        ensures
            v == Value::Bin(value),
    {
        Value::Bin(value)
    }

    pub fn array(value: Vec<Value>) -> (v: Value)
        ensures
            v == Value::Array(value),
            v@ == ValueView::Array(views(value@)),
    {
        proof {
            lemma_view_array(value);
        }
        Value::Array(value)
    }

    pub fn map(value: Vec<(Value, Value)>) -> (v: Value)
        ensures
            v == Value::Mapping(value),
            v@ == ValueView::Mapping(pair_views(value@)),
    {
        proof {
            lemma_view_mapping(value);
        }
        Value::Mapping(value)
    }

    pub fn extension(value: Extension) -> (v: Value)
        ensures
            v == Value::Extension(value),
    {
        Value::Extension(value)
    }
}

impl From<bool> for Value {
    fn from(value: bool) -> (v: Value)
        ensures
            v == Value::Bool(value),
    {
        Value::Bool(value)
    }
}

impl FromSpecImpl<bool> for Value {
    open spec fn obeys_from_spec() -> bool {
        true
    }

    open spec fn from_spec(value: bool) -> Value {
        Value::Bool(value)
    }
}

impl From<u8> for Value {
    fn from(value: u8) -> (v: Value)
        ensures
            v == Value::U8(value),
    {
        Value::U8(value)
    }
}

impl FromSpecImpl<u8> for Value {
    open spec fn obeys_from_spec() -> bool {
        true
    }

    open spec fn from_spec(value: u8) -> Value {
        Value::U8(value)
    }
}

impl From<u16> for Value {
    fn from(value: u16) -> (v: Value)
        ensures
            v == Value::U16(value),
    {
        Value::U16(value)
    }
}

impl FromSpecImpl<u16> for Value {
    open spec fn obeys_from_spec() -> bool {
        true
    }

    open spec fn from_spec(value: u16) -> Value {
        Value::U16(value)
    }
}

impl From<u32> for Value {
    fn from(value: u32) -> (v: Value)
        ensures
            v == Value::U32(value),
    {
        Value::U32(value)
    }
}

impl FromSpecImpl<u32> for Value {
    open spec fn obeys_from_spec() -> bool {
        true
    }

    open spec fn from_spec(value: u32) -> Value {
        Value::U32(value)
    }
}

impl From<u64> for Value {
    fn from(value: u64) -> (v: Value)
        ensures
            v == Value::U64(value),
    {
        Value::U64(value)
    }
}

impl FromSpecImpl<u64> for Value {
    open spec fn obeys_from_spec() -> bool {
        true
    }

    open spec fn from_spec(value: u64) -> Value {
        Value::U64(value)
    }
}

impl From<Float32> for Value {
    fn from(value: Float32) -> (v: Value)
        ensures
            v == Value::F32(value),
    {
        Value::F32(value)
    }
}

impl FromSpecImpl<Float32> for Value {
    open spec fn obeys_from_spec() -> bool {
        true
    }

    open spec fn from_spec(value: Float32) -> Value {
        Value::F32(value)
    }
}

impl From<Float64> for Value {
    fn from(value: Float64) -> (v: Value)
        ensures
            v == Value::F64(value),
    {
        Value::F64(value)
    }
}

impl FromSpecImpl<Float64> for Value {
    open spec fn obeys_from_spec() -> bool {
        true
    }

    open spec fn from_spec(value: Float64) -> Value {
        Value::F64(value)
    }
}

impl From<i8> for Value {
    fn from(value: i8) -> (v: Value)
        ensures
            v == Value::I8(value),
    {
        Value::I8(value)
    }
}

impl FromSpecImpl<i8> for Value {
    open spec fn obeys_from_spec() -> bool {
        true
    }

    open spec fn from_spec(value: i8) -> Value {
        Value::I8(value)
    }
}

impl From<i16> for Value {
    fn from(value: i16) -> (v: Value)
        ensures
            v == Value::I16(value),
    {
        Value::I16(value)
    }
}

impl FromSpecImpl<i16> for Value {
    open spec fn obeys_from_spec() -> bool {
        true
    }

    open spec fn from_spec(value: i16) -> Value {
        Value::I16(value)
    }
}

impl From<i32> for Value {
    fn from(value: i32) -> (v: Value)
        ensures
            v == Value::I32(value),
    {
        Value::I32(value)
    }
}

impl FromSpecImpl<i32> for Value {
    open spec fn obeys_from_spec() -> bool {
        true
    }

    open spec fn from_spec(value: i32) -> Value {
        Value::I32(value)
    }
}

impl From<i64> for Value {
    fn from(value: i64) -> (v: Value)
        ensures
            v == Value::I64(value),
    {
        Value::I64(value)
    }
}

impl FromSpecImpl<i64> for Value {
    open spec fn obeys_from_spec() -> bool {
        true
    }

    open spec fn from_spec(value: i64) -> Value {
        Value::I64(value)
    }
}

impl From<String> for Value {
    fn from(value: String) -> (v: Value)
        ensures
            v == Value::Str(value),
    {
        Value::Str(value)
    }
}

impl FromSpecImpl<String> for Value {
    open spec fn obeys_from_spec() -> bool {
        true
    }

    open spec fn from_spec(value: String) -> Value {
        Value::Str(value)
    }
}

impl From<Vec<Value>> for Value {
    fn from(value: Vec<Value>) -> (v: Value)
        ensures
            v == Value::Array(value),
    {
        Value::Array(value)
    }
}

impl FromSpecImpl<Vec<Value>> for Value {
    open spec fn obeys_from_spec() -> bool {
        true
    }

    open spec fn from_spec(value: Vec<Value>) -> Value {
        Value::Array(value)
    }
}

impl From<Vec<(Value, Value)>> for Value {
    fn from(value: Vec<(Value, Value)>) -> (v: Value)
        ensures
            v == Value::Mapping(value),
    {
        Value::Mapping(value)
    }
}

impl FromSpecImpl<Vec<(Value, Value)>> for Value {
    open spec fn obeys_from_spec() -> bool {
        true
    }

    open spec fn from_spec(value: Vec<(Value, Value)>) -> Value {
        Value::Mapping(value)
    }
}

impl From<Extension> for Value {
    fn from(value: Extension) -> (v: Value)
        ensures
            v == Value::Extension(value),
    {
        Value::Extension(value)
    }
}

impl FromSpecImpl<Extension> for Value {
    open spec fn obeys_from_spec() -> bool {
        true
    }

    open spec fn from_spec(value: Extension) -> Value {
        Value::Extension(value)
    }
}

} // verus!
