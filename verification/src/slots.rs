//! The slot variant model: the closed set of callable shapes a slot can
//! take, in a plain flavor and in a receiver-bound ("method") flavor.
//!
//! A callable itself cannot be reasoned about, so each one is held behind
//! a small opaque handle type; everything around the handles — the tagged
//! unions, their shapes, and duplication — is verified.

use std::any::Any;
use std::sync::{Arc, Mutex};
use vstd::prelude::*;

verus! {

/// The shape of a payload: the discriminant a slot declares at
/// construction and an emitted value carries, used to decide which slots
/// respond to an emit call.
pub enum Shape {
    Empty,
    Int,
    IntArray,
    Float,
    FloatArray,
    Bool,
    BoolArray,
    Text,
    TextArray,
}

/// A shared, exclusively lockable handle to a callable taking no payload.
#[verifier::external_body]
pub struct FuncNone {
    pub(crate) inner: Arc<Mutex<dyn Fn() -> Result<(), String> + Send + Sync>>,
}

/// A shared, exclusively lockable handle to a callable taking one payload
/// value of type `D`.
#[verifier::external_body]
#[verifier::reject_recursive_types(D)]
pub struct FuncArg<D> {
    pub(crate) inner: Arc<Mutex<dyn Fn(D) -> Result<(), String> + Send + Sync>>,
}

/// A shared, exclusively lockable handle to a receiver object whose
/// concrete type has been erased; method slots lock it for the whole of
/// each invocation.
#[verifier::external_body]
pub struct Receiver {
    pub(crate) inner: Arc<Mutex<dyn Any + Send + Sync>>,
}

/// A shared, exclusively lockable handle to a callable bound to an erased
/// receiver and taking no payload.
#[verifier::external_body]
pub struct MethodNone {
    pub(crate) inner: Arc<Mutex<dyn Fn(&mut dyn Any) -> Result<(), String> + Send + Sync>>,
}

/// A shared, exclusively lockable handle to a callable bound to an erased
/// receiver and taking one payload value of type `D`.
#[verifier::external_body]
#[verifier::reject_recursive_types(D)]
pub struct MethodArg<D> {
    pub(crate) inner: Arc<Mutex<dyn Fn(&mut dyn Any, D) -> Result<(), String> + Send + Sync>>,
}

/// A shared, exclusively lockable handle to a receiver object of concrete
/// type `T`; duplicating it shares the same underlying object, so several
/// method slots can be bound to one receiver.
#[verifier::external_body]
#[verifier::reject_recursive_types(T)]
pub struct SharedReceiver<T> {
    pub(crate) inner: Arc<Mutex<T>>,
}

impl Clone for FuncNone {
    /// Relies on Arc::clone: the duplicate shares the same underlying
    /// callable, so it stands for the same handle.
    #[verifier::external_body]
    fn clone(&self) -> (r: Self)
        ensures
            r == *self,
    {
        FuncNone { inner: Arc::clone(&self.inner) }
    }
}

impl<D> Clone for FuncArg<D> {
    /// Relies on Arc::clone: the duplicate shares the same underlying
    /// callable, so it stands for the same handle.
    #[verifier::external_body]
    fn clone(&self) -> (r: Self)
        ensures
            r == *self,
    {
        FuncArg { inner: Arc::clone(&self.inner) }
    }
}

impl Clone for Receiver {
    /// Relies on Arc::clone: the duplicate shares the same underlying
    /// receiver object, so it stands for the same handle.
    #[verifier::external_body]
    fn clone(&self) -> (r: Self)
        ensures
            r == *self,
    {
        Receiver { inner: Arc::clone(&self.inner) }
    }
}

impl Clone for MethodNone {
    /// Relies on Arc::clone: the duplicate shares the same underlying
    /// callable, so it stands for the same handle.
    #[verifier::external_body]
    fn clone(&self) -> (r: Self)
        ensures
            r == *self,
    {
        MethodNone { inner: Arc::clone(&self.inner) }
    }
}

impl<D> Clone for MethodArg<D> {
    /// Relies on Arc::clone: the duplicate shares the same underlying
    /// callable, so it stands for the same handle.
    #[verifier::external_body]
    fn clone(&self) -> (r: Self)
        ensures
            r == *self,
    {
        MethodArg { inner: Arc::clone(&self.inner) }
    }
}

impl<T> Clone for SharedReceiver<T> {
    /// Relies on Arc::clone: the duplicate shares the same underlying
    /// receiver object, so it stands for the same handle.
    #[verifier::external_body]
    fn clone(&self) -> (r: Self)
        ensures
            r == *self,
    {
        SharedReceiver { inner: Arc::clone(&self.inner) }
    }
}

impl<T> SharedReceiver<T> {
    /// Relies on Arc::new and Mutex::new: wraps the value into a shared,
    /// exclusively lockable handle.
    #[verifier::external_body]
    pub fn new(value: T) -> SharedReceiver<T> {
        SharedReceiver { inner: Arc::new(Mutex::new(value)) }
    }
}

/// A registered typed callback: one arm per payload shape, in a plain
/// flavor and in a receiver-bound flavor. A method arm keeps its receiver
/// handle and its callable handle together as one pair.
pub enum Slot {
    FnNone(FuncNone),
    FnInt(FuncArg<i32>),
    FnIntArray(FuncArg<Vec<i32>>),
    FnFloat(FuncArg<u32>),
    FnFloatArray(FuncArg<Vec<u32>>),
    FnBool(FuncArg<bool>),
    FnBoolArray(FuncArg<Vec<bool>>),
    FnString(FuncArg<String>),
    FnStringArray(FuncArg<Vec<String>>),
    FnNoneMethod(Receiver, MethodNone),
    FnIntMethod(Receiver, MethodArg<i32>),
    FnIntArrayMethod(Receiver, MethodArg<Vec<i32>>),
    FnFloatMethod(Receiver, MethodArg<u32>),
    FnFloatArrayMethod(Receiver, MethodArg<Vec<u32>>),
    FnBoolMethod(Receiver, MethodArg<bool>),
    FnBoolArrayMethod(Receiver, MethodArg<Vec<bool>>),
    FnStringMethod(Receiver, MethodArg<String>),
    FnStringArrayMethod(Receiver, MethodArg<Vec<String>>),
}

/// The typed value carried by an emit call and accepted by a slot.
///
/// A 32-bit float travels as its raw bit pattern (`u32`), and a float
/// sequence as a vector of such bit patterns; callers convert with
/// `f32::to_bits` and `f32::from_bits` at the boundary. Dispatch only ever
/// compares shapes, never the numeric value.
pub enum SlotArgs {
    Empty,
    Int(i32),
    IntArray(Vec<i32>),
    Float(u32),
    FloatArray(Vec<u32>),
    Bool(bool),
    BoolArray(Vec<bool>),
    Text(String),
    TextArray(Vec<String>),
}

/// The mathematical value of a payload: sequences in place of vectors,
/// character sequences in place of text.
pub enum ArgsValue {
    Empty,
    Int(i32),
    IntArray(Seq<i32>),
    Float(u32),
    FloatArray(Seq<u32>),
    Bool(bool),
    BoolArray(Seq<bool>),
    Text(Seq<char>),
    TextArray(Seq<Seq<char>>),
}

impl View for SlotArgs {
    type V = ArgsValue;

    open spec fn view(&self) -> ArgsValue {
        match self {
            SlotArgs::Empty => ArgsValue::Empty,
            SlotArgs::Int(d) => ArgsValue::Int(*d),
            SlotArgs::IntArray(d) => ArgsValue::IntArray(d@),
            SlotArgs::Float(d) => ArgsValue::Float(*d),
            SlotArgs::FloatArray(d) => ArgsValue::FloatArray(d@),
            SlotArgs::Bool(d) => ArgsValue::Bool(*d),
            SlotArgs::BoolArray(d) => ArgsValue::BoolArray(d@),
            SlotArgs::Text(d) => ArgsValue::Text(d@),
            SlotArgs::TextArray(d) => ArgsValue::TextArray(
                d@.map_values(|s: String| s@),
            ),
        }
    }
}

/// Copies a vector of plainly copyable values element by element.
pub(crate) fn dup_copies<T: Copy>(v: &Vec<T>) -> (r: Vec<T>)
    ensures
        r@ == v@,
{
    let mut r: Vec<T> = Vec::new();
    let mut i: usize = 0;
    while i < v.len()
        invariant
            i <= v.len(),
            r@ == v@.take(i as int),
        decreases v.len() - i,
    {
        r.push(v[i]);
        proof {
            assert(v@.take(i as int + 1) =~= v@.take(i as int).push(v@[i as int]));
        }
        i = i + 1;
    }
    proof {
        assert(v@.take(v.len() as int) =~= v@);
    }
    r
}

/// Copies a vector of text values element by element.
pub(crate) fn dup_strings(v: &Vec<String>) -> (r: Vec<String>)
    ensures
        r@ == v@,
{
    let mut r: Vec<String> = Vec::new();
    let mut i: usize = 0;
    while i < v.len()
        invariant
            i <= v.len(),
            r@ == v@.take(i as int),
        decreases v.len() - i,
    {
        r.push(v[i].clone());
        proof {
            assert(v@.take(i as int + 1) =~= v@.take(i as int).push(v@[i as int]));
        }
        i = i + 1;
    }
    proof {
        assert(v@.take(v.len() as int) =~= v@);
    }
    r
}


impl Clone for SlotArgs {
    /// Duplicating a payload copies its value: the duplicate carries the
    /// same mathematical value as the original.
    fn clone(&self) -> (r: Self)
        ensures
            r@ == self@,
    {
        match self {
            SlotArgs::Empty => SlotArgs::Empty,
            SlotArgs::Int(d) => SlotArgs::Int(*d),
            SlotArgs::IntArray(d) => SlotArgs::IntArray(dup_copies(d)),
            SlotArgs::Float(d) => SlotArgs::Float(*d),
            SlotArgs::FloatArray(d) => SlotArgs::FloatArray(dup_copies(d)),
            SlotArgs::Bool(d) => SlotArgs::Bool(*d),
            SlotArgs::BoolArray(d) => SlotArgs::BoolArray(dup_copies(d)),
            SlotArgs::Text(d) => SlotArgs::Text(d.clone()),
            SlotArgs::TextArray(d) => SlotArgs::TextArray(dup_strings(d)),
        }
    }
}

/// The shape a payload carries.
pub open spec fn arg_shape(args: SlotArgs) -> Shape {
    match args {
        SlotArgs::Empty => Shape::Empty,
        SlotArgs::Int(_) => Shape::Int,
        SlotArgs::IntArray(_) => Shape::IntArray,
        SlotArgs::Float(_) => Shape::Float,
        SlotArgs::FloatArray(_) => Shape::FloatArray,
        SlotArgs::Bool(_) => Shape::Bool,
        SlotArgs::BoolArray(_) => Shape::BoolArray,
        SlotArgs::Text(_) => Shape::Text,
        SlotArgs::TextArray(_) => Shape::TextArray,
    }
}

/// The shape a slot declared at construction.
pub open spec fn slot_shape(slot: Slot) -> Shape {
    match slot {
        Slot::FnNone(_) => Shape::Empty,
        Slot::FnInt(_) => Shape::Int,
        Slot::FnIntArray(_) => Shape::IntArray,
        Slot::FnFloat(_) => Shape::Float,
        Slot::FnFloatArray(_) => Shape::FloatArray,
        Slot::FnBool(_) => Shape::Bool,
        Slot::FnBoolArray(_) => Shape::BoolArray,
        Slot::FnString(_) => Shape::Text,
        Slot::FnStringArray(_) => Shape::TextArray,
        Slot::FnNoneMethod(_, _) => Shape::Empty,
        Slot::FnIntMethod(_, _) => Shape::Int,
        Slot::FnIntArrayMethod(_, _) => Shape::IntArray,
        Slot::FnFloatMethod(_, _) => Shape::Float,
        Slot::FnFloatArrayMethod(_, _) => Shape::FloatArray,
        Slot::FnBoolMethod(_, _) => Shape::Bool,
        Slot::FnBoolArrayMethod(_, _) => Shape::BoolArray,
        Slot::FnStringMethod(_, _) => Shape::Text,
        Slot::FnStringArrayMethod(_, _) => Shape::TextArray,
    }
}

/// Whether a slot is bound to a receiver.
pub open spec fn slot_is_method(slot: Slot) -> bool {
    match slot {
        Slot::FnNoneMethod(_, _) => true,
        Slot::FnIntMethod(_, _) => true,
        Slot::FnIntArrayMethod(_, _) => true,
        Slot::FnFloatMethod(_, _) => true,
        Slot::FnFloatArrayMethod(_, _) => true,
        Slot::FnBoolMethod(_, _) => true,
        Slot::FnBoolArrayMethod(_, _) => true,
        Slot::FnStringMethod(_, _) => true,
        Slot::FnStringArrayMethod(_, _) => true,
        _ => false,
    }
}

impl Clone for Slot {
    /// Duplicating a slot shares the underlying callable and receiver
    /// handles, so the duplicate is the same slot value: the same slot may
    /// be connected under several signal names, or twice under one name.
    fn clone(&self) -> (r: Self)
        ensures
            r == *self,
    {
        match self {
            Slot::FnNone(f) => Slot::FnNone(f.clone()),
            Slot::FnInt(f) => Slot::FnInt(f.clone()),
            Slot::FnIntArray(f) => Slot::FnIntArray(f.clone()),
            Slot::FnFloat(f) => Slot::FnFloat(f.clone()),
            Slot::FnFloatArray(f) => Slot::FnFloatArray(f.clone()),
            Slot::FnBool(f) => Slot::FnBool(f.clone()),
            Slot::FnBoolArray(f) => Slot::FnBoolArray(f.clone()),
            Slot::FnString(f) => Slot::FnString(f.clone()),
            Slot::FnStringArray(f) => Slot::FnStringArray(f.clone()),
            Slot::FnNoneMethod(o, f) => Slot::FnNoneMethod(o.clone(), f.clone()),
            Slot::FnIntMethod(o, f) => Slot::FnIntMethod(o.clone(), f.clone()),
            Slot::FnIntArrayMethod(o, f) => Slot::FnIntArrayMethod(o.clone(), f.clone()),
            Slot::FnFloatMethod(o, f) => Slot::FnFloatMethod(o.clone(), f.clone()),
            Slot::FnFloatArrayMethod(o, f) => Slot::FnFloatArrayMethod(o.clone(), f.clone()),
            Slot::FnBoolMethod(o, f) => Slot::FnBoolMethod(o.clone(), f.clone()),
            Slot::FnBoolArrayMethod(o, f) => Slot::FnBoolArrayMethod(o.clone(), f.clone()),
            Slot::FnStringMethod(o, f) => Slot::FnStringMethod(o.clone(), f.clone()),
            Slot::FnStringArrayMethod(o, f) => Slot::FnStringArrayMethod(o.clone(), f.clone()),
        }
    }
}

} // verus!
