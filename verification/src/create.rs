//! Construction helpers: one per (shape, flavor) combination, each
//! wrapping a raw callable — and, for the method flavor, a shared receiver
//! handle — into the tagged `Slot` union. Wrapping performs no I/O and
//! takes no lock; it cannot fail.
//!
//! A method slot's callable is adapted to accept a type-erased mutable
//! receiver reference: at invocation time the adapter checks that the
//! receiver really is of the bound concrete type, and yields a failure
//! instead of invoking anything when the check fails.

use std::any::Any;
use std::sync::{Arc, Mutex};
use vstd::prelude::*;

use crate::slots::{FuncArg, FuncNone, MethodArg, MethodNone, Receiver, Shape, SharedReceiver, Slot};
use crate::slots::{slot_is_method, slot_shape};

verus! {

/// Relies on Arc::new and Mutex::new: wraps the callable into a shared,
/// exclusively lockable handle.
#[verifier::external_body]
fn func_none_new<F: Fn() -> Result<(), String> + Send + Sync + 'static>(func: F) -> FuncNone {
    FuncNone { inner: Arc::new(Mutex::new(func)) }
}

/// Relies on Arc::new and Mutex::new: wraps the callable into a shared,
/// exclusively lockable handle.
#[verifier::external_body]
fn func_arg_new<D: 'static, F: Fn(D) -> Result<(), String> + Send + Sync + 'static>(
    func: F,
) -> FuncArg<D> {
    FuncArg { inner: Arc::new(Mutex::new(func)) }
}

/// Relies on Arc::new, Mutex::new and Any::downcast_mut: erases the
/// receiver handle's concrete type, and adapts the callable to check at
/// invocation time that the erased receiver is of that type again,
/// yielding a failure instead of invoking anything when it is not.
#[verifier::external_body]
fn method_none_new<T: Send + Sync + 'static, F: Fn(&mut T) -> Result<(), String> + Send + Sync + 'static>(
    func: F,
    obj: SharedReceiver<T>,
) -> (Receiver, MethodNone) {
    let erased: Arc<Mutex<dyn Any + Send + Sync>> = obj.inner;
    let adapted = move |target: &mut dyn Any| {
        match target.downcast_mut::<T>() {
            Some(value) => func(value),
            None => Err(String::from("Couldn't cast for Method use")),
        }
    };
    (Receiver { inner: erased }, MethodNone { inner: Arc::new(Mutex::new(adapted)) })
}

/// Relies on Arc::new, Mutex::new and Any::downcast_mut: erases the
/// receiver handle's concrete type, and adapts the callable to check at
/// invocation time that the erased receiver is of that type again,
/// yielding a failure instead of invoking anything when it is not.
#[verifier::external_body]
fn method_arg_new<T: Send + Sync + 'static, D: 'static, F: Fn(&mut T, D) -> Result<(), String> + Send + Sync + 'static>(
    func: F,
    obj: SharedReceiver<T>,
) -> (Receiver, MethodArg<D>) {
    let erased: Arc<Mutex<dyn Any + Send + Sync>> = obj.inner;
    let adapted = move |target: &mut dyn Any, data: D| {
        match target.downcast_mut::<T>() {
            Some(value) => func(value, data),
            None => Err(String::from("Couldn't cast for Method use")),
        }
    };
    (Receiver { inner: erased }, MethodArg { inner: Arc::new(Mutex::new(adapted)) })
}

/// Wraps a callable taking no payload into a plain slot.
pub fn none_slot<F: Fn() -> Result<(), String> + Send + Sync + 'static>(func: F) -> (s: Slot)
    ensures
        s is FnNone,
        slot_shape(s) == Shape::Empty,
        !slot_is_method(s),
{
    Slot::FnNone(func_none_new(func))
}

/// Wraps a callable taking one integer into a plain slot.
pub fn int_slot<F: Fn(i32) -> Result<(), String> + Send + Sync + 'static>(func: F) -> (s: Slot)
    ensures
        s is FnInt,
        slot_shape(s) == Shape::Int,
        !slot_is_method(s),
{
    Slot::FnInt(func_arg_new(func))
}

/// Wraps a callable taking an integer sequence into a plain slot.
pub fn int_array_slot<F: Fn(Vec<i32>) -> Result<(), String> + Send + Sync + 'static>(
    func: F,
) -> (s: Slot)
    ensures
        s is FnIntArray,
        slot_shape(s) == Shape::IntArray,
        !slot_is_method(s),
{
    Slot::FnIntArray(func_arg_new(func))
}

/// Wraps a callable taking one float, as its raw bit pattern, into a
/// plain slot.
pub fn float_slot<F: Fn(u32) -> Result<(), String> + Send + Sync + 'static>(func: F) -> (s: Slot)
    ensures
        s is FnFloat,
        slot_shape(s) == Shape::Float,
        !slot_is_method(s),
{
    Slot::FnFloat(func_arg_new(func))
}

/// Wraps a callable taking a float sequence, as raw bit patterns, into a
/// plain slot.
pub fn float_array_slot<F: Fn(Vec<u32>) -> Result<(), String> + Send + Sync + 'static>(
    func: F,
) -> (s: Slot)
    ensures
        s is FnFloatArray,
        slot_shape(s) == Shape::FloatArray,
        !slot_is_method(s),
{
    Slot::FnFloatArray(func_arg_new(func))
}

/// Wraps a callable taking one boolean into a plain slot.
pub fn bool_slot<F: Fn(bool) -> Result<(), String> + Send + Sync + 'static>(func: F) -> (s: Slot)
    ensures
        s is FnBool,
        slot_shape(s) == Shape::Bool,
        !slot_is_method(s),
{
    Slot::FnBool(func_arg_new(func))
}

/// Wraps a callable taking a boolean sequence into a plain slot.
pub fn bool_array_slot<F: Fn(Vec<bool>) -> Result<(), String> + Send + Sync + 'static>(
    func: F,
) -> (s: Slot)
    ensures
        s is FnBoolArray,
        slot_shape(s) == Shape::BoolArray,
        !slot_is_method(s),
{
    Slot::FnBoolArray(func_arg_new(func))
}

/// Wraps a callable taking one text value into a plain slot.
pub fn string_slot<F: Fn(String) -> Result<(), String> + Send + Sync + 'static>(func: F) -> (s: Slot)
    ensures
        s is FnString,
        slot_shape(s) == Shape::Text,
        !slot_is_method(s),
{
    Slot::FnString(func_arg_new(func))
}

/// Wraps a callable taking a text sequence into a plain slot.
pub fn string_array_slot<F: Fn(Vec<String>) -> Result<(), String> + Send + Sync + 'static>(
    func: F,
) -> (s: Slot)
    ensures
        s is FnStringArray,
        slot_shape(s) == Shape::TextArray,
        !slot_is_method(s),
{
    Slot::FnStringArray(func_arg_new(func))
}

/// Binds a callable taking no payload to a shared receiver as a method
/// slot.
pub fn none_method_slot<
    T: Send + Sync + 'static,
    F: Fn(&mut T) -> Result<(), String> + Send + Sync + 'static,
>(func: F, obj: SharedReceiver<T>) -> (s: Slot)
    ensures
        s is FnNoneMethod,
        slot_shape(s) == Shape::Empty,
        slot_is_method(s),
{
    let (recv, call) = method_none_new(func, obj);
    Slot::FnNoneMethod(recv, call)
}

/// Binds a callable taking one integer to a shared receiver as a method
/// slot.
pub fn int_method_slot<
    T: Send + Sync + 'static,
    F: Fn(&mut T, i32) -> Result<(), String> + Send + Sync + 'static,
>(func: F, obj: SharedReceiver<T>) -> (s: Slot)
    ensures
        s is FnIntMethod,
        slot_shape(s) == Shape::Int,
        slot_is_method(s),
{
    let (recv, call) = method_arg_new(func, obj);
    Slot::FnIntMethod(recv, call)
}

/// Binds a callable taking an integer sequence to a shared receiver as a
/// method slot.
pub fn int_array_method_slot<
    T: Send + Sync + 'static,
    F: Fn(&mut T, Vec<i32>) -> Result<(), String> + Send + Sync + 'static,
>(func: F, obj: SharedReceiver<T>) -> (s: Slot)
    ensures
        s is FnIntArrayMethod,
        slot_shape(s) == Shape::IntArray,
        slot_is_method(s),
{
    let (recv, call) = method_arg_new(func, obj);
    Slot::FnIntArrayMethod(recv, call)
}

/// Binds a callable taking one float, as its raw bit pattern, to a shared
/// receiver as a method slot.
pub fn float_method_slot<
    T: Send + Sync + 'static,
    F: Fn(&mut T, u32) -> Result<(), String> + Send + Sync + 'static,
>(func: F, obj: SharedReceiver<T>) -> (s: Slot)
    ensures
        s is FnFloatMethod,
        slot_shape(s) == Shape::Float,
        slot_is_method(s),
{
    let (recv, call) = method_arg_new(func, obj);
    Slot::FnFloatMethod(recv, call)
}

/// Binds a callable taking a float sequence, as raw bit patterns, to a
/// shared receiver as a method slot.
pub fn float_array_method_slot<
    T: Send + Sync + 'static,
    F: Fn(&mut T, Vec<u32>) -> Result<(), String> + Send + Sync + 'static,
>(func: F, obj: SharedReceiver<T>) -> (s: Slot)
    ensures
        s is FnFloatArrayMethod,
        slot_shape(s) == Shape::FloatArray,
        slot_is_method(s),
{
    let (recv, call) = method_arg_new(func, obj);
    Slot::FnFloatArrayMethod(recv, call)
}

/// Binds a callable taking one boolean to a shared receiver as a method
/// slot.
pub fn bool_method_slot<
    T: Send + Sync + 'static,
    F: Fn(&mut T, bool) -> Result<(), String> + Send + Sync + 'static,
>(func: F, obj: SharedReceiver<T>) -> (s: Slot)
    ensures
        s is FnBoolMethod,
        slot_shape(s) == Shape::Bool,
        slot_is_method(s),
{
    let (recv, call) = method_arg_new(func, obj);
    Slot::FnBoolMethod(recv, call)
}

/// Binds a callable taking a boolean sequence to a shared receiver as a
/// method slot.
pub fn bool_array_method_slot<
    T: Send + Sync + 'static,
    F: Fn(&mut T, Vec<bool>) -> Result<(), String> + Send + Sync + 'static,
>(func: F, obj: SharedReceiver<T>) -> (s: Slot)
    ensures
        s is FnBoolArrayMethod,
        slot_shape(s) == Shape::BoolArray,
        slot_is_method(s),
{
    let (recv, call) = method_arg_new(func, obj);
    Slot::FnBoolArrayMethod(recv, call)
}

/// Binds a callable taking one text value to a shared receiver as a
/// method slot.
pub fn string_method_slot<
    T: Send + Sync + 'static,
    F: Fn(&mut T, String) -> Result<(), String> + Send + Sync + 'static,
>(func: F, obj: SharedReceiver<T>) -> (s: Slot)
    ensures
        s is FnStringMethod,
        slot_shape(s) == Shape::Text,
        slot_is_method(s),
{
    let (recv, call) = method_arg_new(func, obj);
    Slot::FnStringMethod(recv, call)
}

/// Binds a callable taking a text sequence to a shared receiver as a
/// method slot.
pub fn string_array_method_slot<
    T: Send + Sync + 'static,
    F: Fn(&mut T, Vec<String>) -> Result<(), String> + Send + Sync + 'static,
>(func: F, obj: SharedReceiver<T>) -> (s: Slot)
    ensures
        s is FnStringArrayMethod,
        slot_shape(s) == Shape::TextArray,
        slot_is_method(s),
{
    let (recv, call) = method_arg_new(func, obj);
    Slot::FnStringArrayMethod(recv, call)
}

} // verus!
