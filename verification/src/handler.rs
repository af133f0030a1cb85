//! The dispatch engine: the ordered connection registry, `connect`, and
//! `emit` with its select, fan-out, join and report phases.
//!
//! Selection is verified against the model in `dispatch`: the invocations
//! an emit dispatches carry exactly the slots `selected_slots` names, in
//! registry order, each paired with the emitted payload's value. Running
//! the invocations — locking a callable, calling it, spreading the calls
//! over worker threads and joining them — goes through small trusted
//! wrappers around the thread pool and the stored callables.

use std::io::Write;
use std::ops::{Deref, DerefMut};
use vstd::prelude::*;

use crate::dispatch::{connection_matches, lemma_selected_push, selected_slots};
use crate::slots::{ArgsValue, FuncArg, FuncNone, MethodArg, MethodNone, Receiver, Slot, SlotArgs};
use crate::slots::{arg_shape, dup_copies, dup_strings, slot_shape};

verus! {

#[verifier::external_type_specification]
#[verifier::external_body]
pub struct ExThreadPool(threadpool::ThreadPool);

/// One slot invocation an emit call has decided to dispatch: duplicates
/// of the matched slot's handles, paired with the payload value the
/// callable will receive.
pub enum Invocation {
    FnNone(FuncNone),
    FnInt(FuncArg<i32>, i32),
    FnIntArray(FuncArg<Vec<i32>>, Vec<i32>),
    FnFloat(FuncArg<u32>, u32),
    FnFloatArray(FuncArg<Vec<u32>>, Vec<u32>),
    FnBool(FuncArg<bool>, bool),
    FnBoolArray(FuncArg<Vec<bool>>, Vec<bool>),
    FnString(FuncArg<String>, String),
    FnStringArray(FuncArg<Vec<String>>, Vec<String>),
    FnNoneMethod(Receiver, MethodNone),
    FnIntMethod(Receiver, MethodArg<i32>, i32),
    FnIntArrayMethod(Receiver, MethodArg<Vec<i32>>, Vec<i32>),
    FnFloatMethod(Receiver, MethodArg<u32>, u32),
    FnFloatArrayMethod(Receiver, MethodArg<Vec<u32>>, Vec<u32>),
    FnBoolMethod(Receiver, MethodArg<bool>, bool),
    FnBoolArrayMethod(Receiver, MethodArg<Vec<bool>>, Vec<bool>),
    FnStringMethod(Receiver, MethodArg<String>, String),
    FnStringArrayMethod(Receiver, MethodArg<Vec<String>>, Vec<String>),
}

/// The slot an invocation was selected from.
pub open spec fn inv_slot(inv: Invocation) -> Slot {
    match inv {
        Invocation::FnNone(f) => Slot::FnNone(f),
        Invocation::FnInt(f, _) => Slot::FnInt(f),
        Invocation::FnIntArray(f, _) => Slot::FnIntArray(f),
        Invocation::FnFloat(f, _) => Slot::FnFloat(f),
        Invocation::FnFloatArray(f, _) => Slot::FnFloatArray(f),
        Invocation::FnBool(f, _) => Slot::FnBool(f),
        Invocation::FnBoolArray(f, _) => Slot::FnBoolArray(f),
        Invocation::FnString(f, _) => Slot::FnString(f),
        Invocation::FnStringArray(f, _) => Slot::FnStringArray(f),
        Invocation::FnNoneMethod(o, f) => Slot::FnNoneMethod(o, f),
        Invocation::FnIntMethod(o, f, _) => Slot::FnIntMethod(o, f),
        Invocation::FnIntArrayMethod(o, f, _) => Slot::FnIntArrayMethod(o, f),
        Invocation::FnFloatMethod(o, f, _) => Slot::FnFloatMethod(o, f),
        Invocation::FnFloatArrayMethod(o, f, _) => Slot::FnFloatArrayMethod(o, f),
        Invocation::FnBoolMethod(o, f, _) => Slot::FnBoolMethod(o, f),
        Invocation::FnBoolArrayMethod(o, f, _) => Slot::FnBoolArrayMethod(o, f),
        Invocation::FnStringMethod(o, f, _) => Slot::FnStringMethod(o, f),
        Invocation::FnStringArrayMethod(o, f, _) => Slot::FnStringArrayMethod(o, f),
    }
}

/// The payload value an invocation carries for its callable.
pub open spec fn inv_args(inv: Invocation) -> ArgsValue {
    match inv {
        Invocation::FnNone(_) => ArgsValue::Empty,
        Invocation::FnInt(_, d) => ArgsValue::Int(d),
        Invocation::FnIntArray(_, d) => ArgsValue::IntArray(d@),
        Invocation::FnFloat(_, d) => ArgsValue::Float(d),
        Invocation::FnFloatArray(_, d) => ArgsValue::FloatArray(d@),
        Invocation::FnBool(_, d) => ArgsValue::Bool(d),
        Invocation::FnBoolArray(_, d) => ArgsValue::BoolArray(d@),
        Invocation::FnString(_, d) => ArgsValue::Text(d@),
        Invocation::FnStringArray(_, d) => ArgsValue::TextArray(d@.map_values(|s: String| s@)),
        Invocation::FnNoneMethod(_, _) => ArgsValue::Empty,
        Invocation::FnIntMethod(_, _, d) => ArgsValue::Int(d),
        Invocation::FnIntArrayMethod(_, _, d) => ArgsValue::IntArray(d@),
        Invocation::FnFloatMethod(_, _, d) => ArgsValue::Float(d),
        Invocation::FnFloatArrayMethod(_, _, d) => ArgsValue::FloatArray(d@),
        Invocation::FnBoolMethod(_, _, d) => ArgsValue::Bool(d),
        Invocation::FnBoolArrayMethod(_, _, d) => ArgsValue::BoolArray(d@),
        Invocation::FnStringMethod(_, _, d) => ArgsValue::Text(d@),
        Invocation::FnStringArrayMethod(_, _, d) => ArgsValue::TextArray(
            d@.map_values(|s: String| s@),
        ),
    }
}

/// The slots a list of invocations was selected from, in order.
pub open spec fn inv_slots(invs: Seq<Invocation>) -> Seq<Slot> {
    invs.map_values(|inv: Invocation| inv_slot(inv))
}

/// Duplicates a plain no-payload slot's callable handle for one
/// invocation; the duplicate shares the underlying callable.
pub fn clone_all_function_none(func_mtx: &FuncNone) -> (r: FuncNone)
    ensures
        r == *func_mtx,
{
    func_mtx.clone()
}

/// Duplicates a plain slot's callable handle for one invocation and
/// passes the payload value through with it.
pub fn clone_all_function_arg<D>(func_mtx: &FuncArg<D>, data: D) -> (r: (FuncArg<D>, D))
    ensures
        r.0 == *func_mtx,
        r.1 == data,
{
    (func_mtx.clone(), data)
}

/// Duplicates a no-payload method slot's callable and receiver handles
/// for one invocation; the duplicates share the underlying objects.
pub fn clone_all_method_none(func_mtx: &MethodNone, obj_mtx: &Receiver) -> (r: (MethodNone, Receiver))
    ensures
        r.0 == *func_mtx,
        r.1 == *obj_mtx,
{
    (func_mtx.clone(), obj_mtx.clone())
}

/// Duplicates a method slot's callable and receiver handles for one
/// invocation and passes the payload value through with them.
pub fn clone_all_method_arg<D>(func_mtx: &MethodArg<D>, obj_mtx: &Receiver, data: D) -> (r: (
    MethodArg<D>,
    Receiver,
    D,
))
    ensures
        r.0 == *func_mtx,
        r.1 == *obj_mtx,
        r.2 == data,
{
    (func_mtx.clone(), obj_mtx.clone(), data)
}

/// Whether a slot's declared shape accepts an emitted payload: the test
/// by which one signal name multiplexes slots of different shapes, a
/// mismatch being a silent skip rather than an error.
pub fn slot_accepts(slot: &Slot, args: &SlotArgs) -> (b: bool)
    ensures
        b == (slot_shape(*slot) == arg_shape(*args)),
{
    match (slot, args) {
        (Slot::FnNone(_), SlotArgs::Empty) => true,
        (Slot::FnInt(_), SlotArgs::Int(_)) => true,
        (Slot::FnIntArray(_), SlotArgs::IntArray(_)) => true,
        (Slot::FnFloat(_), SlotArgs::Float(_)) => true,
        (Slot::FnFloatArray(_), SlotArgs::FloatArray(_)) => true,
        (Slot::FnBool(_), SlotArgs::Bool(_)) => true,
        (Slot::FnBoolArray(_), SlotArgs::BoolArray(_)) => true,
        (Slot::FnString(_), SlotArgs::Text(_)) => true,
        (Slot::FnStringArray(_), SlotArgs::TextArray(_)) => true,
        (Slot::FnNoneMethod(_, _), SlotArgs::Empty) => true,
        (Slot::FnIntMethod(_, _), SlotArgs::Int(_)) => true,
        (Slot::FnIntArrayMethod(_, _), SlotArgs::IntArray(_)) => true,
        (Slot::FnFloatMethod(_, _), SlotArgs::Float(_)) => true,
        (Slot::FnFloatArrayMethod(_, _), SlotArgs::FloatArray(_)) => true,
        (Slot::FnBoolMethod(_, _), SlotArgs::Bool(_)) => true,
        (Slot::FnBoolArrayMethod(_, _), SlotArgs::BoolArray(_)) => true,
        (Slot::FnStringMethod(_, _), SlotArgs::Text(_)) => true,
        (Slot::FnStringArrayMethod(_, _), SlotArgs::TextArray(_)) => true,
        _ => false,
    }
}

/// Builds the invocation for one matched, shape-compatible connection:
/// duplicates the slot's shared handles and pairs them with the payload
/// value.
fn make_invocation(slot: &Slot, args: &SlotArgs) -> (inv: Invocation)
    requires
        slot_shape(*slot) == arg_shape(*args),
    ensures
        inv_slot(inv) == *slot,
        inv_args(inv) == args@,
{
    match (slot, args) {
        (Slot::FnNone(func_mtx), SlotArgs::Empty) => {
            let func_mtx = clone_all_function_none(func_mtx);
            Invocation::FnNone(func_mtx)
        },
        (Slot::FnInt(func_mtx), SlotArgs::Int(data)) => {
            let (func_mtx, data) = clone_all_function_arg(func_mtx, *data);
            Invocation::FnInt(func_mtx, data)
        },
        (Slot::FnIntArray(func_mtx), SlotArgs::IntArray(data)) => {
            let (func_mtx, data) = clone_all_function_arg(func_mtx, dup_copies(data));
            Invocation::FnIntArray(func_mtx, data)
        },
        (Slot::FnFloat(func_mtx), SlotArgs::Float(data)) => {
            let (func_mtx, data) = clone_all_function_arg(func_mtx, *data);
            Invocation::FnFloat(func_mtx, data)
        },
        (Slot::FnFloatArray(func_mtx), SlotArgs::FloatArray(data)) => {
            let (func_mtx, data) = clone_all_function_arg(func_mtx, dup_copies(data));
            Invocation::FnFloatArray(func_mtx, data)
        },
        (Slot::FnBool(func_mtx), SlotArgs::Bool(data)) => {
            let (func_mtx, data) = clone_all_function_arg(func_mtx, *data);
            Invocation::FnBool(func_mtx, data)
        },
        (Slot::FnBoolArray(func_mtx), SlotArgs::BoolArray(data)) => {
            let (func_mtx, data) = clone_all_function_arg(func_mtx, dup_copies(data));
            Invocation::FnBoolArray(func_mtx, data)
        },
        (Slot::FnString(func_mtx), SlotArgs::Text(data)) => {
            let (func_mtx, data) = clone_all_function_arg(func_mtx, data.clone());
            Invocation::FnString(func_mtx, data)
        },
        (Slot::FnStringArray(func_mtx), SlotArgs::TextArray(data)) => {
            let (func_mtx, data) = clone_all_function_arg(func_mtx, dup_strings(data));
            Invocation::FnStringArray(func_mtx, data)
        },
        (Slot::FnNoneMethod(obj_mtx, func_mtx), SlotArgs::Empty) => {
            let (func_mtx, obj_mtx) = clone_all_method_none(func_mtx, obj_mtx);
            Invocation::FnNoneMethod(obj_mtx, func_mtx)
        },
        (Slot::FnIntMethod(obj_mtx, func_mtx), SlotArgs::Int(data)) => {
            let (func_mtx, obj_mtx, data) = clone_all_method_arg(func_mtx, obj_mtx, *data);
            Invocation::FnIntMethod(obj_mtx, func_mtx, data)
        },
        (Slot::FnIntArrayMethod(obj_mtx, func_mtx), SlotArgs::IntArray(data)) => {
            let (func_mtx, obj_mtx, data) = clone_all_method_arg(
                func_mtx,
                obj_mtx,
                dup_copies(data),
            );
            Invocation::FnIntArrayMethod(obj_mtx, func_mtx, data)
        },
        (Slot::FnFloatMethod(obj_mtx, func_mtx), SlotArgs::Float(data)) => {
            let (func_mtx, obj_mtx, data) = clone_all_method_arg(func_mtx, obj_mtx, *data);
            Invocation::FnFloatMethod(obj_mtx, func_mtx, data)
        },
        (Slot::FnFloatArrayMethod(obj_mtx, func_mtx), SlotArgs::FloatArray(data)) => {
            let (func_mtx, obj_mtx, data) = clone_all_method_arg(
                func_mtx,
                obj_mtx,
                dup_copies(data),
            );
            Invocation::FnFloatArrayMethod(obj_mtx, func_mtx, data)
        },
        (Slot::FnBoolMethod(obj_mtx, func_mtx), SlotArgs::Bool(data)) => {
            let (func_mtx, obj_mtx, data) = clone_all_method_arg(func_mtx, obj_mtx, *data);
            Invocation::FnBoolMethod(obj_mtx, func_mtx, data)
        },
        (Slot::FnBoolArrayMethod(obj_mtx, func_mtx), SlotArgs::BoolArray(data)) => {
            let (func_mtx, obj_mtx, data) = clone_all_method_arg(
                func_mtx,
                obj_mtx,
                dup_copies(data),
            );
            Invocation::FnBoolArrayMethod(obj_mtx, func_mtx, data)
        },
        (Slot::FnStringMethod(obj_mtx, func_mtx), SlotArgs::Text(data)) => {
            let (func_mtx, obj_mtx, data) = clone_all_method_arg(func_mtx, obj_mtx, data.clone());
            Invocation::FnStringMethod(obj_mtx, func_mtx, data)
        },
        (Slot::FnStringArrayMethod(obj_mtx, func_mtx), SlotArgs::TextArray(data)) => {
            let (func_mtx, obj_mtx, data) = clone_all_method_arg(
                func_mtx,
                obj_mtx,
                dup_strings(data),
            );
            Invocation::FnStringArrayMethod(obj_mtx, func_mtx, data)
        },
        _ => unreached(),
    }
}

/// Relies on std::sync::Mutex::lock and on the stored callable: locks the
/// callable's handle for the duration of the call and invokes it with no
/// argument; a poisoned lock is taken over rather than propagated.
#[verifier::external_body]
fn call_function_none(func_mtx: &FuncNone) -> Result<(), String> {
    let func_guard = match func_mtx.inner.lock() {
        Ok(guard) => guard,
        Err(poisoned) => poisoned.into_inner(),
    };
    (func_guard.deref())()
}

/// Relies on std::sync::Mutex::lock and on the stored callable: locks the
/// callable's handle for the duration of the call and invokes it with the
/// payload value; a poisoned lock is taken over rather than propagated.
#[verifier::external_body]
fn call_function_arg<D>(func_mtx: &FuncArg<D>, data: D) -> Result<(), String> {
    let func_guard = match func_mtx.inner.lock() {
        Ok(guard) => guard,
        Err(poisoned) => poisoned.into_inner(),
    };
    (func_guard.deref())(data)
}

/// Relies on std::sync::Mutex::lock and on the stored callable: locks the
/// callable's handle, then the receiver's — in that fixed order — holds
/// both for the duration of the call, and invokes the callable on the
/// receiver; a poisoned lock is taken over rather than propagated.
#[verifier::external_body]
fn call_method_none(obj_mtx: &Receiver, func_mtx: &MethodNone) -> Result<(), String> {
    let func_guard = match func_mtx.inner.lock() {
        Ok(guard) => guard,
        Err(poisoned) => poisoned.into_inner(),
    };
    let mut obj_guard = match obj_mtx.inner.lock() {
        Ok(guard) => guard,
        Err(poisoned) => poisoned.into_inner(),
    };
    (func_guard.deref())(obj_guard.deref_mut())
}

/// Relies on std::sync::Mutex::lock and on the stored callable: locks the
/// callable's handle, then the receiver's — in that fixed order — holds
/// both for the duration of the call, and invokes the callable on the
/// receiver with the payload value; a poisoned lock is taken over rather
/// than propagated.
#[verifier::external_body]
fn call_method_arg<D>(obj_mtx: &Receiver, func_mtx: &MethodArg<D>, data: D) -> Result<(), String> {
    let func_guard = match func_mtx.inner.lock() {
        Ok(guard) => guard,
        Err(poisoned) => poisoned.into_inner(),
    };
    let mut obj_guard = match obj_mtx.inner.lock() {
        Ok(guard) => guard,
        Err(poisoned) => poisoned.into_inner(),
    };
    (func_guard.deref())(obj_guard.deref_mut(), data)
}

/// Relies on std::io::stderr: reports one slot failure on the error
/// stream, the engine's observability side channel.
#[verifier::external_body]
fn report_failure(reason: &String) {
    let _ = writeln!(std::io::stderr(), "ERROR: {}", reason);
}

/// Performs one invocation: locks the handles, calls the callable, and
/// hands back its outcome.
fn invoke_one(inv: Invocation) -> Result<(), String> {
    match inv {
        Invocation::FnNone(func_mtx) => call_function_none(&func_mtx),
        Invocation::FnInt(func_mtx, data) => call_function_arg(&func_mtx, data),
        Invocation::FnIntArray(func_mtx, data) => call_function_arg(&func_mtx, data),
        Invocation::FnFloat(func_mtx, data) => call_function_arg(&func_mtx, data),
        Invocation::FnFloatArray(func_mtx, data) => call_function_arg(&func_mtx, data),
        Invocation::FnBool(func_mtx, data) => call_function_arg(&func_mtx, data),
        Invocation::FnBoolArray(func_mtx, data) => call_function_arg(&func_mtx, data),
        Invocation::FnString(func_mtx, data) => call_function_arg(&func_mtx, data),
        Invocation::FnStringArray(func_mtx, data) => call_function_arg(&func_mtx, data),
        Invocation::FnNoneMethod(obj_mtx, func_mtx) => call_method_none(&obj_mtx, &func_mtx),
        Invocation::FnIntMethod(obj_mtx, func_mtx, data) => call_method_arg(
            &obj_mtx,
            &func_mtx,
            data,
        ),
        Invocation::FnIntArrayMethod(obj_mtx, func_mtx, data) => call_method_arg(
            &obj_mtx,
            &func_mtx,
            data,
        ),
        Invocation::FnFloatMethod(obj_mtx, func_mtx, data) => call_method_arg(
            &obj_mtx,
            &func_mtx,
            data,
        ),
        Invocation::FnFloatArrayMethod(obj_mtx, func_mtx, data) => call_method_arg(
            &obj_mtx,
            &func_mtx,
            data,
        ),
        Invocation::FnBoolMethod(obj_mtx, func_mtx, data) => call_method_arg(
            &obj_mtx,
            &func_mtx,
            data,
        ),
        Invocation::FnBoolArrayMethod(obj_mtx, func_mtx, data) => call_method_arg(
            &obj_mtx,
            &func_mtx,
            data,
        ),
        Invocation::FnStringMethod(obj_mtx, func_mtx, data) => call_method_arg(
            &obj_mtx,
            &func_mtx,
            data,
        ),
        Invocation::FnStringArrayMethod(obj_mtx, func_mtx, data) => call_method_arg(
            &obj_mtx,
            &func_mtx,
            data,
        ),
    }
}

/// Performs one invocation and contains its outcome: a textual failure is
/// reported on the side channel and goes no further, so no slot's failure
/// reaches the emitter or a sibling slot.
fn run_invocation(inv: Invocation) {
    match invoke_one(inv) {
        Ok(()) => (),
        Err(reason) => report_failure(&reason),
    }
}

/// Relies on threadpool::ThreadPool::new: a pool of that many worker
/// threads; the pool panics on zero workers, so zero is excluded.
#[verifier::external_body]
fn pool_new(workers: usize) -> threadpool::ThreadPool
    requires
        workers >= 1,
{
    threadpool::ThreadPool::new(workers)
}

/// Relies on threadpool::ThreadPool::execute: queues one invocation to
/// run on a worker thread; the closure only calls `run_invocation`.
#[verifier::external_body]
fn pool_execute(pool: &threadpool::ThreadPool, inv: Invocation) {
    pool.execute(move || run_invocation(inv));
}

/// Relies on threadpool::ThreadPool::join: returns only after every job
/// queued on the pool has finished, the barrier that makes emit
/// synchronous; a worker that dies abnormally is replaced and its job
/// still counts as finished, so the join cannot hang on a failed slot.
#[verifier::external_body]
fn pool_join(pool: &threadpool::ThreadPool) {
    pool.join();
}

/// The dispatch engine: the ordered registry of (signal name, slot)
/// connections. Connections are appended, never removed or mutated;
/// insertion order is preserved but carries no dispatch-ordering
/// guarantee.
pub struct SignalAndSlotHandler {
    connections: Vec<(String, Slot)>,
}

impl View for SignalAndSlotHandler {
    type V = Seq<(Seq<char>, Slot)>;

    closed spec fn view(&self) -> Seq<(Seq<char>, Slot)> {
        self.connections@.map_values(|conn: (String, Slot)| (conn.0@, conn.1))
    }
}

impl Default for SignalAndSlotHandler {
    /// A handler with no connections.
    fn default() -> (r: Self)
        ensures
            r@ == Seq::<(Seq<char>, Slot)>::empty(),
    {
        let r = SignalAndSlotHandler { connections: Vec::new() };
        proof {
            assert(r@ =~= Seq::<(Seq<char>, Slot)>::empty());
        }
        r
    }
}

impl SignalAndSlotHandler {
    /// A handler with no connections.
    pub fn new() -> (r: SignalAndSlotHandler)
        ensures
            r@ == Seq::<(Seq<char>, Slot)>::empty(),
    {
        SignalAndSlotHandler::default()
    }

    /// Appends one connection to the registry: no uniqueness check, no
    /// limit, never fails; the registry grows by exactly that pair.
    pub fn connect(&mut self, signal: String, slot: Slot)
        ensures
            final(self)@ == old(self)@.push((signal@, slot)),
    {
        let ghost before = self@;
        self.connections.push((signal, slot));
        proof {
            assert(self@ =~= before.push((signal@, slot)));
        }
    }

    /// Selects the invocations one emit call dispatches: exactly the
    /// slots of the shape-matching connections under `signal`, in
    /// registry order, each paired with the emitted payload's value.
    /// Connections under other names, and connections under `signal`
    /// whose slot declares another shape, contribute nothing.
    pub fn select_matching(&self, signal: &String, args: &SlotArgs) -> (invs: Vec<Invocation>)
        ensures
            inv_slots(invs@) == selected_slots(self@, signal@, arg_shape(*args)),
            invs@.len() == selected_slots(self@, signal@, arg_shape(*args)).len(),
            forall|k: int| 0 <= k < invs@.len() ==> inv_args(#[trigger] invs@[k]) == args@,
    {
        let ghost shape = arg_shape(*args);
        let mut invs: Vec<Invocation> = Vec::new();
        proof {
            assert(inv_slots(invs@) =~= selected_slots(self@.take(0), signal@, shape));
        }
        let mut i: usize = 0;
        while i < self.connections.len()
            invariant
                i <= self.connections.len(),
                self@.len() == self.connections@.len(),
                shape == arg_shape(*args),
                inv_slots(invs@) == selected_slots(self@.take(i as int), signal@, shape),
                forall|k: int| 0 <= k < invs@.len() ==> inv_args(#[trigger] invs@[k]) == args@,
            decreases self.connections.len() - i,
        {
            let conn = &self.connections[i];
            proof {
                assert(self@[i as int] == (self.connections@[i as int].0@,
                self.connections@[i as int].1));
                assert(self@.take(i as int + 1) =~= self@.take(i as int).push(self@[i as int]));
                lemma_selected_push(self@.take(i as int), self@[i as int], signal@, shape);
            }
            if conn.0 == *signal {
                if slot_accepts(&conn.1, args) {
                    let inv = make_invocation(&conn.1, args);
                    proof {
                        assert(connection_matches(self@[i as int], signal@, shape));
                        assert(inv_slots(invs@.push(inv)) =~= inv_slots(invs@).push(inv_slot(inv)));
                    }
                    invs.push(inv);
                } else {
                    proof {
                        assert(!connection_matches(self@[i as int], signal@, shape));
                    }
                }
            } else {
                proof {
                    assert(!connection_matches(self@[i as int], signal@, shape));
                }
            }
            i = i + 1;
        }
        proof {
            assert(self@.take(self.connections.len() as int) =~= self@);
            assert(inv_slots(invs@).len() == invs@.len());
        }
        invs
    }

    /// Emits `signal` with a payload: selects every shape-matching
    /// connection under that name (see `select_matching`), runs one
    /// invocation per match on its own worker thread, and returns only
    /// after all of them have finished. A failing slot is reported on the
    /// side channel and stops neither its siblings nor the emitter; a
    /// name with no matching connection is a no-op.
    pub fn emit(&self, signal: String, slot_args: SlotArgs) {
        let mut invs = self.select_matching(&signal, &slot_args);
        if invs.len() > 0 {
            let pool = pool_new(invs.len());
            while invs.len() > 0
                decreases invs.len(),
            {
                let inv = invs.pop().unwrap();
                pool_execute(&pool, inv);
            }
            pool_join(&pool);
        }
    }
}

} // verus!

