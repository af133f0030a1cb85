//! An in-process, type-discriminated signal/slot dispatcher.
//!
//! Named events ("signals") are connected to typed callbacks ("slots");
//! emitting a signal with a payload invokes, concurrently, every slot
//! connected under that name whose accepted payload shape matches the
//! emitted payload's shape, and blocks until all of them have finished.

pub mod create;
pub mod dispatch;
pub mod handler;
pub mod slots;

pub use dispatch::connection_matches;
pub use dispatch::lemma_fanout_count;
pub use dispatch::lemma_selected_push;
pub use dispatch::lemma_shape_matching;
pub use dispatch::lemma_unknown_signal;
pub use dispatch::matching_count;
pub use dispatch::selected_slots;
pub use handler::Invocation;
pub use handler::SignalAndSlotHandler;
pub use handler::clone_all_function_arg;
pub use handler::clone_all_function_none;
pub use handler::clone_all_method_arg;
pub use handler::clone_all_method_none;
pub use handler::inv_args;
pub use handler::inv_slot;
pub use handler::inv_slots;
pub use handler::slot_accepts;
pub use slots::ArgsValue;
pub use slots::FuncArg;
pub use slots::FuncNone;
pub use slots::MethodArg;
pub use slots::MethodNone;
pub use slots::Receiver;
pub use slots::Shape;
pub use slots::SharedReceiver;
pub use slots::Slot;
pub use slots::SlotArgs;
pub use slots::arg_shape;
pub use slots::slot_is_method;
pub use slots::slot_shape;
