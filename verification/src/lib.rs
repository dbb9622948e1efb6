//! Lock-free primitives for exactly one producer and one consumer: a bounded
//! FIFO ring and a latest-value slot, with the index arithmetic they share.
//!
//! `RingBuffer` and `LockFreeValue` are the two structures under exclusive
//! access; their contracts are stated over `fifo` and `latest`, and the laws
//! of order and of the latest value that those two modules hold are proved
//! of these two structures.
//!
//! `lockfree_queue` and `lockfree_value` hold the two-thread forms: a
//! producing and a consuming handle over storage of their own, made of
//! shared cells and atomic cursors. With the exclusive structures they share
//! only the decisions in `cursor`, each of which takes the cursor that was
//! seen as an argument. Of the handles themselves the contracts state what
//! holds whatever the other thread did.

pub mod cursor;
pub mod error;
pub mod fifo;
pub mod latest;
pub mod lockfree_queue;
pub mod lockfree_value;
pub mod ring_buffer;
pub mod shared;
pub mod slots;
pub mod value_slot;

pub use error::Error;
pub use lockfree_queue::{ringbuffer, ringbuffer_init, RingBufferReceiver, RingBufferSender};
pub use lockfree_value::{make_value, ValueReader, ValueWriter};
pub use ring_buffer::{Init, Queue, RingBuffer};
pub use value_slot::LockFreeValue;
