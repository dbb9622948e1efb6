use spsc_ring::error::Error;
use spsc_ring::ring_buffer::{Init, Queue, RingBuffer};
use std::cell::Cell;
use std::rc::Rc;

struct Counted {
    drops: Rc<Cell<usize>>,
    id: usize,
}

impl Drop for Counted {
    fn drop(&mut self) {
        self.drops.set(self.drops.get() + 1);
    }
}

#[test]
fn ring_of_four_holds_three() {
    let mut ring: RingBuffer<u32, 4> = RingBuffer::new();
    assert_eq!(ring.push(1), Ok(()));
    assert_eq!(ring.push(2), Ok(()));
    assert_eq!(ring.push(3), Ok(()));
    assert_eq!(ring.push(4), Err((Error::Full, 4)));
    assert_eq!(ring.pop(), Ok(1));
    assert_eq!(ring.pop(), Ok(2));
    assert_eq!(ring.push(4), Ok(()));
    assert_eq!(ring.pop(), Ok(3));
    assert_eq!(ring.pop(), Ok(4));
    assert_eq!(ring.pop(), Err(Error::Empty));
}

#[test]
fn new_ring_is_empty() {
    let mut ring: RingBuffer<u8, 8> = RingBuffer::new();
    assert!(ring.is_empty());
    assert!(!ring.is_full());
    assert_eq!(ring.size(), 8);
    assert_eq!(ring.front(), 0);
    assert_eq!(ring.rear(), 0);
    assert_eq!(ring.pop(), Err(Error::Empty));
}

#[test]
fn push_then_pop_returns_the_value() {
    let mut ring: RingBuffer<String, 2> = RingBuffer::new();
    assert_eq!(ring.push(String::from("only")), Ok(()));
    assert_eq!(ring.pop(), Ok(String::from("only")));
    assert!(ring.is_empty());
    assert_eq!(ring.pop(), Err(Error::Empty));
}

#[test]
fn pop_moves_the_value_out() {
    let drops = Rc::new(Cell::new(0));
    let mut ring: RingBuffer<Counted, 4> = RingBuffer::new();
    assert!(ring.push(Counted { drops: drops.clone(), id: 7 }).is_ok());
    let item = ring.pop().ok().unwrap();
    assert_eq!(item.id, 7);
    assert_eq!(drops.get(), 0);
    drop(item);
    assert_eq!(drops.get(), 1);
    drop(ring);
    assert_eq!(drops.get(), 1);
}

#[test]
fn full_ring_hands_the_value_back() {
    let mut ring: RingBuffer<String, 3> = RingBuffer::new();
    assert_eq!(ring.push(String::from("a")), Ok(()));
    assert_eq!(ring.push(String::from("b")), Ok(()));
    assert!(ring.is_full());
    assert_eq!(ring.push(String::from("c")), Err((Error::Full, String::from("c"))));
    assert_eq!(ring.front(), 2);
    assert_eq!(ring.rear(), 0);
    assert_eq!(ring.pop(), Ok(String::from("a")));
    assert_eq!(ring.pop(), Ok(String::from("b")));
    assert_eq!(ring.pop(), Err(Error::Empty));
}

#[test]
fn capacity_is_one_less_than_size() {
    let mut ring: RingBuffer<usize, 16> = RingBuffer::new();
    for i in 0..15 {
        assert!(!ring.is_full());
        assert_eq!(ring.push(i), Ok(()));
    }
    assert!(ring.is_full());
    assert_eq!(ring.push(15), Err((Error::Full, 15)));
    for i in 0..15 {
        assert_eq!(ring.pop(), Ok(i));
    }
    assert!(ring.is_empty());
    assert_eq!(ring.pop(), Err(Error::Empty));
}

#[test]
fn ring_of_one_slot_holds_nothing() {
    let mut ring: RingBuffer<u8, 1> = RingBuffer::new();
    assert!(ring.is_empty());
    assert!(ring.is_full());
    assert_eq!(ring.push(9), Err((Error::Full, 9)));
    assert_eq!(ring.pop(), Err(Error::Empty));
}

#[test]
fn order_survives_many_wraps() {
    let mut ring: RingBuffer<u32, 3> = RingBuffer::new();
    let mut pushed = Vec::new();
    let mut popped = Vec::new();
    let mut next = 0;
    for round in 0..50 {
        for _ in 0..(round % 3 + 1) {
            if ring.push(next).is_ok() {
                pushed.push(next);
            }
            next += 1;
        }
        for _ in 0..(round % 2 + 1) {
            if let Ok(value) = ring.pop() {
                popped.push(value);
            }
        }
    }
    while let Ok(value) = ring.pop() {
        popped.push(value);
    }
    assert!(pushed.len() > 60);
    assert_eq!(popped, pushed);
}

#[test]
fn cursors_wrap_at_a_size_that_is_no_power_of_two() {
    let mut ring: RingBuffer<u8, 3> = RingBuffer::new();
    assert_eq!(ring.push(1), Ok(()));
    assert_eq!(ring.push(2), Ok(()));
    assert_eq!(ring.front(), 2);
    assert_eq!(ring.pop(), Ok(1));
    assert_eq!(ring.rear(), 1);
    assert_eq!(ring.push(3), Ok(()));
    assert_eq!(ring.front(), 0);
    assert_eq!(ring.pop(), Ok(2));
    assert_eq!(ring.pop(), Ok(3));
    assert_eq!(ring.rear(), 0);
    assert!(ring.is_empty());
}

#[test]
fn clear_empties_the_ring() {
    let drops = Rc::new(Cell::new(0));
    let mut ring: RingBuffer<Counted, 4> = RingBuffer::new();
    assert!(ring.push(Counted { drops: drops.clone(), id: 1 }).is_ok());
    assert!(ring.push(Counted { drops: drops.clone(), id: 2 }).is_ok());
    assert!(ring.pop().is_ok());
    assert_eq!(drops.get(), 1);
    ring.clear();
    assert_eq!(drops.get(), 2);
    assert!(ring.is_empty());
    assert_eq!(ring.front(), 0);
    assert_eq!(ring.rear(), 0);
    assert!(ring.pop().is_err());
    assert!(ring.push(Counted { drops: drops.clone(), id: 3 }).is_ok());
    assert_eq!(ring.pop().ok().unwrap().id, 3);
}

#[test]
fn initializer_fills_every_slot_once() {
    let drops = Rc::new(Cell::new(0));
    let made = Rc::new(Cell::new(0));
    let mut ring: RingBuffer<Counted, 4> = Init::new(|i: usize| {
        made.set(made.get() + 1);
        Counted { drops: drops.clone(), id: i }
    });
    assert_eq!(made.get(), 4);
    assert_eq!(drops.get(), 0);
    assert!(ring.is_empty());
    assert!(ring.pop().is_err());
    assert!(ring.push(Counted { drops: drops.clone(), id: 10 }).is_ok());
    assert_eq!(drops.get(), 1);
    assert_eq!(ring.pop().ok().unwrap().id, 10);
    assert_eq!(drops.get(), 2);
    drop(ring);
    assert_eq!(drops.get(), 5);
}

#[test]
fn initialized_ring_has_full_capacity() {
    let mut ring: RingBuffer<usize, 4> = Init::new(|i: usize| i * i);
    assert_eq!(ring.push(5), Ok(()));
    assert_eq!(ring.push(6), Ok(()));
    assert_eq!(ring.push(7), Ok(()));
    assert_eq!(ring.push(8), Err((Error::Full, 8)));
    assert_eq!(ring.pop(), Ok(5));
    assert_eq!(ring.pop(), Ok(6));
    assert_eq!(ring.pop(), Ok(7));
    assert_eq!(ring.pop(), Err(Error::Empty));
}

fn fill_and_drain<Q: Queue<u32>>(limit: u32) -> Vec<u32> {
    let mut queue = Q::new_empty();
    assert!(queue.is_empty());
    let mut stored = 0;
    while queue.push(stored) {
        stored += 1;
        assert!(stored <= limit);
    }
    assert!(queue.is_full());
    let mut out = Vec::new();
    while let Some(value) = queue.pop() {
        out.push(value);
    }
    assert!(queue.is_empty());
    out
}

#[test]
fn queue_trait_fills_and_drains_in_order() {
    assert_eq!(fill_and_drain::<RingBuffer<u32, 5>>(4), vec![0, 1, 2, 3]);
    assert_eq!(fill_and_drain::<RingBuffer<u32, 2>>(1), vec![0]);
}

#[test]
fn queue_trait_push_reports_a_full_ring() {
    let mut ring: RingBuffer<u32, 2> = Queue::new_empty();
    assert!(Queue::push(&mut ring, 1));
    assert!(!Queue::push(&mut ring, 2));
    assert_eq!(Queue::pop(&mut ring), Some(1));
    assert_eq!(Queue::pop(&mut ring), None);
}
