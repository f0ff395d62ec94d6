use nexus::ring_buffer::{Event, MpmcRingBuffer, SpscRingBuffer, TypedRingBuffer};

#[test]
fn test_mpmc_ring_buffer_basic() {
    let mut buffer = MpmcRingBuffer::new(16);

    for i in 0..10 {
        buffer.push(i).unwrap();
    }

    for i in 0..10 {
        assert_eq!(buffer.pop(), Some(i));
    }

    assert_eq!(buffer.pop(), None);
}

#[test]
fn test_mpmc_ring_buffer_full() {
    let mut buffer = MpmcRingBuffer::new(4);

    let capacity = buffer.capacity();
    assert_eq!(capacity, 4);

    for i in 0..capacity {
        assert!(buffer.push(i).is_ok(), "Push {} should succeed", i);
    }

    assert!(buffer.is_full());
    assert!(buffer.push(100).is_err());
}

#[test]
fn test_mpmc_ring_buffer_close() {
    let mut buffer = MpmcRingBuffer::new(16);

    buffer.push(1).unwrap();
    buffer.push(2).unwrap();

    buffer.close();

    assert!(buffer.push(3).is_err());

    assert_eq!(buffer.pop(), Some(1));
    assert_eq!(buffer.pop(), Some(2));
    assert_eq!(buffer.pop(), None);
}

#[test]
fn test_spsc_ring_buffer() {
    let mut buffer = SpscRingBuffer::new(16);

    for i in 0..10 {
        buffer.push(i).unwrap();
    }

    for i in 0..10 {
        assert_eq!(buffer.pop(), Some(i));
    }

    assert_eq!(buffer.pop(), None);
}

#[test]
fn test_spsc_ring_buffer_close() {
    let mut buffer = SpscRingBuffer::new(16);

    buffer.push(1).unwrap();
    buffer.push(2).unwrap();
    buffer.close();

    assert!(buffer.push(3).is_err());
    assert_eq!(buffer.pop(), Some(1));
    assert_eq!(buffer.pop(), Some(2));
    assert_eq!(buffer.pop(), None);
}

#[derive(Debug, Clone, Copy, PartialEq, Eq, Hash)]
enum EventType {
    A,
    B,
}

#[derive(PartialEq, Debug)]
struct TestEvent {
    event_type: EventType,
    data: i32,
}

impl Event for TestEvent {
    type Type = EventType;

    fn spec_event_type(&self) -> Self::Type {
        self.event_type
    }

    fn event_type(&self) -> Self::Type {
        self.event_type
    }
}

#[test]
fn test_typed_ring_buffer() {
    let mut buffer = TypedRingBuffer::new(16);

    buffer.push(TestEvent { event_type: EventType::A, data: 1 }).unwrap();
    buffer.push(TestEvent { event_type: EventType::B, data: 2 }).unwrap();
    buffer.push(TestEvent { event_type: EventType::A, data: 3 }).unwrap();

    let slot = buffer.pop().unwrap();
    assert_eq!(slot.event_type, EventType::A);
    assert_eq!(slot.event.data, 1);
}

#[test]
fn test_ring_buffer_len() {
    let mut buffer = MpmcRingBuffer::new(16);
    assert_eq!(buffer.len(), 0);
    assert!(buffer.is_empty());

    buffer.push(1).unwrap();
    buffer.push(2).unwrap();
    assert_eq!(buffer.len(), 2);

    buffer.pop();
    assert_eq!(buffer.len(), 1);
}

#[test]
fn test_ring_buffer_overwrites_oldest_slot_on_full() {
    let mut buffer = MpmcRingBuffer::new(150);

    let capacity = buffer.capacity();

    for i in 0..capacity {
        buffer.push(i as u64).unwrap();
    }

    assert!(buffer.is_full(), "Buffer should be full after filling");

    let result = buffer.push(capacity as u64);
    assert!(result.is_err(), "Push on full buffer should fail");

    for i in 0..capacity {
        let item = buffer.pop();
        assert!(item.is_some(), "Should get item {}", i);
        assert_eq!(item.unwrap(), i as u64, "Item {} should be {}", i, i);
    }

    assert!(buffer.is_empty());
}

#[test]
fn test_ring_buffer_wraparound_multiple_times() {
    let mut buffer = MpmcRingBuffer::new(16);
    let capacity = buffer.capacity();

    for round in 0..5 {
        for i in 0..capacity {
            buffer.push((round * capacity + i) as u64).unwrap();
        }

        for i in 0..capacity {
            let item = buffer.pop().unwrap();
            assert_eq!(item, (round * capacity + i) as u64, "Round {}, item {} mismatch", round, i);
        }
    }

    assert!(buffer.is_empty(), "Buffer should be empty after draining");
}

#[test]
fn capacity_rounds_up_to_power_of_two() {
    let buffer: MpmcRingBuffer<u8> = MpmcRingBuffer::new(150);
    assert_eq!(buffer.capacity(), 256);
    assert_eq!(buffer.remaining(), 256);
}

#[test]
fn into_iter_yields_items_oldest_first() {
    let mut buffer = MpmcRingBuffer::new(4);
    buffer.push(5).unwrap();
    buffer.push(6).unwrap();
    buffer.push(7).unwrap();
    let mut it = buffer.into_iter();
    assert_eq!(it.next(), Some(5));
    assert_eq!(it.next(), Some(6));
    assert_eq!(it.next(), Some(7));
    assert_eq!(it.next(), None);
}

#[test]
fn typed_ring_buffer_pop_by_type_takes_every_entry_of_the_type() {
    let mut buffer = TypedRingBuffer::new(8);
    buffer.push(TestEvent { event_type: EventType::A, data: 1 }).unwrap();
    buffer.push(TestEvent { event_type: EventType::A, data: 2 }).unwrap();
    buffer.push(TestEvent { event_type: EventType::B, data: 3 }).unwrap();
    buffer.push(TestEvent { event_type: EventType::A, data: 4 }).unwrap();
    buffer.push(TestEvent { event_type: EventType::B, data: 5 }).unwrap();
    let a = buffer.pop_by_type(EventType::A);
    let data: Vec<i32> = a.iter().map(|s| s.event.data).collect();
    assert_eq!(data, vec![1, 2, 4]);
    // Entries of other types stay, in their order.
    assert_eq!(buffer.len(), 2);
    assert_eq!(buffer.pop().unwrap().event.data, 3);
    assert_eq!(buffer.pop().unwrap().event.data, 5);
    assert!(buffer.pop_by_type(EventType::A).is_empty());
}

#[test]
fn typed_ring_buffer_tags_each_entry_with_its_event_type() {
    let mut b = TypedRingBuffer::new(16);
    b.push(TestEvent { event_type: EventType::A, data: 1 }).unwrap();
    b.push(TestEvent { event_type: EventType::B, data: 2 }).unwrap();
    b.push(TestEvent { event_type: EventType::A, data: 3 }).unwrap();
    let a: Vec<i32> = b.pop_by_type(EventType::A).iter().map(|s| s.event.data).collect();
    assert_eq!(a, vec![1, 3]);
    assert_eq!(b.len(), 1);
    let rest = b.pop().unwrap();
    assert_eq!(rest.event_type, EventType::B);
    assert_eq!(rest.event.data, 2);
}
