use mini_containers::containers::array::Array;
use std::cell::Cell;
use std::rc::Rc;

/// An element that counts how often a value of its kind is destroyed.
struct Counted {
    id: usize,
    drops: Rc<Cell<usize>>,
}

impl Clone for Counted {
    fn clone(&self) -> Self {
        Counted { id: self.id, drops: Rc::clone(&self.drops) }
    }
}

impl Drop for Counted {
    fn drop(&mut self) {
        self.drops.set(self.drops.get() + 1);
    }
}

#[test]
fn test_array() {
    let mut arr = Array::with(5, 10);
    assert_eq!(arr.capacity(), 10);
    assert_eq!(arr.size(), 10);
    assert_eq!(arr.at(3), 5);
    arr.set(3, 56);
    assert_eq!(arr.at(3), 56);
}

#[test]
fn fresh_array_is_empty_with_the_capacity_asked_for() {
    for cap in [0usize, 1, 2, 17, 1024] {
        let arr: Array<u32> = Array::with_capacity(cap);
        assert_eq!(arr.size(), 0);
        assert_eq!(arr.capacity(), cap);
        assert!(arr.empty());
    }
}

#[test]
fn filled_array_is_full() {
    for cap in [0usize, 1, 3, 64] {
        let arr = Array::with(9u8, cap);
        assert_eq!(arr.size(), cap);
        assert_eq!(arr.capacity(), cap);
        assert_eq!(arr.empty(), cap == 0);
        for i in 0..cap {
            assert_eq!(arr.at(i), 9);
        }
    }
}

#[test]
fn set_then_at_round_trips_on_every_slot() {
    let mut arr = Array::with(0i64, 8);
    for i in 0..8 {
        arr.set(i, 100 + i as i64);
        assert_eq!(arr.at(i), 100 + i as i64);
    }
    for i in 0..8 {
        assert_eq!(arr.at(i), 100 + i as i64);
    }
    assert_eq!(arr.size(), 8);
    assert_eq!(arr.capacity(), 8);
}

#[test]
fn set_leaves_the_other_slots_alone() {
    let mut arr = Array::with(1u16, 4);
    arr.set(2, 7);
    assert_eq!(arr.at(0), 1);
    assert_eq!(arr.at(1), 1);
    assert_eq!(arr.at(2), 7);
    assert_eq!(arr.at(3), 1);
}

#[test]
fn pop_on_empty_array_yields_nothing() {
    let mut arr: Array<u8> = Array::with_capacity(4);
    assert_eq!(arr.pop(), None);
    assert_eq!(arr.size(), 0);
    assert_eq!(arr.capacity(), 4);
    let mut none: Array<u8> = Array::with_capacity(0);
    assert_eq!(none.pop(), None);
}

#[test]
fn pop_yields_the_last_written_value() {
    let mut arr = Array::with(0u32, 3);
    arr.set(0, 10);
    arr.set(1, 20);
    arr.set(2, 30);
    assert_eq!(arr.pop(), Some(30));
    assert_eq!(arr.size(), 2);
    assert_eq!(arr.capacity(), 3);
    arr.set(1, 21);
    assert_eq!(arr.pop(), Some(21));
    assert_eq!(arr.size(), 1);
    assert_eq!(arr.pop(), Some(10));
    assert_eq!(arr.size(), 0);
    assert!(arr.empty());
    assert_eq!(arr.pop(), None);
    assert_eq!(arr.capacity(), 3);
}

#[test]
fn pop_hands_over_owned_values() {
    let mut arr = Array::with(String::from("x"), 2);
    arr.set(1, String::from("last"));
    assert_eq!(arr.pop(), Some(String::from("last")));
    assert_eq!(arr.pop(), Some(String::from("x")));
    assert_eq!(arr.pop(), None);
}

#[test]
fn live_prefix_reads_as_a_slice() {
    let mut arr = Array::with(2u32, 5);
    arr.set(4, 10);
    assert_eq!(arr.len(), 5);
    assert_eq!(arr.iter().sum::<u32>(), 18);
    assert_eq!(&arr[..], &[2, 2, 2, 2, 10]);
    assert_eq!(arr.pop(), Some(10));
    assert_eq!(&arr[..], &[2, 2, 2, 2]);
    let none: Array<u32> = Array::with_capacity(3);
    assert!(none.iter().next().is_none());
}

#[test]
fn live_prefix_writes_as_a_slice() {
    let mut arr = Array::with(0i32, 4);
    arr[0] = 3;
    arr[1] = -1;
    arr[2] = 9;
    arr[3] = 4;
    arr.sort();
    assert_eq!(&arr[..], &[-1, 3, 4, 9]);
    assert_eq!(arr.at(0), -1);
    assert_eq!(arr.at(3), 9);
    for slot in arr.iter_mut() {
        *slot *= 2;
    }
    assert_eq!(arr.at(2), 8);
    assert_eq!(arr.size(), 4);
    assert_eq!(arr.capacity(), 4);
}

#[test]
fn every_element_is_destroyed_exactly_once() {
    let drops = Rc::new(Cell::new(0usize));
    {
        let seed = Counted { id: 0, drops: Rc::clone(&drops) };
        let arr = Array::with(seed, 6);
        assert_eq!(arr.size(), 6);
        // The seed itself went when the array was filled.
        assert_eq!(drops.get(), 1);
    }
    assert_eq!(drops.get(), 7);
    assert_eq!(Rc::strong_count(&drops), 1);
}

#[test]
fn set_releases_the_value_it_replaces() {
    let drops = Rc::new(Cell::new(0usize));
    {
        let seed = Counted { id: 0, drops: Rc::clone(&drops) };
        let mut arr = Array::with(seed, 3);
        assert_eq!(drops.get(), 1);
        arr.set(1, Counted { id: 1, drops: Rc::clone(&drops) });
        assert_eq!(drops.get(), 2);
        assert_eq!(arr[1].id, 1);
        assert_eq!(arr[0].id, 0);
    }
    assert_eq!(drops.get(), 5);
    assert_eq!(Rc::strong_count(&drops), 1);
}

#[test]
fn popped_values_are_destroyed_by_their_new_owner() {
    let drops = Rc::new(Cell::new(0usize));
    {
        let seed = Counted { id: 0, drops: Rc::clone(&drops) };
        let mut arr = Array::with(seed, 4);
        let taken = arr.pop();
        assert!(taken.is_some());
        assert_eq!(drops.get(), 1);
        drop(taken);
        assert_eq!(drops.get(), 2);
        while let Some(_) = arr.pop() {}
        assert_eq!(drops.get(), 5);
        assert!(arr.empty());
    }
    assert_eq!(drops.get(), 5);
    assert_eq!(Rc::strong_count(&drops), 1);
}

#[test]
fn zero_sized_elements_need_no_buffer() {
    let mut arr = Array::with((), 1000);
    assert_eq!(arr.size(), 1000);
    assert_eq!(arr.capacity(), 1000);
    assert_eq!(arr.pop(), Some(()));
    assert_eq!(arr.size(), 999);
}
