use myvec::MyVec;
use std::rc::Rc;

#[test]
fn it_works() {
    let mut v1 = MyVec::<u8>::new();
    assert_eq!(v1.size(), 0);
    assert_eq!(v1.capacity(), 0);

    for i in 0..230 {
        v1.push(i);
    }
    // capacity is doubled when passed.
    assert_eq!(v1.size(), 230);
    assert_eq!(v1.capacity(), 256);

    // capacity is already bigger so it shouldn't do anything.
    v1.reserve(10);
    assert_eq!(v1.capacity(), 256);

    v1.reserve(400); // set new capacity
    assert_eq!(v1.capacity(), 400);

    for i in 0..230 {
        v1.push(i);
    }
    assert_eq!(v1.size(), 460);
    assert_eq!(v1.capacity(), 800); // doubled
}

#[test]
fn pushes_keep_order() {
    let mut v = MyVec::<u32>::new();
    for i in 0..100u32 {
        v.push(i * 3 + 1);
        assert_eq!(v.size(), (i + 1) as usize);
    }
    for i in 0..100usize {
        assert_eq!(*v.get(i), (i as u32) * 3 + 1);
        assert_eq!(v[i], (i as u32) * 3 + 1);
    }
}

#[test]
fn capacity_is_least_power_of_two() {
    let mut v = MyVec::<u8>::new();
    let expected = [1usize, 2, 4, 4, 8, 8, 8, 8, 16];
    for (n, cap) in expected.iter().enumerate() {
        v.push(n as u8);
        assert_eq!(v.size(), n + 1);
        assert_eq!(v.capacity(), *cap);
    }
    for n in 10..=1000usize {
        v.push(0);
        assert_eq!(v.capacity(), n.next_power_of_two());
    }
}

#[test]
fn reserve_smaller_or_equal_changes_nothing() {
    let mut v = MyVec::from_values(&[5i64, -6, 7]);
    assert_eq!(v.capacity(), 3);
    v.reserve(3);
    assert_eq!(v.capacity(), 3);
    v.reserve(0);
    assert_eq!(v.capacity(), 3);
    assert_eq!(v.size(), 3);
    assert_eq!((v[0], v[1], v[2]), (5, -6, 7));
}

#[test]
fn reserve_larger_sets_exact_capacity() {
    let mut v = MyVec::from_values(&[5i64, -6, 7]);
    v.reserve(5);
    assert_eq!(v.capacity(), 5);
    assert_eq!(v.size(), 3);
    assert_eq!((v[0], v[1], v[2]), (5, -6, 7));
    v.push(8);
    v.push(9);
    assert_eq!(v.capacity(), 5);
    v.push(10);
    assert_eq!(v.capacity(), 10);
    assert_eq!(v.size(), 6);
}

#[test]
fn reserve_on_empty_allocates() {
    let mut v = MyVec::<u16>::new();
    v.reserve(7);
    assert_eq!(v.capacity(), 7);
    assert_eq!(v.size(), 0);
    v.push(1);
    assert_eq!(v.capacity(), 7);
    assert_eq!(v[0], 1);
}

#[test]
fn from_values_round_trip() {
    let values = [10u8, 20, 30, 40];
    let v = MyVec::from_values(&values);
    assert_eq!(v.size(), 4);
    assert_eq!(v.capacity(), 4);
    for i in 0..v.size() {
        assert_eq!(*v.get(i), values[i]);
    }
}

#[test]
fn from_values_empty() {
    let v = MyVec::<String>::from_values(&[]);
    assert_eq!(v.size(), 0);
    assert_eq!(v.capacity(), 0);
}

#[test]
fn from_values_clones_strings() {
    let values = vec![String::from("a"), String::from("bc")];
    let mut v = MyVec::from_values(&values);
    assert_eq!(v.get(0), "a");
    assert_eq!(v.get(1), "bc");
    v.push(String::from("d"));
    assert_eq!(v.capacity(), 4);
    assert_eq!(v[2], "d");
    assert_eq!(values, vec![String::from("a"), String::from("bc")]);
}

#[test]
fn get_mut_writes_at_index() {
    let mut v = MyVec::from_values(&[1u8, 2, 3]);
    *v.get_mut(0) = 11;
    *v.get_mut(2) = 33;
    assert_eq!((v[0], v[1], v[2]), (11, 2, 33));
    assert_eq!(v.size(), 3);
    assert_eq!(v.capacity(), 3);
}

#[test]
fn default_is_empty() {
    let v: MyVec<u8> = MyVec::default();
    assert_eq!(v.size(), 0);
    assert_eq!(v.capacity(), 0);
}

#[test]
fn no_element_leaked_or_released_twice() {
    let shared = Rc::new(0u8);
    {
        let mut v = MyVec::from_values(&[Rc::clone(&shared), Rc::clone(&shared)]);
        assert_eq!(Rc::strong_count(&shared), 3);
        for _ in 0..50 {
            v.push(Rc::clone(&shared));
        }
        assert_eq!(Rc::strong_count(&shared), 53);
        v.reserve(500);
        assert_eq!(Rc::strong_count(&shared), 53);
        v.reserve(10);
        assert_eq!(Rc::strong_count(&shared), 53);
        *v.get_mut(0) = Rc::new(1);
        assert_eq!(Rc::strong_count(&shared), 52);
    }
    assert_eq!(Rc::strong_count(&shared), 1);
}
