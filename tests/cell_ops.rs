use cell::cell::Cell;

#[test]
fn set_get() {
    let c = &mut Cell::new(5);
    assert!(c.get() == 5);
    c.set(31);
    assert!(c.get() == 31);
    c.set(35);
    assert!(c.get() == 35);
}

#[test]
fn get_after_new_returns_initial() {
    let c = Cell::new(-7i64);
    assert_eq!(c.get(), -7);
    let d = Cell::new(u64::MAX);
    assert_eq!(d.get(), u64::MAX);
}

#[test]
fn repeated_reads_see_last_write() {
    let mut c = Cell::new(1u8);
    c.set(2);
    for _ in 0..5 {
        assert_eq!(c.get(), 2);
    }
}

#[test]
fn writes_do_not_accumulate() {
    let mut c = Cell::new(10u32);
    c.set(20);
    c.set(30);
    assert_eq!(c.get(), 30);
}

#[test]
fn replace_returns_prior_value() {
    let mut c = Cell::new('a');
    let prior = c.replace('b');
    assert_eq!(prior, 'a');
    assert_eq!(c.get(), 'b');
}

#[test]
fn swap_exchanges_str_contents() {
    let mut a = Cell::new("x");
    let mut b = Cell::new("y");
    a.swap(&mut b);
    assert!(a.get() == "y" && b.get() == "x");
}

#[test]
fn swap_twice_restores() {
    let mut a = Cell::new(1i32);
    let mut b = Cell::new(2i32);
    a.swap(&mut b);
    a.swap(&mut b);
    assert_eq!(a.get(), 1);
    assert_eq!(b.get(), 2);
}

#[test]
fn replace_moves_non_copy_value() {
    let mut c = Cell::new(String::from("first"));
    let prior = c.replace(String::from("second"));
    assert_eq!(prior, "first");
    let last = c.replace(String::new());
    assert_eq!(last, "second");
}

#[test]
fn swap_moves_non_copy_values() {
    let mut a = Cell::new(vec![1u8, 2, 3]);
    let mut b = Cell::new(Vec::new());
    a.swap(&mut b);
    assert_eq!(a.replace(Vec::new()), Vec::<u8>::new());
    assert_eq!(b.replace(Vec::new()), vec![1u8, 2, 3]);
}

#[test]
fn set_drops_non_copy_value() {
    let mut c = Cell::new(String::from("old"));
    c.set(String::from("new"));
    assert_eq!(c.replace(String::new()), "new");
}
