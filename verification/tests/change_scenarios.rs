use powerbool::{Change, PowerBool};

#[test]
fn change_to_a_new_value_then_to_the_same_value() {
    let mut x = 1;
    assert_eq!(x.change(2), true);
    assert_eq!(x, 2);
    assert_eq!(x.change(2), false);
    assert_eq!(x, 2);
}

#[test]
fn change_answers_whether_the_values_differ() {
    for a in 0u8..4 {
        for b in 0u8..4 {
            let mut slot = a;
            assert_eq!(slot.change(b), a != b);
            assert_eq!(slot, b);
            assert_eq!(slot.change(b), false);
            assert_eq!(slot, b);
        }
    }
}

#[test]
fn change_moves_an_owned_value_into_the_slot() {
    let mut name = String::from("old");
    assert_eq!(name.change(String::from("new")), true);
    assert_eq!(name, "new");
    assert_eq!(name.change(String::from("new")), false);
    assert_eq!(name, "new");
    let mut list = vec![1, 2];
    assert_eq!(list.change(vec![1, 2, 3]), true);
    assert_eq!(list, vec![1, 2, 3]);
}

#[test]
fn change_on_a_bool_is_set() {
    for before in [false, true] {
        for val in [false, true] {
            let (mut a, mut b) = (before, before);
            assert_eq!(a.change(val), b.set(val));
            assert_eq!(a, b);
        }
    }
}

/// Compares by `key` alone, so that two values can be equal and still be told
/// apart by `note`.
#[derive(Debug)]
struct Keyed {
    key: u32,
    note: &'static str,
}

impl PartialEq for Keyed {
    fn eq(&self, other: &Self) -> bool {
        self.key == other.key
    }
}

#[test]
fn change_leaves_an_equal_value_untouched() {
    let mut slot = Keyed { key: 7, note: "first" };
    assert_eq!(slot.change(Keyed { key: 7, note: "second" }), false);
    assert_eq!(slot.note, "first");
    assert_eq!(slot.change(Keyed { key: 8, note: "third" }), true);
    assert_eq!(slot.key, 8);
    assert_eq!(slot.note, "third");
}

#[test]
fn change_to_a_value_that_does_not_equal_itself_changes_every_time() {
    let mut x = 1.0f64;
    assert_eq!(x.change(f64::NAN), true);
    assert!(x.is_nan());
    assert_eq!(x.change(f64::NAN), true);
    assert!(x.is_nan());
    assert_eq!(x.change(2.5), true);
    assert_eq!(x, 2.5);
    assert_eq!(x.change(2.5), false);
}
