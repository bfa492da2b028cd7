use rpg_core::bar_slots;

#[test]
fn test_bar_slots() {
    // simple case 1:1 between points and slots
    let slots: i32 = 4;
    let total: i32 = 4;
    assert_eq!((0, 4), bar_slots(slots, total, 0));
    assert_eq!((1, 3), bar_slots(slots, total, 1));
    assert_eq!((2, 2), bar_slots(slots, total, 2));
    assert_eq!((3, 1), bar_slots(slots, total, 3));
    assert_eq!((4, 0), bar_slots(slots, total, 4));

    let total: i32 = 10;
    assert_eq!((0, 4), bar_slots(slots, total, 0));
    assert_eq!((1, 3), bar_slots(slots, total, 1));
    assert_eq!((1, 3), bar_slots(slots, total, 2));
    assert_eq!((2, 2), bar_slots(slots, total, 3));
    assert_eq!((2, 2), bar_slots(slots, total, 4));
    assert_eq!((2, 2), bar_slots(slots, total, 5));
    assert_eq!((3, 1), bar_slots(slots, total, 6));
    assert_eq!((3, 1), bar_slots(slots, total, 7));
    // this one I would maybe like to show as 3, 1
    assert_eq!((4, 0), bar_slots(slots, total, 8));
    assert_eq!((4, 0), bar_slots(slots, total, 9));
    assert_eq!((4, 0), bar_slots(slots, total, 10));
}
