use spsc_ring::error::Error;
use spsc_ring::value_slot::LockFreeValue;

#[test]
fn depth_three_delivers_the_newest() {
    let mut slot: LockFreeValue<&str, 3> = LockFreeValue::new();
    assert_eq!(slot.push("a"), None);
    assert_eq!(slot.get_last(), Ok("a"));
    assert_eq!(slot.get_last(), Err(Error::Empty));
    assert_eq!(slot.push("b"), None);
    assert_eq!(slot.push("c"), None);
    assert_eq!(slot.get_last(), Ok("c"));
}

#[test]
fn fresh_slot_has_nothing() {
    let mut slot: LockFreeValue<u32, 3> = LockFreeValue::new();
    assert_eq!(slot.size(), 3);
    assert!(slot.unchanged());
    assert!(!slot.changed());
    assert_eq!(slot.at(0), &None);
    assert_eq!(slot.at(1), &None);
    assert_eq!(slot.at(2), &None);
    assert_eq!(slot.get_last(), Err(Error::Empty));
}

#[test]
fn second_publish_wins() {
    let mut slot: LockFreeValue<u32, 4> = LockFreeValue::new();
    assert_eq!(slot.push(1), None);
    assert_eq!(slot.push(2), None);
    assert!(slot.changed());
    assert_eq!(slot.get_last(), Ok(2));
    assert!(slot.unchanged());
}

#[test]
fn second_take_is_empty() {
    let mut slot: LockFreeValue<u32, 2> = LockFreeValue::new();
    assert_eq!(slot.get_last(), Err(Error::Empty));
    assert_eq!(slot.get_last(), Err(Error::Empty));
    assert_eq!(slot.push(5), None);
    assert_eq!(slot.get_last(), Ok(5));
    assert_eq!(slot.get_last(), Err(Error::Empty));
    assert_eq!(slot.get_last(), Err(Error::Empty));
}

#[test]
fn publish_steps_over_the_claimed_slot() {
    let mut slot: LockFreeValue<u32, 3> = LockFreeValue::new();
    assert_eq!(slot.next_idx(), 1);
    assert_eq!(slot.next_idx_safe(), 1);
    assert_eq!(slot.push(10), None);
    assert_eq!(slot.next_idx(), 2);
    assert_eq!(slot.next_idx_safe(), 2);
    assert_eq!(slot.push(20), None);
    // The newest is slot 2 and the claim is on slot 0: slot 0 is skipped.
    assert_eq!(slot.next_idx(), 0);
    assert_eq!(slot.next_idx_safe(), 1);
    assert_eq!(slot.push(30), Some(10));
    assert_eq!(slot.at(0), &None);
    assert_eq!(slot.at(1), &Some(30));
    assert_eq!(slot.at(2), &Some(20));
    assert_eq!(slot.get_last(), Ok(30));
}

#[test]
fn claimed_slot_is_never_written() {
    let mut slot: LockFreeValue<u32, 3> = LockFreeValue::new();
    assert_eq!(slot.push(1), None);
    let claimed = slot.update();
    assert_eq!(claimed, 1);
    for value in 2..20 {
        assert!(slot.next_idx_safe() != claimed);
        slot.push(value);
        assert_eq!(slot.at(claimed), &Some(1));
    }
    assert_eq!(slot.get_last(), Ok(19));
}

#[test]
fn depth_two_overwrites_in_place() {
    let mut slot: LockFreeValue<u32, 2> = LockFreeValue::new();
    assert_eq!(slot.push(1), None);
    assert_eq!(slot.push(2), Some(1));
    assert_eq!(slot.push(3), Some(2));
    assert_eq!(slot.at(0), &None);
    assert_eq!(slot.at(1), &Some(3));
    assert_eq!(slot.get_last(), Ok(3));
    assert_eq!(slot.push(4), None);
    assert_eq!(slot.at(0), &Some(4));
    assert_eq!(slot.get_last(), Ok(4));
    assert_eq!(slot.get_last(), Err(Error::Empty));
}

#[test]
fn displaced_values_come_back() {
    let mut slot: LockFreeValue<String, 3> = LockFreeValue::new();
    assert_eq!(slot.push(String::from("a")), None);
    assert_eq!(slot.push(String::from("b")), None);
    assert_eq!(slot.push(String::from("c")), Some(String::from("a")));
    assert_eq!(slot.push(String::from("d")), Some(String::from("b")));
    assert_eq!(slot.get_last(), Ok(String::from("d")));
}

#[test]
fn set_value_and_set_next_idx_publish_by_hand() {
    let mut slot: LockFreeValue<u32, 4> = LockFreeValue::new();
    assert_eq!(slot.set_value(2, 7), None);
    assert!(slot.unchanged());
    assert_eq!(slot.at(2), &Some(7));
    assert_eq!(slot.set_value(2, 8), Some(7));
    slot.set_next_idx(2);
    assert!(slot.changed());
    assert_eq!(slot.next_idx(), 3);
    assert_eq!(slot.get_last(), Ok(8));
    assert_eq!(slot.at(2), &None);
}

#[test]
fn take_from_an_announced_empty_slot_is_empty() {
    let mut slot: LockFreeValue<u32, 4> = LockFreeValue::new();
    slot.set_next_idx(3);
    assert!(slot.changed());
    assert_eq!(slot.get_last(), Err(Error::Empty));
    assert!(slot.unchanged());
}

#[test]
fn update_claims_without_taking() {
    let mut slot: LockFreeValue<u32, 3> = LockFreeValue::new();
    slot.push(4);
    assert_eq!(slot.update(), 1);
    assert!(slot.unchanged());
    assert_eq!(slot.at(1), &Some(4));
    assert_eq!(slot.get_last(), Err(Error::Empty));
}

#[test]
fn get_last_ref_leaves_the_value() {
    let mut slot: LockFreeValue<String, 3> = LockFreeValue::new();
    assert_eq!(slot.get_last_ref(), Err(Error::Empty));
    slot.push(String::from("x"));
    assert_eq!(slot.get_last_ref(), Ok(&String::from("x")));
    assert!(slot.unchanged());
    assert_eq!(slot.at(1), &Some(String::from("x")));
    assert_eq!(slot.get_last_ref(), Err(Error::Empty));
}

#[test]
fn get_last_mut_changes_the_value_in_place() {
    let mut slot: LockFreeValue<u32, 3> = LockFreeValue::new();
    assert!(slot.get_last_mut().is_err());
    slot.push(1);
    match slot.get_last_mut() {
        Ok(value) => {
            assert_eq!(*value, 1);
            *value = 41;
        }
        Err(_) => panic!("a value was published"),
    }
    assert_eq!(slot.at(1), &Some(41));
    assert_eq!(slot.get_last_mut().err(), Some(Error::Empty));
}

#[test]
fn at_mut_reaches_a_slot() {
    let mut slot: LockFreeValue<u32, 3> = LockFreeValue::new();
    *slot.at_mut(2) = Some(9);
    assert_eq!(slot.at(2), &Some(9));
    assert_eq!(slot[2], Some(9));
    assert_eq!(slot[0], None);
    assert_eq!(slot.at_mut(2).take(), Some(9));
    assert_eq!(slot.at(2), &None);
}

#[test]
fn clear_forgets_everything() {
    let mut slot: LockFreeValue<u32, 3> = LockFreeValue::new();
    slot.push(1);
    slot.push(2);
    slot.clear();
    assert!(slot.unchanged());
    assert_eq!(slot.at(0), &None);
    assert_eq!(slot.at(1), &None);
    assert_eq!(slot.at(2), &None);
    assert_eq!(slot.next_idx_safe(), 1);
    assert_eq!(slot.get_last(), Err(Error::Empty));
    slot.push(3);
    assert_eq!(slot.get_last(), Ok(3));
}
