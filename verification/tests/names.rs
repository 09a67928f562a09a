use rf_config_generator::utils::{
    first_free_name, group_name, name_from_draws, name_if_free, rand_name, TimeSortedContainer,
    MAX_DRAWS,
};
use std::cell::RefCell;

#[test]
fn default_names_have_two_hex_digits() {
    assert_eq!(group_name(0x7a), "group_7a");
    assert_eq!(group_name(0), "group_00");
    assert_eq!(group_name(0x0a), "group_0a");
    assert_eq!(group_name(0xf0), "group_f0");
    assert_eq!(group_name(255), "group_ff");
}

#[test]
fn default_names_are_all_different() {
    let mut names: Vec<String> = Vec::new();
    for byte in 0..=255u8 {
        let name = group_name(byte);
        assert!(!names.contains(&name));
        names.push(name);
    }
    assert_eq!(names.len(), 256);
}

#[test]
fn walk_starts_at_the_seed() {
    let free = |_: &String| false;
    assert_eq!(first_free_name(&free, 0x7a), Some(String::from("group_7a")));
}

#[test]
fn walk_skips_taken_names_in_order() {
    let taken = |name: &String| name == "group_10" || name == "group_11";
    assert_eq!(first_free_name(&taken, 0x10), Some(String::from("group_12")));
    assert_eq!(first_free_name(&taken, 0x11), Some(String::from("group_12")));
    assert_eq!(first_free_name(&taken, 0x0f), Some(String::from("group_0f")));
}

#[test]
fn walk_goes_round_the_namespace() {
    let only_zero_free = |name: &String| name != "group_00";
    assert_eq!(first_free_name(&only_zero_free, 0xff), Some(String::from("group_00")));
    assert_eq!(first_free_name(&only_zero_free, 0x01), Some(String::from("group_00")));
    let only_fe_free = |name: &String| name != "group_fe";
    assert_eq!(first_free_name(&only_fe_free, 0xff), Some(String::from("group_fe")));
}

#[test]
fn walk_finds_nothing_when_all_is_taken() {
    let all_taken = |_: &String| true;
    assert_eq!(first_free_name(&all_taken, 0), None);
    assert_eq!(first_free_name(&all_taken, 0x7a), None);
}

#[test]
fn rand_name_gives_a_free_default_name() {
    for _ in 0..64 {
        let name = rand_name(|name: &String| name.ends_with('0')).unwrap();
        assert!(name.starts_with("group_"));
        assert_eq!(name.len(), 8);
        assert!(!name.ends_with('0'));
        assert!(u8::from_str_radix(&name[6..], 16).is_ok());
    }
}

#[test]
fn rand_name_finds_the_last_free_name() {
    for _ in 0..64 {
        let name = rand_name(|name: &String| name != "group_c3");
        assert_eq!(name, Some(String::from("group_c3")));
    }
}

#[test]
fn rand_name_gives_none_when_all_is_taken() {
    assert_eq!(rand_name(|_: &String| true), None);
}

#[test]
fn containers_compare_by_their_stamps() {
    let early = TimeSortedContainer::new("z", 1);
    let late = TimeSortedContainer::new("a", 2);
    let twin = TimeSortedContainer::new("q", 1);
    assert!(early < late);
    assert!(late > early);
    assert!(early == twin);
    assert!(early != late);
    assert!(early <= twin && early >= twin);
    assert_eq!(early.val, "z");
    assert_eq!(late.time, 2);
}

#[test]
fn name_if_free_asks_once() {
    let asked = RefCell::new(Vec::new());
    let test = |name: &String| {
        asked.borrow_mut().push(name.clone());
        name == "group_7a"
    };
    assert_eq!(name_if_free(&test, 0x7a), None);
    assert_eq!(name_if_free(&test, 0x3c), Some(String::from("group_3c")));
    assert_eq!(*asked.borrow(), vec!["group_7a", "group_3c"]);
}

#[test]
fn a_collision_is_answered_by_the_next_draw() {
    let asked = RefCell::new(Vec::new());
    let test = |name: &String| {
        asked.borrow_mut().push(name.clone());
        name == "group_7a"
    };
    let name = name_from_draws(&test, &vec![0x7a, 0x7a, 0x3c]);
    assert_eq!(name, Some(String::from("group_3c")));
    assert_eq!(*asked.borrow(), vec!["group_7a", "group_7a", "group_3c"]);
}

#[test]
fn draws_after_the_free_one_are_not_used() {
    let asked = RefCell::new(0);
    let test = |name: &String| {
        *asked.borrow_mut() += 1;
        name == "group_7a"
    };
    assert_eq!(name_from_draws(&test, &vec![0x10, 0x7a, 0x3c]), Some(String::from("group_10")));
    assert_eq!(*asked.borrow(), 1);
}

#[test]
fn the_walk_is_the_last_resort() {
    let taken = |name: &String| name == "group_7a" || name == "group_7b";
    assert_eq!(name_from_draws(&taken, &vec![0x7b, 0x7a]), Some(String::from("group_7c")));
    assert_eq!(name_from_draws(&taken, &vec![0x7a, 0x7b]), Some(String::from("group_7c")));
    assert_eq!(name_from_draws(&taken, &vec![0x7a]), Some(String::from("group_7c")));
    assert_eq!(name_from_draws(&taken, &vec![]), Some(String::from("group_00")));
    let only_one_free = |name: &String| name != "group_c3";
    assert_eq!(name_from_draws(&only_one_free, &vec![1, 2, 3]), Some(String::from("group_c3")));
    assert_eq!(name_from_draws(&|_: &String| true, &vec![1, 2, 3]), None);
    assert_eq!(name_from_draws(&|_: &String| true, &vec![]), None);
}

#[test]
fn rand_name_draws_again_after_a_collision() {
    let mut beyond_the_next = 0;
    for _ in 0..200 {
        let name = rand_name(|name: &String| name == "group_7a").unwrap();
        assert_ne!(name, "group_7a");
        if name != "group_7b" {
            beyond_the_next += 1;
        }
    }
    assert!(beyond_the_next > 150);
}

#[test]
fn rand_name_asks_no_more_often_than_it_may() {
    let asked = RefCell::new(0u32);
    let name = rand_name(|_: &String| {
        *asked.borrow_mut() += 1;
        true
    });
    assert_eq!(name, None);
    assert_eq!(*asked.borrow(), u32::from(MAX_DRAWS) + 256);
}
