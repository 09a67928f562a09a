use rf_config_generator::scheduling::{ChangeMsg, Scheduling, SchedulingMsg, TimeSlot};

fn slot(name: &str, start: &str, end: &str) -> TimeSlot {
    TimeSlot { name: String::from(name), start: String::from(start), end: String::from(end) }
}

fn fields(scheduling: &Scheduling) -> Vec<(String, String, String)> {
    scheduling
        .time_slots()
        .iter()
        .map(|s| (s.name.clone(), s.start.clone(), s.end.clone()))
        .collect()
}

fn triple(name: &str, start: &str, end: &str) -> (String, String, String) {
    (String::from(name), String::from(start), String::from(end))
}

#[test]
fn slot_update_sets_the_field_named() {
    let mut s = TimeSlot::default();
    assert_eq!((s.name.as_str(), s.start.as_str(), s.end.as_str()), ("", "", ""));
    s.update(ChangeMsg::Name(String::from("night")));
    s.update(ChangeMsg::Start(String::from("22:00")));
    s.update(ChangeMsg::End(String::from("not a time")));
    assert_eq!(s.name, "night");
    assert_eq!(s.start, "22:00");
    assert_eq!(s.end, "not a time");
    s.update(ChangeMsg::Start(String::new()));
    assert_eq!(s.start, "");
    assert_eq!(s.name, "night");
}

#[test]
fn add_slot_appends_an_empty_slot() {
    let mut scheduling = Scheduling::default();
    assert!(scheduling.time_slots().is_empty());
    scheduling.update(SchedulingMsg::Add);
    scheduling.update(SchedulingMsg::Add);
    assert_eq!(fields(&scheduling), vec![triple("", "", ""), triple("", "", "")]);
}

#[test]
fn change_slot_by_index() {
    let mut scheduling = Scheduling::from_slots(vec![slot("a", "1", "2"), slot("b", "3", "4")]);
    scheduling.update(SchedulingMsg::Change(1, ChangeMsg::End(String::from("5"))));
    scheduling.update(SchedulingMsg::Change(0, ChangeMsg::Name(String::from("first"))));
    assert_eq!(fields(&scheduling), vec![triple("first", "1", "2"), triple("b", "3", "5")]);
}

#[test]
fn delete_slot_shifts_later_slots() {
    let mut scheduling = Scheduling::from_slots(vec![
        slot("a", "1", "2"),
        slot("b", "3", "4"),
        slot("c", "5", "6"),
    ]);
    scheduling.update(SchedulingMsg::Delete(1));
    assert_eq!(fields(&scheduling), vec![triple("a", "1", "2"), triple("c", "5", "6")]);
    scheduling.update(SchedulingMsg::Change(1, ChangeMsg::Name(String::from("now second"))));
    assert_eq!(fields(&scheduling)[1], triple("now second", "5", "6"));
    scheduling.update(SchedulingMsg::Delete(0));
    scheduling.update(SchedulingMsg::Delete(0));
    assert!(fields(&scheduling).is_empty());
}

#[test]
fn messages_for_missing_slots_are_not_admitted() {
    let scheduling = Scheduling::from_slots(vec![slot("a", "1", "2")]);
    assert!(scheduling.admits(&SchedulingMsg::Add));
    assert!(scheduling.admits(&SchedulingMsg::Delete(0)));
    assert!(!scheduling.admits(&SchedulingMsg::Delete(1)));
    assert!(scheduling.admits(&SchedulingMsg::Change(0, ChangeMsg::Name(String::new()))));
    assert!(!scheduling.admits(&SchedulingMsg::Change(1, ChangeMsg::Name(String::new()))));
    assert!(!Scheduling::default().admits(&SchedulingMsg::Delete(0)));
}

#[test]
fn scheduling_clone_is_a_copy() {
    let mut scheduling = Scheduling::from_slots(vec![slot("a", "1", "2")]);
    let copy = scheduling.clone();
    scheduling.update(SchedulingMsg::Delete(0));
    assert_eq!(fields(&copy), vec![triple("a", "1", "2")]);
    let message = SchedulingMsg::Change(4, ChangeMsg::Start(String::from("x")));
    assert!(matches!(message.clone(), SchedulingMsg::Change(4, ChangeMsg::Start(s)) if s == "x"));
}
