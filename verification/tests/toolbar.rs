use rf_config_generator::capture_settings::CaptureSettingsMsg;
use rf_config_generator::collection_modes::CollectionModesMsg;
use rf_config_generator::config::{Config, Document};
use rf_config_generator::frequency::{FreqAction, FrequencyMessage};
use rf_config_generator::scheduling::{Scheduling, SchedulingMsg};
use rf_config_generator::toolbar::{
    OpenEvent, OpenStep, SaveEvent, SaveStep, Toolbar, ToolbarErr, ToolbarMsg, ToolbarTask,
};
use rf_config_generator::capture_settings::compression_level_message;
use rf_config_generator::{is_valid, App, Message};

fn json_error() -> serde_json::Error {
    serde_json::from_str::<serde_json::Value>("{ \"frequencies\": ").unwrap_err()
}

fn io_error() -> std::io::Error {
    std::io::Error::new(std::io::ErrorKind::PermissionDenied, "read-only volume")
}

fn group_count(config: &Config) -> usize {
    config.frequencies().sorted().len()
}

fn plan_with_groups(count: u8) -> Config {
    let mut config = Config::default();
    for seed in 0..count {
        config.apply(Message::Frequency(FrequencyMessage::AddGroup), &vec![seed], 0);
    }
    config
}

fn empty_document() -> Document {
    Config::default().to_document()
}

#[test]
fn save_without_a_place_chosen_gives_no_file_selected() {
    let next = Toolbar::save_file(SaveStep::Choose, SaveEvent::Chosen(false));
    assert!(matches!(next, SaveStep::Done(Err(ToolbarErr::NoFileSelected))));
}

#[test]
fn save_request_leaves_the_plan_in_memory_unchanged() {
    let mut app = App::new();
    app.update(Message::Frequency(FrequencyMessage::AddGroup));
    app.update(Message::Scheduling(SchedulingMsg::Add));
    let task = app.update(Message::Toolbar(ToolbarMsg::SaveFile(None)));
    let ToolbarTask::Save(copy) = task else {
        panic!("a save was asked for");
    };
    assert_eq!(group_count(&copy), 1);
    let outcome = match Toolbar::save_file(SaveStep::Choose, SaveEvent::Chosen(false)) {
        SaveStep::Done(outcome) => outcome,
        _ => panic!("the saving has ended"),
    };
    assert!(matches!(outcome, Err(ToolbarErr::NoFileSelected)));
    let task = app.update(Toolbar::saved(&outcome));
    assert!(matches!(task, ToolbarTask::Idle));
    assert_eq!(group_count(app.config()), 1);
    assert_eq!(app.config().scheduling().time_slots().len(), 1);
}

#[test]
fn save_goes_from_choosing_to_encoding_to_writing() {
    let step = Toolbar::save_file(SaveStep::Choose, SaveEvent::Chosen(true));
    assert!(matches!(step, SaveStep::Encode));
    let step = Toolbar::save_file(step, SaveEvent::Encoded(Ok(())));
    assert!(matches!(step, SaveStep::Write));
    let step = Toolbar::save_file(step, SaveEvent::Written(Ok(())));
    assert!(matches!(step, SaveStep::Done(Ok(()))));
}

#[test]
fn save_ends_with_the_encoders_error() {
    let expected = json_error().to_string();
    let step = Toolbar::save_file(SaveStep::Encode, SaveEvent::Encoded(Err(json_error())));
    match step {
        SaveStep::Done(Err(ToolbarErr::Serialize(e))) => assert_eq!(e.to_string(), expected),
        _ => panic!("the saving has failed in the encoder"),
    }
}

#[test]
fn save_ends_with_the_file_systems_error() {
    let step = Toolbar::save_file(SaveStep::Write, SaveEvent::Written(Err(io_error())));
    match step {
        SaveStep::Done(Err(ToolbarErr::FileIoError(e))) => {
            assert_eq!(e.kind(), std::io::ErrorKind::PermissionDenied);
            assert_eq!(e.to_string(), "read-only volume");
        },
        _ => panic!("the saving has failed in the file system"),
    }
}

#[test]
fn save_ignores_an_event_of_another_step() {
    let step = Toolbar::save_file(SaveStep::Choose, SaveEvent::Written(Ok(())));
    assert!(matches!(step, SaveStep::Choose));
    let step = Toolbar::save_file(SaveStep::Encode, SaveEvent::Chosen(false));
    assert!(matches!(step, SaveStep::Encode));
    let step = Toolbar::save_file(SaveStep::Write, SaveEvent::Encoded(Err(json_error())));
    assert!(matches!(step, SaveStep::Write));
    let step = Toolbar::save_file(SaveStep::Done(Ok(())), SaveEvent::Chosen(false));
    assert!(matches!(step, SaveStep::Done(Ok(()))));
    let done = SaveStep::Done(Err(ToolbarErr::NoFileSelected));
    let step = Toolbar::save_file(done, SaveEvent::Written(Ok(())));
    assert!(matches!(step, SaveStep::Done(Err(ToolbarErr::NoFileSelected))));
}

#[test]
fn errors_say_what_went_wrong() {
    assert_eq!(ToolbarErr::NoFileSelected.message(), "No File Selected");
    assert_eq!(ToolbarErr::FileIoError(io_error()).message(), "read-only volume");
    assert_eq!(ToolbarErr::Serialize(json_error()).message(), json_error().to_string());
    assert!(!ToolbarErr::Serialize(json_error()).message().is_empty());
}

#[test]
fn saved_tells_success_from_failure() {
    assert!(matches!(Toolbar::saved(&Ok(())), Message::Toolbar(ToolbarMsg::SavedFile)));
    assert!(matches!(
        Toolbar::saved(&Err(ToolbarErr::NoFileSelected)),
        Message::Toolbar(ToolbarMsg::Error)
    ));
    assert!(matches!(
        Toolbar::saved(&Err(ToolbarErr::FileIoError(io_error()))),
        Message::Toolbar(ToolbarMsg::Error)
    ));
}

#[test]
fn open_without_a_file_chosen_ends_without_a_plan() {
    let step = Toolbar::open_file(OpenStep::Choose, OpenEvent::Chosen(false));
    assert!(matches!(step, OpenStep::Done(None)));
    assert!(matches!(Toolbar::opened(None), Message::Toolbar(ToolbarMsg::Error)));
}

#[test]
fn open_of_a_file_that_cannot_be_decoded_ends_without_a_plan() {
    let step = Toolbar::open_file(OpenStep::Choose, OpenEvent::Chosen(true));
    assert!(matches!(step, OpenStep::Read));
    let step = Toolbar::open_file(step, OpenEvent::Loaded(Err(json_error())));
    assert!(matches!(step, OpenStep::Done(None)));
}

#[test]
fn open_of_a_document_ends_with_its_plan() {
    let document = plan_with_groups(2).to_document();
    let step = Toolbar::open_file(OpenStep::Read, OpenEvent::Loaded(Ok(document)));
    let OpenStep::Done(Some(plan)) = step else {
        panic!("the document was decoded");
    };
    assert_eq!(group_count(&plan), 2);
    let message = Toolbar::opened(Some(plan));
    assert!(matches!(message, Message::Toolbar(ToolbarMsg::OpenedFile(_))));
}

#[test]
fn open_ignores_an_event_of_another_step() {
    let step = Toolbar::open_file(OpenStep::Choose, OpenEvent::Loaded(Ok(empty_document())));
    assert!(matches!(step, OpenStep::Choose));
    let step = Toolbar::open_file(OpenStep::Read, OpenEvent::Chosen(false));
    assert!(matches!(step, OpenStep::Read));
    let step = Toolbar::open_file(OpenStep::Done(None), OpenEvent::Chosen(true));
    assert!(matches!(step, OpenStep::Done(None)));
}

#[test]
fn toolbar_asks_for_what_the_message_says() {
    let mut toolbar = Toolbar;
    assert!(matches!(toolbar.update(ToolbarMsg::OpenFile), ToolbarTask::Open));
    assert!(matches!(toolbar.update(ToolbarMsg::SaveFile(None)), ToolbarTask::Idle));
    assert!(matches!(toolbar.update(ToolbarMsg::NewFile), ToolbarTask::Idle));
    assert!(matches!(toolbar.update(ToolbarMsg::SavedFile), ToolbarTask::Idle));
    assert!(matches!(toolbar.update(ToolbarMsg::Error), ToolbarTask::Idle));
    assert!(matches!(
        toolbar.update(ToolbarMsg::OpenedFile(Config::default())),
        ToolbarTask::Idle
    ));
    match toolbar.update(ToolbarMsg::SaveFile(Some(plan_with_groups(3)))) {
        ToolbarTask::Save(plan) => assert_eq!(group_count(&plan), 3),
        _ => panic!("a plan came with the message"),
    }
}

#[test]
fn app_starts_with_an_empty_plan() {
    let app = App::new();
    assert_eq!(group_count(app.config()), 0);
    assert!(app.config().capture_settings().sample_rates().is_empty());
    assert!(app.config().collection_modes().sorted().is_empty());
    assert!(app.config().scheduling().time_slots().is_empty());
}

#[test]
fn app_hands_plan_messages_to_the_plan() {
    let mut app = App::new();
    let messages = vec![
        Message::Frequency(FrequencyMessage::AddGroup),
        Message::CaptureSettingsMsg(CaptureSettingsMsg::AddGain),
        Message::CollectionModes(CollectionModesMsg::Add),
        Message::Scheduling(SchedulingMsg::Add),
        Message::Nothing,
    ];
    for message in messages {
        assert!(app.admits(&message));
        assert!(matches!(app.update(message), ToolbarTask::Idle));
    }
    assert_eq!(group_count(app.config()), 1);
    assert_eq!(app.config().capture_settings().gains().len(), 1);
    assert_eq!(app.config().collection_modes().sorted().len(), 1);
    assert_eq!(app.config().scheduling().time_slots().len(), 1);
}

#[test]
fn app_does_not_admit_what_the_plan_does_not() {
    let app = App::new();
    assert!(!app.admits(&Message::Scheduling(SchedulingMsg::Delete(0))));
    assert!(!app.admits(&Message::CaptureSettingsMsg(CaptureSettingsMsg::DelGain(0))));
    assert!(!app.admits(&Message::Frequency(FrequencyMessage::AddFreq(String::from("g")))));
    assert!(app.admits(&Message::Toolbar(ToolbarMsg::OpenFile)));
    assert!(app.config().admits(&Message::Toolbar(ToolbarMsg::NewFile)));
}

#[test]
fn app_takes_the_plan_of_an_opened_file() {
    let mut app = App::new();
    app.update(Message::Scheduling(SchedulingMsg::Add));
    let task = app.update(Message::Toolbar(ToolbarMsg::OpenedFile(plan_with_groups(4))));
    assert!(matches!(task, ToolbarTask::Idle));
    assert_eq!(group_count(app.config()), 4);
    assert!(app.config().scheduling().time_slots().is_empty());
}

#[test]
fn app_keeps_the_plan_when_opening_fails() {
    let mut app = App::new();
    app.update(Message::Scheduling(SchedulingMsg::Add));
    assert!(matches!(app.update(Message::Toolbar(ToolbarMsg::OpenFile)), ToolbarTask::Open));
    let step = Toolbar::open_file(OpenStep::Choose, OpenEvent::Chosen(false));
    let OpenStep::Done(outcome) = step else {
        panic!("the opening has ended");
    };
    app.update(Toolbar::opened(outcome));
    assert_eq!(app.config().scheduling().time_slots().len(), 1);
}

#[test]
fn app_new_file_empties_the_plan() {
    let mut app = App::new();
    app.update(Message::Frequency(FrequencyMessage::AddGroup));
    app.update(Message::Scheduling(SchedulingMsg::Add));
    let task = app.update(Message::Toolbar(ToolbarMsg::NewFile));
    assert!(matches!(task, ToolbarTask::Idle));
    assert_eq!(group_count(app.config()), 0);
    assert!(app.config().scheduling().time_slots().is_empty());
}

#[test]
fn app_saves_the_plan_as_it_stands() {
    let mut app = App::new();
    app.update(Message::Toolbar(ToolbarMsg::OpenedFile(plan_with_groups(2))));
    let stale = Some(plan_with_groups(5));
    match app.update(Message::Toolbar(ToolbarMsg::SaveFile(stale))) {
        ToolbarTask::Save(plan) => assert_eq!(group_count(&plan), 2),
        _ => panic!("a save was asked for"),
    }
    assert_eq!(group_count(app.config()), 2);
}

#[test]
fn messages_can_be_copied() {
    let message = Message::Toolbar(ToolbarMsg::OpenedFile(plan_with_groups(2)));
    match message.clone() {
        Message::Toolbar(ToolbarMsg::OpenedFile(plan)) => assert_eq!(group_count(&plan), 2),
        _ => panic!("the copy is the same message"),
    }
    let message = Message::Frequency(FrequencyMessage::GroupNameUpdated((
        String::from("a"),
        String::from("b"),
    )));
    assert!(matches!(
        message.clone(),
        Message::Frequency(FrequencyMessage::GroupNameUpdated((a, b))) if a == "a" && b == "b"
    ));
    let scheduling = Scheduling::default();
    assert!(scheduling.time_slots().is_empty());
}

#[test]
fn messages_wrap_the_messages_of_the_parts() {
    assert!(matches!(Message::from(ToolbarMsg::NewFile), Message::Toolbar(ToolbarMsg::NewFile)));
    assert!(matches!(
        Message::from(CaptureSettingsMsg::DelGain(3)),
        Message::CaptureSettingsMsg(CaptureSettingsMsg::DelGain(3))
    ));
    assert!(matches!(
        Message::from(FrequencyMessage::DelFreq(9)),
        Message::Frequency(FrequencyMessage::DelFreq(9))
    ));
    assert!(matches!(
        FrequencyMessage::from(FreqAction::FreqUpdated((4, None))),
        FrequencyMessage::FreqAction(FreqAction::FreqUpdated((4, None)))
    ));
    let wrapped: Message = FreqAction::NameUpdated((7, String::from("n"))).into();
    assert!(matches!(
        wrapped,
        Message::Frequency(FrequencyMessage::FreqAction(FreqAction::NameUpdated((7, name))))
            if name == "n"
    ));
}

#[test]
fn checked_update_applies_what_can_be_applied() {
    let mut app = App::new();
    let task = app.checked_update(Message::Scheduling(SchedulingMsg::Add));
    assert!(matches!(task, Some(ToolbarTask::Idle)));
    assert_eq!(app.config().scheduling().time_slots().len(), 1);
    let task = app.checked_update(Message::Toolbar(ToolbarMsg::OpenFile));
    assert!(matches!(task, Some(ToolbarTask::Open)));
    let task = app.checked_update(Message::Toolbar(ToolbarMsg::SaveFile(None)));
    assert!(matches!(task, Some(ToolbarTask::Save(_))));
    let task = app.checked_update(Message::Toolbar(ToolbarMsg::OpenedFile(plan_with_groups(2))));
    assert!(matches!(task, Some(ToolbarTask::Idle)));
    assert_eq!(group_count(app.config()), 2);
}

#[test]
fn checked_update_refuses_what_names_nothing() {
    let mut app = App::new();
    app.checked_update(Message::Scheduling(SchedulingMsg::Add));
    assert!(app.checked_update(Message::Scheduling(SchedulingMsg::Delete(1))).is_none());
    assert!(app
        .checked_update(Message::Frequency(FrequencyMessage::AddFreq(String::from("g"))))
        .is_none());
    assert!(app
        .checked_update(Message::CaptureSettingsMsg(CaptureSettingsMsg::DelSampleRate(0)))
        .is_none());
    assert_eq!(app.config().scheduling().time_slots().len(), 1);
    assert_eq!(group_count(app.config()), 0);
}

#[test]
fn plans_of_the_library_are_well_formed() {
    assert!(Config::default().is_wf());
    assert!(plan_with_groups(9).is_wf());
    assert!(Config::from_document(plan_with_groups(3).to_document()).is_wf());
    assert!(is_valid(&Message::Toolbar(ToolbarMsg::OpenedFile(plan_with_groups(3)))));
    assert!(is_valid(&Message::Nothing));
    assert!(is_valid(&Message::Toolbar(ToolbarMsg::SaveFile(None))));
}

#[test]
fn compression_level_text_gives_a_change_or_nothing() {
    assert!(matches!(
        compression_level_message("19".parse().ok()),
        Message::CaptureSettingsMsg(CaptureSettingsMsg::ChangeCompressionLevel(19))
    ));
    assert!(matches!(
        compression_level_message(Some(u64::MAX)),
        Message::CaptureSettingsMsg(CaptureSettingsMsg::ChangeCompressionLevel(u64::MAX))
    ));
    assert!(matches!(compression_level_message("-1".parse().ok()), Message::Nothing));
    assert!(matches!(compression_level_message("nine".parse().ok()), Message::Nothing));
    assert!(matches!(compression_level_message(None), Message::Nothing));
}
