use rf_config_generator::capture_settings::{CaptureSettings, CaptureSettingsMsg};
use rf_config_generator::collection_modes::{CollectionMode, CollectionModesMsg, CollectionMsg};
use rf_config_generator::config::{Config, Document};
use rf_config_generator::frequency::{FreqAction, FrequencyMessage, FrequencyRecord};
use rf_config_generator::number::Number;
use rf_config_generator::scheduling::{ChangeMsg, Scheduling, SchedulingMsg, TimeSlot};
use rf_config_generator::Message;
use serde_json::Value;

fn to_number(v: f64) -> Number {
    Number::from_bits(v.to_bits())
}

fn to_float(n: Number) -> f64 {
    f64::from_bits(n.to_bits())
}

fn typed(text: &str) -> Option<Number> {
    text.parse::<f64>().ok().map(to_number)
}

fn numbers_to_json(list: &Vec<Number>) -> Value {
    Value::Array(list.iter().map(|n| Value::from(to_float(*n))).collect())
}

fn encode(document: &Document) -> String {
    let mut frequencies = serde_json::Map::new();
    for (name, entries) in &document.frequencies {
        let mut list = Vec::new();
        for entry in entries {
            let mut object = serde_json::Map::new();
            object.insert(String::from("name"), Value::from(entry.name.clone()));
            object.insert(String::from("freq"), Value::from(to_float(entry.freq)));
            object.insert(String::from("description"), Value::from(entry.description.clone()));
            list.push(Value::Object(object));
        }
        frequencies.insert(name.clone(), Value::Array(list));
    }
    let mut capture = serde_json::Map::new();
    let settings = &document.capture_settings;
    capture.insert(String::from("sample_rates"), numbers_to_json(settings.sample_rates()));
    capture.insert(String::from("durations"), numbers_to_json(settings.durations()));
    capture.insert(String::from("gains"), numbers_to_json(settings.gains()));
    capture.insert(String::from("compression"), Value::from(settings.compression().clone()));
    capture.insert(String::from("compression_level"), Value::from(settings.compression_level()));
    let mut modes = serde_json::Map::new();
    for (name, mode) in &document.collection_modes {
        let mut object = serde_json::Map::new();
        object.insert(String::from("sample_rate"), Value::from(to_float(mode.sample_rate)));
        object.insert(String::from("duration"), Value::from(to_float(mode.duration)));
        object.insert(String::from("gain"), Value::from(to_float(mode.gain)));
        modes.insert(name.clone(), Value::Object(object));
    }
    let mut slots = Vec::new();
    for slot in document.scheduling.time_slots() {
        let mut object = serde_json::Map::new();
        object.insert(String::from("name"), Value::from(slot.name.clone()));
        object.insert(String::from("start"), Value::from(slot.start.clone()));
        object.insert(String::from("end"), Value::from(slot.end.clone()));
        slots.push(Value::Object(object));
    }
    let mut root = serde_json::Map::new();
    root.insert(String::from("frequencies"), Value::Object(frequencies));
    root.insert(String::from("capture_settings"), Value::Object(capture));
    root.insert(String::from("collection_modes"), Value::Object(modes));
    root.insert(String::from("scheduling"), Value::Array(slots));
    serde_json::to_string_pretty(&Value::Object(root)).unwrap()
}

fn text_of(value: &Value) -> String {
    String::from(value.as_str().unwrap())
}

fn numbers_of(value: &Value) -> Vec<Number> {
    value.as_array().unwrap().iter().map(|v| to_number(v.as_f64().unwrap())).collect()
}

fn decode(text: &str) -> Document {
    let root: Value = serde_json::from_str(text).unwrap();
    let mut frequencies = Vec::new();
    for (name, list) in root["frequencies"].as_object().unwrap() {
        let mut entries = Vec::new();
        for entry in list.as_array().unwrap() {
            entries.push(FrequencyRecord {
                name: text_of(&entry["name"]),
                freq: to_number(entry["freq"].as_f64().unwrap()),
                description: text_of(&entry["description"]),
            });
        }
        frequencies.push((name.clone(), entries));
    }
    let capture = &root["capture_settings"];
    let capture_settings = CaptureSettings::from_parts(
        numbers_of(&capture["sample_rates"]),
        numbers_of(&capture["durations"]),
        numbers_of(&capture["gains"]),
        text_of(&capture["compression"]),
        capture["compression_level"].as_u64().unwrap(),
    );
    let mut collection_modes = Vec::new();
    for (name, mode) in root["collection_modes"].as_object().unwrap() {
        collection_modes.push((
            name.clone(),
            CollectionMode {
                sample_rate: to_number(mode["sample_rate"].as_f64().unwrap()),
                duration: to_number(mode["duration"].as_f64().unwrap()),
                gain: to_number(mode["gain"].as_f64().unwrap()),
            },
        ));
    }
    let mut slots = Vec::new();
    for slot in root["scheduling"].as_array().unwrap() {
        slots.push(TimeSlot {
            name: text_of(&slot["name"]),
            start: text_of(&slot["start"]),
            end: text_of(&slot["end"]),
        });
    }
    Document {
        frequencies,
        capture_settings,
        collection_modes,
        scheduling: Scheduling::from_slots(slots),
    }
}

fn send(config: &mut Config, message: Message) {
    assert!(config.admits(&message));
    config.update(message);
}

#[test]
fn one_group_with_one_frequency_survives_saving_and_loading() {
    let mut config = Config::default();
    config.apply(Message::Frequency(FrequencyMessage::AddGroup), &vec![0x7a], 0);
    {
        let groups = config.frequencies().sorted();
        assert_eq!(groups.len(), 1);
        assert_eq!(groups[0].0, "group_7a");
    }
    send(&mut config, Message::Frequency(FrequencyMessage::AddFreq(String::from("group_7a"))));
    let id = {
        let groups = config.frequencies().sorted();
        let entries = &groups[0].1.val.vec;
        assert_eq!(entries.len(), 1);
        assert_eq!(to_float(entries[0].freq), 0.0);
        assert_eq!(entries[0].name, "");
        assert_eq!(entries[0].description, "");
        entries[0].id()
    };
    send(
        &mut config,
        Message::Frequency(FrequencyMessage::FreqAction(FreqAction::FreqUpdated((
            id,
            typed("12.5"),
        )))),
    );
    assert_eq!(to_float(config.frequencies().sorted()[0].1.val.vec[0].freq), 12.5);

    let text = encode(&config.to_document());
    let loaded = Config::from_document(decode(&text));

    let groups = loaded.frequencies().sorted();
    assert_eq!(groups.len(), 1);
    assert_eq!(groups[0].0, "group_7a");
    assert_eq!(groups[0].1.val.vec.len(), 1);
    assert_eq!(groups[0].1.val.vec[0].name, "");
    assert_eq!(to_float(groups[0].1.val.vec[0].freq), 12.5);
    assert_eq!(groups[0].1.val.vec[0].description, "");
}

#[test]
fn document_holds_what_is_stored_of_the_plan() {
    let mut config = Config::default();
    config.apply(Message::Frequency(FrequencyMessage::AddGroup), &vec![1], 0);
    config.apply(Message::Frequency(FrequencyMessage::AddFreq(String::from("group_01"))), &vec![0], 5);
    config.apply(
        Message::Frequency(FrequencyMessage::FreqAction(FreqAction::NameUpdated((
            5,
            String::from("carrier"),
        )))),
        &vec![0],
        0,);
    config.apply(Message::CaptureSettingsMsg(CaptureSettingsMsg::AddSampleRate), &vec![0], 0);
    config.apply(
        Message::CaptureSettingsMsg(CaptureSettingsMsg::UpdateSampleRate((typed("2.4e6"), 0))),
        &vec![0],
        0,);
    config.apply(Message::CollectionModes(CollectionModesMsg::Add), &vec![0x20], 0);
    config.apply(Message::Scheduling(SchedulingMsg::Add), &vec![0], 0);
    let document = config.to_document();
    assert_eq!(document.frequencies.len(), 1);
    assert_eq!(document.frequencies[0].0, "group_01");
    assert_eq!(document.frequencies[0].1[0].name, "carrier");
    assert_eq!(document.capture_settings.sample_rates()[0], to_number(2.4e6));
    assert_eq!(document.collection_modes.len(), 1);
    assert_eq!(document.collection_modes[0].0, "group_20");
    assert_eq!(document.collection_modes[0].1, CollectionMode::default());
    assert_eq!(document.scheduling.time_slots().len(), 1);
}

#[test]
fn a_whole_plan_survives_saving_and_loading() {
    let mut config = Config::default();
    config.apply(Message::Frequency(FrequencyMessage::AddGroup), &vec![0x01], 0);
    config.apply(Message::Frequency(FrequencyMessage::AddGroup), &vec![0x02], 0);
    config.apply(Message::Frequency(FrequencyMessage::AddFreq(String::from("group_01"))), &vec![0], 1);
    config.apply(Message::Frequency(FrequencyMessage::AddFreq(String::from("group_02"))), &vec![0], 2);
    config.apply(Message::Frequency(FrequencyMessage::AddFreq(String::from("group_02"))), &vec![0], 3);
    let edits = vec![
        FreqAction::NameUpdated((1, String::from("L1"))),
        FreqAction::FreqUpdated((1, typed("1575.42"))),
        FreqAction::DescUpdated((1, String::from("GPS \"civil\" signal\nline two"))),
        FreqAction::NameUpdated((3, String::from("ISM"))),
        FreqAction::FreqUpdated((3, typed("-0.000915"))),
    ];
    for edit in edits {
        send(&mut config, Message::Frequency(FrequencyMessage::FreqAction(edit)));
    }
    for msg in vec![
        CaptureSettingsMsg::AddSampleRate,
        CaptureSettingsMsg::AddSampleRate,
        CaptureSettingsMsg::UpdateSampleRate((typed("1e6"), 0)),
        CaptureSettingsMsg::UpdateSampleRate((typed("2.5e6"), 1)),
        CaptureSettingsMsg::AddDuration,
        CaptureSettingsMsg::UpdateDuration((typed("0.1"), 0)),
        CaptureSettingsMsg::AddGain,
        CaptureSettingsMsg::ChangeCompression(String::from("zstd")),
        CaptureSettingsMsg::ChangeCompressionLevel(u64::MAX),
    ] {
        send(&mut config, Message::CaptureSettingsMsg(msg));
    }
    config.apply(Message::CollectionModes(CollectionModesMsg::Add), &vec![0xb0], 0);
    send(
        &mut config,
        Message::CollectionModes(CollectionModesMsg::Change((
            String::from("group_b0"),
            CollectionMsg::ChangeGain(typed("33.3")),
        ))),
    );
    send(&mut config, Message::Scheduling(SchedulingMsg::Add));
    send(
        &mut config,
        Message::Scheduling(SchedulingMsg::Change(0, ChangeMsg::Start(String::from("06:00")))),
    );

    let before = config.to_document();
    let text = encode(&before);
    let after = Config::from_document(decode(&text)).to_document();

    assert_eq!(after.frequencies.len(), before.frequencies.len());
    for (a, b) in after.frequencies.iter().zip(before.frequencies.iter()) {
        assert_eq!(a.0, b.0);
        assert_eq!(a.1.len(), b.1.len());
        for (x, y) in a.1.iter().zip(b.1.iter()) {
            assert_eq!(x.name, y.name);
            assert_eq!(x.freq, y.freq);
            assert_eq!(x.description, y.description);
        }
    }
    assert_eq!(after.capture_settings.sample_rates(), before.capture_settings.sample_rates());
    assert_eq!(after.capture_settings.durations(), before.capture_settings.durations());
    assert_eq!(after.capture_settings.gains(), before.capture_settings.gains());
    assert_eq!(after.capture_settings.compression(), "zstd");
    assert_eq!(after.capture_settings.compression_level(), u64::MAX);
    assert_eq!(after.collection_modes, before.collection_modes);
    assert_eq!(to_float(after.collection_modes[0].1.gain), 33.3);
    let slots = after.scheduling.time_slots();
    assert_eq!(slots.len(), 1);
    assert_eq!(slots[0].start, "06:00");
    assert_eq!(slots[0].name, "");
}

#[test]
fn loading_gives_frequencies_new_ids() {
    let mut config = Config::default();
    config.apply(Message::Frequency(FrequencyMessage::AddGroup), &vec![0], 0);
    for id in 0..8 {
        config.apply(Message::Frequency(FrequencyMessage::AddFreq(String::from("group_00"))), &vec![0], id);
    }
    let loaded = Config::from_document(config.to_document());
    let groups = loaded.frequencies().sorted();
    let ids: Vec<u64> = groups[0].1.val.vec.iter().map(|f| f.id()).collect();
    assert_eq!(ids.len(), 8);
    assert_ne!(ids, vec![0, 1, 2, 3, 4, 5, 6, 7]);
}

#[test]
fn loading_an_empty_document_gives_the_empty_plan() {
    let loaded = Config::from_document(decode(&encode(&Config::default().to_document())));
    assert!(loaded.frequencies().sorted().is_empty());
    assert!(loaded.capture_settings().sample_rates().is_empty());
    assert_eq!(loaded.capture_settings().compression(), "");
    assert_eq!(loaded.capture_settings().compression_level(), 0);
    assert!(loaded.collection_modes().sorted().is_empty());
    assert!(loaded.scheduling().time_slots().is_empty());
}

#[test]
fn config_clone_is_a_copy() {
    let mut config = Config::default();
    config.apply(Message::Frequency(FrequencyMessage::AddGroup), &vec![7], 0);
    let copy = config.clone();
    config.apply(Message::Frequency(FrequencyMessage::DelGroup(String::from("group_07"))), &vec![0], 0);
    assert_eq!(copy.frequencies().sorted().len(), 1);
    assert!(config.frequencies().sorted().is_empty());
}
