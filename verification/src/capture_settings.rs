//! Capture settings and the messages that change them.
use vstd::prelude::*;
use vstd::string::*;
use crate::number::{change_if_valid, kept_or, Number};
use crate::Message;

verus! {

/// The lists of sample rates, durations and gains to capture with, and how
/// the captured data is compressed.
#[derive(Debug)]
pub struct CaptureSettings {
    sample_rates: Vec<Number>,
    durations: Vec<Number>,
    gains: Vec<Number>,
    compression: String,
    compression_level: u64,
}

/// The capture settings as contracts see them.
pub struct CaptureSettingsView {
    pub sample_rates: Seq<Number>,
    pub durations: Seq<Number>,
    pub gains: Seq<Number>,
    pub compression: Seq<char>,
    pub compression_level: u64,
}

/// The codecs that a selector offers, and the mark for a text that names
/// none of them.
#[derive(Debug, Clone, Copy, PartialEq, Eq, Structural)]
pub enum CompressionOptions {
    ZStd,
    Invalid,
}

impl CompressionOptions {
    /// The text that stands for the option.
    pub open spec fn label_text(&self) -> Seq<char> {
        match self {
            CompressionOptions::ZStd => "zstd"@,
            CompressionOptions::Invalid => "INVALID"@,
        }
    }

    pub fn label(&self) -> (text: String)
        ensures
            text@ == self.label_text(),
    {
        match self {
            CompressionOptions::ZStd => String::from_str("zstd"),
            CompressionOptions::Invalid => String::from_str("INVALID"),
        }
    }
}

/// A change to the capture settings. A new value for an entry of a list
/// arrives as the number that the text typed denotes, or `None` where it
/// denotes none, together with the entry's index.
#[derive(Debug)]
pub enum CaptureSettingsMsg {
    AddSampleRate,
    UpdateSampleRate((Option<Number>, usize)),
    DelSampleRate(usize),
    AddDuration,
    UpdateDuration((Option<Number>, usize)),
    DelDuration(usize),
    AddGain,
    UpdateGain((Option<Number>, usize)),
    DelGain(usize),
    ChangeCompression(String),
    ChangeCompressionLevel(u64),
}

impl Clone for CaptureSettingsMsg {
    fn clone(&self) -> (copy: Self)
        ensures
            copy == *self,
    {
        match self {
            CaptureSettingsMsg::AddSampleRate => CaptureSettingsMsg::AddSampleRate,
            CaptureSettingsMsg::UpdateSampleRate((val, id)) => CaptureSettingsMsg::UpdateSampleRate(
                (*val, *id),
            ),
            CaptureSettingsMsg::DelSampleRate(id) => CaptureSettingsMsg::DelSampleRate(*id),
            CaptureSettingsMsg::AddDuration => CaptureSettingsMsg::AddDuration,
            CaptureSettingsMsg::UpdateDuration((val, id)) => CaptureSettingsMsg::UpdateDuration(
                (*val, *id),
            ),
            CaptureSettingsMsg::DelDuration(id) => CaptureSettingsMsg::DelDuration(*id),
            CaptureSettingsMsg::AddGain => CaptureSettingsMsg::AddGain,
            CaptureSettingsMsg::UpdateGain((val, id)) => CaptureSettingsMsg::UpdateGain(
                (*val, *id),
            ),
            CaptureSettingsMsg::DelGain(id) => CaptureSettingsMsg::DelGain(*id),
            CaptureSettingsMsg::ChangeCompression(option) => CaptureSettingsMsg::ChangeCompression(
                option.clone(),
            ),
            CaptureSettingsMsg::ChangeCompressionLevel(val) => {
                CaptureSettingsMsg::ChangeCompressionLevel(*val)
            },
        }
    }
}

impl From<CaptureSettingsMsg> for Message {
    fn from(value: CaptureSettingsMsg) -> (message: Self) {
        Message::CaptureSettingsMsg(value)
    }
}

impl vstd::std_specs::convert::FromSpecImpl<CaptureSettingsMsg> for Message {
    open spec fn obeys_from_spec() -> bool {
        true
    }

    open spec fn from_spec(value: CaptureSettingsMsg) -> Self {
        Message::CaptureSettingsMsg(value)
    }
}

/// The message that a new text in the field of the compression level
/// gives, where `parsed` is the number that the text denotes: the change of
/// the level to that number, or no message where the text denotes none.
pub fn compression_level_message(parsed: Option<u64>) -> (message: Message)
    ensures
        message == match parsed {
            Some(level) => Message::CaptureSettingsMsg(
                CaptureSettingsMsg::ChangeCompressionLevel(level),
            ),
            None => Message::Nothing,
        },
{
    match parsed {
        Some(level) => Message::CaptureSettingsMsg(
            CaptureSettingsMsg::ChangeCompressionLevel(level),
        ),
        None => Message::Nothing,
    }
}

/// A list after the entry at `id` was given what `parsed` holds: the number
/// read, or the value that the entry had.
pub open spec fn entered(list: Seq<Number>, parsed: Option<Number>, id: int) -> Seq<Number> {
    list.update(id, kept_or(parsed, list[id]))
}

impl CaptureSettingsView {
    pub open spec fn empty() -> CaptureSettingsView {
        CaptureSettingsView {
            sample_rates: Seq::empty(),
            durations: Seq::empty(),
            gains: Seq::empty(),
            compression: Seq::empty(),
            compression_level: 0,
        }
    }

    /// A message that changes or deletes an entry must give the index of an
    /// entry that is there.
    pub open spec fn admits(self, msg: CaptureSettingsMsg) -> bool {
        match msg {
            CaptureSettingsMsg::UpdateSampleRate((_, id)) => id < self.sample_rates.len(),
            CaptureSettingsMsg::DelSampleRate(id) => id < self.sample_rates.len(),
            CaptureSettingsMsg::UpdateDuration((_, id)) => id < self.durations.len(),
            CaptureSettingsMsg::DelDuration(id) => id < self.durations.len(),
            CaptureSettingsMsg::UpdateGain((_, id)) => id < self.gains.len(),
            CaptureSettingsMsg::DelGain(id) => id < self.gains.len(),
            _ => true,
        }
    }

    /// The settings after `msg`. A new entry is zero; a deleted entry makes
    /// the later ones move down by one.
    pub open spec fn update(self, msg: CaptureSettingsMsg) -> CaptureSettingsView {
        match msg {
            CaptureSettingsMsg::AddSampleRate => CaptureSettingsView {
                sample_rates: self.sample_rates.push(Number::zero()),
                ..self
            },
            CaptureSettingsMsg::UpdateSampleRate((val, id)) => CaptureSettingsView {
                sample_rates: entered(self.sample_rates, val, id as int),
                ..self
            },
            CaptureSettingsMsg::DelSampleRate(id) => CaptureSettingsView {
                sample_rates: self.sample_rates.remove(id as int),
                ..self
            },
            CaptureSettingsMsg::AddDuration => CaptureSettingsView {
                durations: self.durations.push(Number::zero()),
                ..self
            },
            CaptureSettingsMsg::UpdateDuration((val, id)) => CaptureSettingsView {
                durations: entered(self.durations, val, id as int),
                ..self
            },
            CaptureSettingsMsg::DelDuration(id) => CaptureSettingsView {
                durations: self.durations.remove(id as int),
                ..self
            },
            CaptureSettingsMsg::AddGain => CaptureSettingsView {
                gains: self.gains.push(Number::zero()),
                ..self
            },
            CaptureSettingsMsg::UpdateGain((val, id)) => CaptureSettingsView {
                gains: entered(self.gains, val, id as int),
                ..self
            },
            CaptureSettingsMsg::DelGain(id) => CaptureSettingsView {
                gains: self.gains.remove(id as int),
                ..self
            },
            CaptureSettingsMsg::ChangeCompression(option) => CaptureSettingsView {
                compression: option@,
                ..self
            },
            CaptureSettingsMsg::ChangeCompressionLevel(val) => CaptureSettingsView {
                compression_level: val,
                ..self
            },
        }
    }

    /// What `msg` asks of the capture settings, if it is meant for them.
    pub open spec fn admits_message(self, msg: Message) -> bool {
        match msg {
            Message::CaptureSettingsMsg(m) => self.admits(m),
            _ => true,
        }
    }

    /// The settings after `msg`; a message for another part changes
    /// nothing.
    pub open spec fn update_message(self, msg: Message) -> CaptureSettingsView {
        match msg {
            Message::CaptureSettingsMsg(m) => self.update(m),
            _ => self,
        }
    }
}

impl View for CaptureSettings {
    type V = CaptureSettingsView;

    closed spec fn view(&self) -> CaptureSettingsView {
        CaptureSettingsView {
            sample_rates: self.sample_rates@,
            durations: self.durations@,
            gains: self.gains@,
            compression: self.compression@,
            compression_level: self.compression_level,
        }
    }
}

fn copy_numbers(list: &Vec<Number>) -> (copy: Vec<Number>)
    ensures
        copy@ == list@,
{
    let mut copy: Vec<Number> = Vec::new();
    let mut i: usize = 0;
    while i < list.len()
        invariant
            i <= list.len(),
            copy@ == list@.take(i as int),
        decreases list.len() - i,
    {
        copy.push(list[i]);
        i = i + 1;
    }
    copy
}

impl Clone for CaptureSettings {
    fn clone(&self) -> (copy: Self)
        ensures
            copy@ == self@,
    {
        CaptureSettings {
            sample_rates: copy_numbers(&self.sample_rates),
            durations: copy_numbers(&self.durations),
            gains: copy_numbers(&self.gains),
            compression: self.compression.clone(),
            compression_level: self.compression_level,
        }
    }
}

impl Default for CaptureSettings {
    fn default() -> (settings: Self)
        ensures
            settings@ == CaptureSettingsView::empty(),
    {
        CaptureSettings {
            sample_rates: Vec::new(),
            durations: Vec::new(),
            gains: Vec::new(),
            compression: String::new(),
            compression_level: 0,
        }
    }
}

impl CaptureSettings {
    /// The settings that hold what is given.
    pub fn from_parts(
        sample_rates: Vec<Number>,
        durations: Vec<Number>,
        gains: Vec<Number>,
        compression: String,
        compression_level: u64,
    ) -> (settings: Self)
        ensures
            settings@ == (CaptureSettingsView {
                sample_rates: sample_rates@,
                durations: durations@,
                gains: gains@,
                compression: compression@,
                compression_level,
            }),
    {
        CaptureSettings { sample_rates, durations, gains, compression, compression_level }
    }

    pub fn sample_rates(&self) -> (list: &Vec<Number>)
        ensures
            list@ == self@.sample_rates,
    {
        &self.sample_rates
    }

    pub fn durations(&self) -> (list: &Vec<Number>)
        ensures
            list@ == self@.durations,
    {
        &self.durations
    }

    pub fn gains(&self) -> (list: &Vec<Number>)
        ensures
            list@ == self@.gains,
    {
        &self.gains
    }

    pub fn compression(&self) -> (codec: &String)
        ensures
            codec@ == self@.compression,
    {
        &self.compression
    }

    pub fn compression_level(&self) -> (level: u64)
        ensures
            level == self@.compression_level,
    {
        self.compression_level
    }

    /// Tells whether `msg` can be applied: whether the entry that it names,
    /// if it names one, is there.
    pub fn admits(&self, msg: &Message) -> (ok: bool)
        ensures
            ok == self@.admits_message(*msg),
    {
        match msg {
            Message::CaptureSettingsMsg(m) => match m {
                CaptureSettingsMsg::UpdateSampleRate((_, id)) => *id < self.sample_rates.len(),
                CaptureSettingsMsg::DelSampleRate(id) => *id < self.sample_rates.len(),
                CaptureSettingsMsg::UpdateDuration((_, id)) => *id < self.durations.len(),
                CaptureSettingsMsg::DelDuration(id) => *id < self.durations.len(),
                CaptureSettingsMsg::UpdateGain((_, id)) => *id < self.gains.len(),
                CaptureSettingsMsg::DelGain(id) => *id < self.gains.len(),
                _ => true,
            },
            _ => true,
        }
    }

    /// Applies `msg` if it is meant for the capture settings.
    pub fn update(&mut self, msg: Message)
        requires
            old(self)@.admits_message(msg),
        ensures
            final(self)@ == old(self)@.update_message(msg),
    {
        let Message::CaptureSettingsMsg(msg) = msg else {
            return ;
        };
        match msg {
            CaptureSettingsMsg::AddSampleRate => {
                self.sample_rates.push(Number::zero());
            },
            CaptureSettingsMsg::UpdateSampleRate((val, id)) => {
                change_if_valid(val, &mut self.sample_rates[id]);
            },
            CaptureSettingsMsg::DelSampleRate(id) => {
                self.sample_rates.remove(id);
            },
            CaptureSettingsMsg::AddDuration => {
                self.durations.push(Number::zero());
            },
            CaptureSettingsMsg::UpdateDuration((val, id)) => {
                change_if_valid(val, &mut self.durations[id]);
            },
            CaptureSettingsMsg::DelDuration(id) => {
                self.durations.remove(id);
            },
            CaptureSettingsMsg::AddGain => {
                self.gains.push(Number::zero());
            },
            CaptureSettingsMsg::UpdateGain((val, id)) => {
                change_if_valid(val, &mut self.gains[id]);
            },
            CaptureSettingsMsg::DelGain(id) => {
                self.gains.remove(id);
            },
            CaptureSettingsMsg::ChangeCompression(option) => {
                self.compression = option;
            },
            CaptureSettingsMsg::ChangeCompressionLevel(val) => {
                self.compression_level = val;
            },
        }
    }
}

} // verus!
