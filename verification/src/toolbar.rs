//! Opening, saving and starting anew: what the toolbar decides, step by
//! step, while the caller talks to the file system.
use vstd::prelude::*;
use vstd::string::*;
use crate::config::{Config, Document};
use crate::Message;

verus! {

/// `serde_json::Error`, the error of the encoder and decoder of plans. It is
/// carried through as it comes; nothing is known of what it holds.
#[verifier::external_type_specification]
#[verifier::external_body]
pub struct ExJsonError(serde_json::Error);

/// `std::io::Error`, the error of the file system. It is carried through as
/// it comes; nothing is known of what it holds.
#[verifier::external_type_specification]
#[verifier::external_body]
pub struct ExIoError(std::io::Error);

/// Why a plan could not be saved.
#[derive(Debug)]
pub enum ToolbarErr {
    Serialize(serde_json::Error),
    NoFileSelected,
    FileIoError(std::io::Error),
}

/// The text that `serde_json::Error` shows of itself through `Display`.
/// Nothing is claimed of the text.
#[verifier::external_body]
fn encoding_error_text(error: &serde_json::Error) -> (text: String) {
    error.to_string()
}

/// The text that `std::io::Error` shows of itself through `Display`.
/// Nothing is claimed of the text.
#[verifier::external_body]
fn io_error_text(error: &std::io::Error) -> (text: String) {
    error.to_string()
}

impl ToolbarErr {
    /// The error in words. Where an encoder or the file system failed, the
    /// words are those of their error.
    pub fn message(&self) -> (text: String)
        ensures
            self is NoFileSelected ==> text@ == "No File Selected"@,
    {
        match self {
            ToolbarErr::Serialize(e) => encoding_error_text(e),
            ToolbarErr::NoFileSelected => String::from_str("No File Selected"),
            ToolbarErr::FileIoError(e) => io_error_text(e),
        }
    }
}

/// What the toolbar is asked, and what it is told of the outcome.
#[derive(Debug)]
pub enum ToolbarMsg {
    OpenFile,
    SaveFile(Option<Config>),
    NewFile,
    /// The plan that was read from the file that was opened.
    OpenedFile(Config),
    SavedFile,
    Error,
}

impl ToolbarMsg {
    /// `other` says what this message says: it is the same message, and a
    /// plan that comes with it holds what the plan of this one holds.
    pub open spec fn same(self, other: ToolbarMsg) -> bool {
        match (self, other) {
            (ToolbarMsg::SaveFile(Some(a)), ToolbarMsg::SaveFile(Some(b))) => a@ == b@,
            (ToolbarMsg::OpenedFile(a), ToolbarMsg::OpenedFile(b)) => a@ == b@,
            (ToolbarMsg::SaveFile(Some(_)), _) => false,
            (ToolbarMsg::OpenedFile(_), _) => false,
            _ => self == other,
        }
    }
}

impl Clone for ToolbarMsg {
    fn clone(&self) -> (copy: Self)
        ensures
            self.same(copy),
    {
        match self {
            ToolbarMsg::OpenFile => ToolbarMsg::OpenFile,
            ToolbarMsg::SaveFile(None) => ToolbarMsg::SaveFile(None),
            ToolbarMsg::SaveFile(Some(conf)) => ToolbarMsg::SaveFile(Some(conf.clone())),
            ToolbarMsg::NewFile => ToolbarMsg::NewFile,
            ToolbarMsg::OpenedFile(conf) => ToolbarMsg::OpenedFile(conf.clone()),
            ToolbarMsg::SavedFile => ToolbarMsg::SavedFile,
            ToolbarMsg::Error => ToolbarMsg::Error,
        }
    }
}

impl From<ToolbarMsg> for Message {
    fn from(value: ToolbarMsg) -> (message: Self) {
        Message::Toolbar(value)
    }
}

impl vstd::std_specs::convert::FromSpecImpl<ToolbarMsg> for Message {
    open spec fn obeys_from_spec() -> bool {
        true
    }

    open spec fn from_spec(value: ToolbarMsg) -> Self {
        Message::Toolbar(value)
    }
}

/// What is to be done with the file system after a message to the toolbar.
#[derive(Debug)]
pub enum ToolbarTask {
    Idle,
    /// Let the user pick a file and read a plan from it.
    Open,
    /// Let the user pick a place and write this plan to it.
    Save(Config),
}

/// How far the opening of a file has come, and with it what is to be done
/// next: let the user choose a file, read and decode it, or nothing more.
#[derive(Debug)]
pub enum OpenStep {
    Choose,
    Read,
    Done(Option<Config>),
}

/// What came of a step of opening a file.
#[derive(Debug)]
pub enum OpenEvent {
    /// Whether the user chose a file.
    Chosen(bool),
    /// What the file was decoded as.
    Loaded(Result<Document, serde_json::Error>),
}

/// How far the saving of a plan has come, and with it what is to be done
/// next: let the user choose a place, encode the plan, write the text, or
/// nothing more.
#[derive(Debug)]
pub enum SaveStep {
    Choose,
    Encode,
    Write,
    Done(Result<(), ToolbarErr>),
}

/// What came of a step of saving a plan.
#[derive(Debug)]
pub enum SaveEvent {
    /// Whether the user chose a place.
    Chosen(bool),
    Encoded(Result<(), serde_json::Error>),
    Written(Result<(), std::io::Error>),
}

/// The toolbar: open, save, new.
#[derive(Default, Debug, Clone, Copy)]
pub struct Toolbar;

impl Toolbar {
    /// Says what is to be done after `message`: a file opened, the plan
    /// that came with the message saved, or nothing.
    pub fn update(&mut self, message: ToolbarMsg) -> (task: ToolbarTask)
        ensures
            task == match message {
                ToolbarMsg::OpenFile => ToolbarTask::Open,
                ToolbarMsg::SaveFile(Some(conf)) => ToolbarTask::Save(conf),
                _ => ToolbarTask::Idle,
            },
    {
        match message {
            ToolbarMsg::OpenFile => ToolbarTask::Open,
            ToolbarMsg::SaveFile(conf) => {
                if let Some(conf) = conf {
                    ToolbarTask::Save(conf)
                } else {
                    ToolbarTask::Idle
                }
            },
            _ => ToolbarTask::Idle,
        }
    }

    /// The next step of opening a file. Without a file chosen, or with one
    /// that cannot be decoded, the opening ends without a plan; a file that
    /// was decoded ends it with the plan that the document is loaded as. An
    /// event that does not belong to the step leaves the step as it is.
    pub fn open_file(step: OpenStep, event: OpenEvent) -> (next: OpenStep)
        ensures
            match (step, event) {
                (OpenStep::Choose, OpenEvent::Chosen(true)) => next == OpenStep::Read,
                (OpenStep::Choose, OpenEvent::Chosen(false)) => next == OpenStep::Done(None),
                (OpenStep::Read, OpenEvent::Loaded(Ok(document))) => match next {
                    OpenStep::Done(Some(conf)) => document@.loads(conf@) && conf@.wf(),
                    _ => false,
                },
                (OpenStep::Read, OpenEvent::Loaded(Err(_))) => next == OpenStep::Done(None),
                _ => next == step,
            },
    {
        match (step, event) {
            (OpenStep::Choose, OpenEvent::Chosen(chosen)) => {
                if chosen {
                    OpenStep::Read
                } else {
                    OpenStep::Done(None)
                }
            },
            (OpenStep::Read, OpenEvent::Loaded(loaded)) => match loaded {
                Ok(document) => OpenStep::Done(Some(Config::from_document(document))),
                Err(_) => OpenStep::Done(None),
            },
            (step, _) => step,
        }
    }

    /// The message that tells the editor how the opening of a file ended.
    pub fn opened(outcome: Option<Config>) -> (message: Message)
        ensures
            message == match outcome {
                Some(conf) => Message::Toolbar(ToolbarMsg::OpenedFile(conf)),
                None => Message::Toolbar(ToolbarMsg::Error),
            },
    {
        match outcome {
            Some(conf) => Message::Toolbar(ToolbarMsg::OpenedFile(conf)),
            None => Message::Toolbar(ToolbarMsg::Error),
        }
    }

    /// The next step of saving a plan. Without a place chosen the saving
    /// ends with `NoFileSelected`; a plan that cannot be encoded ends it
    /// with the encoder's error, a text that cannot be written with that of
    /// the file system. An event that does not belong to the step leaves
    /// the step as it is.
    pub fn save_file(step: SaveStep, event: SaveEvent) -> (next: SaveStep)
        ensures
            next == match (step, event) {
                (SaveStep::Choose, SaveEvent::Chosen(true)) => SaveStep::Encode,
                (SaveStep::Choose, SaveEvent::Chosen(false)) => SaveStep::Done(
                    Err(ToolbarErr::NoFileSelected),
                ),
                (SaveStep::Encode, SaveEvent::Encoded(Ok(_))) => SaveStep::Write,
                (SaveStep::Encode, SaveEvent::Encoded(Err(e))) => SaveStep::Done(
                    Err(ToolbarErr::Serialize(e)),
                ),
                (SaveStep::Write, SaveEvent::Written(Ok(_))) => SaveStep::Done(Ok(())),
                (SaveStep::Write, SaveEvent::Written(Err(e))) => SaveStep::Done(
                    Err(ToolbarErr::FileIoError(e)),
                ),
                _ => step,
            },
    {
        match (step, event) {
            (SaveStep::Choose, SaveEvent::Chosen(chosen)) => {
                if chosen {
                    SaveStep::Encode
                } else {
                    SaveStep::Done(Err(ToolbarErr::NoFileSelected))
                }
            },
            (SaveStep::Encode, SaveEvent::Encoded(encoded)) => match encoded {
                Ok(_) => SaveStep::Write,
                Err(e) => SaveStep::Done(Err(ToolbarErr::Serialize(e))),
            },
            (SaveStep::Write, SaveEvent::Written(written)) => match written {
                Ok(_) => SaveStep::Done(Ok(())),
                Err(e) => SaveStep::Done(Err(ToolbarErr::FileIoError(e))),
            },
            (step, _) => step,
        }
    }

    /// The message that tells the editor how the saving of a plan ended.
    pub fn saved(outcome: &Result<(), ToolbarErr>) -> (message: Message)
        ensures
            message == match outcome {
                Ok(_) => Message::Toolbar(ToolbarMsg::SavedFile),
                Err(_) => Message::Toolbar(ToolbarMsg::Error),
            },
    {
        match outcome {
            Ok(_) => Message::Toolbar(ToolbarMsg::SavedFile),
            Err(_) => Message::Toolbar(ToolbarMsg::Error),
        }
    }
}

} // verus!
