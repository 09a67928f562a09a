//! The data model and update rules of an editor for radio-frequency
//! collection plans: frequency groups, capture settings, collection modes
//! and scheduling slots, changed one message at a time.
use vstd::prelude::*;

pub mod capture_settings;
pub mod collection_modes;
pub mod config;
pub mod frequency;
pub mod keyed;
pub mod number;
pub mod scheduling;
pub mod toolbar;
pub mod utils;

use crate::config::{Config, ConfigView};
use crate::toolbar::{Toolbar, ToolbarMsg, ToolbarTask};

verus! {

/// Everything that can be asked of the editor.
#[derive(Debug)]
pub enum Message {
    Nothing,
    Toolbar(toolbar::ToolbarMsg),
    Frequency(frequency::FrequencyMessage),
    CaptureSettingsMsg(capture_settings::CaptureSettingsMsg),
    CollectionModes(collection_modes::CollectionModesMsg),
    Scheduling(scheduling::SchedulingMsg),
}

impl Message {
    /// `other` says what this message says: it is the same message, and a
    /// plan that comes with it holds what the plan of this one holds.
    pub open spec fn same(self, other: Message) -> bool {
        match (self, other) {
            (Message::Toolbar(a), Message::Toolbar(b)) => a.same(b),
            (Message::Toolbar(_), _) => false,
            _ => self == other,
        }
    }
}

impl Clone for Message {
    fn clone(&self) -> (copy: Self)
        ensures
            self.same(copy),
    {
        match self {
            Message::Nothing => Message::Nothing,
            Message::Toolbar(m) => Message::Toolbar(m.clone()),
            Message::Frequency(m) => Message::Frequency(m.clone()),
            Message::CaptureSettingsMsg(m) => Message::CaptureSettingsMsg(m.clone()),
            Message::CollectionModes(m) => Message::CollectionModes(m.clone()),
            Message::Scheduling(m) => Message::Scheduling(m.clone()),
        }
    }
}

/// The editor: the toolbar and the plan that is being edited.
#[derive(Debug)]
pub struct App {
    toolbar: Toolbar,
    config: Config,
}

impl View for App {
    type V = ConfigView;

    /// The plan that is being edited.
    closed spec fn view(&self) -> ConfigView {
        self.config@
    }
}

/// A plan that comes with `message` is well formed.
pub open spec fn valid(message: Message) -> bool {
    match message {
        Message::Toolbar(ToolbarMsg::OpenedFile(conf)) => conf@.wf(),
        _ => true,
    }
}

/// What `message` asks of the plan `config`, if it is meant for the plan.
pub open spec fn admits(config: ConfigView, message: Message) -> bool {
    match message {
        Message::Toolbar(_) => true,
        _ => config.admits(message),
    }
}

/// The plan after `message`, where `draws` are the bytes drawn, in order,
/// for a default name, and a new frequency gets the id `id`. A file that was opened
/// takes the place of the plan, and so does the empty plan when a new one
/// is asked for; every other message for the toolbar leaves the plan as it
/// is.
pub open spec fn updated(
    config: ConfigView,
    message: Message,
    draws: Seq<u8>,
    id: u64,
) -> ConfigView {
    match message {
        Message::Toolbar(ToolbarMsg::OpenedFile(conf)) => conf@,
        Message::Toolbar(ToolbarMsg::NewFile) => ConfigView::empty(),
        Message::Toolbar(_) => config,
        _ => config.updated(message, draws, id),
    }
}

/// Tells whether a plan that comes with `message` is well formed.
pub fn is_valid(message: &Message) -> (ok: bool)
    ensures
        ok == valid(*message),
{
    match message {
        Message::Toolbar(ToolbarMsg::OpenedFile(conf)) => conf.is_wf(),
        _ => true,
    }
}

impl App {
    /// The editor with an empty plan.
    pub fn new() -> (app: Self)
        ensures
            app@ == ConfigView::empty(),
            app@.wf(),
    {
        App { toolbar: Toolbar, config: Config::default() }
    }

    /// The plan that is being edited.
    pub fn config(&self) -> (config: &Config)
        ensures
            config@ == self@,
    {
        &self.config
    }

    /// Tells whether `message` can be applied: whether what it names in the
    /// plan is there.
    pub fn admits(&self, message: &Message) -> (ok: bool)
        requires
            self@.wf(),
        ensures
            ok == admits(self@, *message),
    {
        match message {
            Message::Toolbar(_) => true,
            _ => self.config.admits(message),
        }
    }

    /// Applies `message` if it can be applied, and says then what is to be
    /// done with the file system. It cannot where the plan in the editor or
    /// one that comes with the message is not well formed, or where the
    /// message names what is not in the plan; the plan then stays as it is.
    pub fn checked_update(&mut self, message: Message) -> (task: Option<ToolbarTask>)
        ensures
            task.is_some() == (old(self)@.wf() && valid(message) && admits(old(self)@, message)),
            task.is_none() ==> final(self)@ == old(self)@,
            task.is_some() ==> final(self)@.wf() && exists|draws: Seq<u8>, id: u64|
                final(self)@ == #[trigger] updated(old(self)@, message, draws, id),
            match task {
                Some(ToolbarTask::Open) => message == Message::Toolbar(ToolbarMsg::OpenFile),
                Some(ToolbarTask::Save(conf)) => conf@ == old(self)@ && message matches Message::Toolbar(
                    ToolbarMsg::SaveFile(_),
                ),
                _ => true,
            },
    {
        if self.config.is_wf() && is_valid(&message) && self.admits(&message) {
            Some(self.update(message))
        } else {
            None
        }
    }

    /// Applies `message` and says what is to be done with the file system:
    /// a file opened after `OpenFile`, the plan as it stands saved after
    /// `SaveFile`, else nothing.
    pub fn update(&mut self, message: Message) -> (task: ToolbarTask)
        requires
            old(self)@.wf(),
            valid(message),
            admits(old(self)@, message),
        ensures
            exists|draws: Seq<u8>, id: u64|
                final(self)@ == #[trigger] updated(old(self)@, message, draws, id),
            final(self)@.wf(),
            match message {
                Message::Toolbar(ToolbarMsg::OpenFile) => task == ToolbarTask::Open,
                Message::Toolbar(ToolbarMsg::SaveFile(_)) => match task {
                    ToolbarTask::Save(conf) => conf@ == old(self)@,
                    _ => false,
                },
                _ => task == ToolbarTask::Idle,
            },
    {
        match message {
            Message::Toolbar(tb) => {
                let task = match tb {
                    ToolbarMsg::OpenedFile(conf) => {
                        self.config = conf;
                        ToolbarTask::Idle
                    },
                    ToolbarMsg::SaveFile(_) => {
                        self.toolbar.update(ToolbarMsg::SaveFile(Some(self.config.clone())))
                    },
                    ToolbarMsg::NewFile => {
                        self.config = Config::default();
                        self.toolbar.update(ToolbarMsg::NewFile)
                    },
                    other => self.toolbar.update(other),
                };
                assert(self@ == updated(old(self)@, message, Seq::empty(), 0));
                task
            },
            Message::Nothing => {
                assert(self@ == updated(old(self)@, message, Seq::empty(), 0));
                ToolbarTask::Idle
            },
            _ => {
                self.config.update(message);
                proof {
                    let (draws, id) = choose|draws: Seq<u8>, id: u64|
                        self.config@ == #[trigger] old(self).config@.updated(message, draws, id);
                    assert(self@ == updated(old(self)@, message, draws, id));
                }
                ToolbarTask::Idle
            },
        }
    }
}

} // verus!
