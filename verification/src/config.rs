//! The plan as a whole, and what is stored of it.
use vstd::prelude::*;
use crate::capture_settings::{CaptureSettings, CaptureSettingsView};
use crate::collection_modes::{CollectionMode, CollectionModes};
use crate::frequency::{FrequencyConfig, FrequencyRecord, FrequencyView, RecordView};
use crate::keyed::{lemma_map, lemma_reload, Keyed};
use crate::scheduling::{Scheduling, TimeSlotView};
use crate::Message;

verus! {

/// A whole collection plan: the one document that the editor works on.
#[derive(Debug)]
pub struct Config {
    frequencies: FrequencyConfig,
    capture_settings: CaptureSettings,
    collection_modes: CollectionModes,
    scheduling: Scheduling,
}

/// A plan as contracts see it.
pub struct ConfigView {
    pub frequencies: Keyed<Seq<FrequencyView>>,
    pub capture_settings: CaptureSettingsView,
    pub collection_modes: Keyed<CollectionMode>,
    pub scheduling: Seq<TimeSlotView>,
}

/// What is stored of a plan. The groups and the modes stand in the order in
/// which they are written; ids and stamps are no part of it.
#[derive(Debug)]
pub struct Document {
    pub frequencies: Vec<(String, Vec<FrequencyRecord>)>,
    pub capture_settings: CaptureSettings,
    pub collection_modes: Vec<(String, CollectionMode)>,
    pub scheduling: Scheduling,
}

/// A stored plan as contracts see it.
pub struct DocumentView {
    pub frequencies: Seq<(Seq<char>, Seq<RecordView>)>,
    pub capture_settings: CaptureSettingsView,
    pub collection_modes: Seq<(Seq<char>, CollectionMode)>,
    pub scheduling: Seq<TimeSlotView>,
}

impl View for Document {
    type V = DocumentView;

    open spec fn view(&self) -> DocumentView {
        DocumentView {
            frequencies: crate::frequency::group_views(self.frequencies@),
            capture_settings: self.capture_settings@,
            collection_modes: crate::collection_modes::mode_views(self.collection_modes@),
            scheduling: self.scheduling@,
        }
    }
}

impl DocumentView {
    /// `config` is a plan that loading the document gives: its groups and
    /// modes are those of the document, put in one after the other, and the
    /// rest is as the document has it. Of the ids of its frequencies
    /// nothing is said.
    pub open spec fn loads(self, config: ConfigView) -> bool {
        &&& config.frequencies.map(crate::frequency::records()) == Keyed::load(self.frequencies)
        &&& config.capture_settings == self.capture_settings
        &&& config.collection_modes == Keyed::load(self.collection_modes)
        &&& config.scheduling == self.scheduling
    }
}

impl ConfigView {
    /// The plan without groups, settings, modes and slots.
    pub open spec fn empty() -> ConfigView {
        ConfigView {
            frequencies: Keyed::empty(),
            capture_settings: CaptureSettingsView::empty(),
            collection_modes: Keyed::empty(),
            scheduling: Seq::empty(),
        }
    }

    /// What holds of every plan that the library makes: its groups and its
    /// modes are well formed.
    pub open spec fn wf(self) -> bool {
        self.frequencies.wf() && self.collection_modes.wf()
    }

    /// What `msg` asks of the plan: the group, the mode, the entry or the
    /// slot that it names must be there.
    pub open spec fn admits(self, msg: Message) -> bool {
        match msg {
            Message::Frequency(f) => crate::frequency::admits(self.frequencies, f),
            Message::CaptureSettingsMsg(f) => self.capture_settings.admits(f),
            Message::CollectionModes(f) => crate::collection_modes::admits(
                self.collection_modes,
                f,
            ),
            Message::Scheduling(f) => crate::scheduling::admits(self.scheduling, f),
            _ => true,
        }
    }

    /// The plan after `msg`, where `draws` are the bytes drawn, in order,
    /// for a default name, and a new frequency gets the id `id`. Each message goes to
    /// the part that it is meant for; a message for the toolbar, or none,
    /// changes nothing.
    pub open spec fn updated(self, msg: Message, draws: Seq<u8>, id: u64) -> ConfigView {
        match msg {
            Message::Frequency(f) => ConfigView {
                frequencies: crate::frequency::updated(self.frequencies, f, draws, id),
                ..self
            },
            Message::CaptureSettingsMsg(f) => ConfigView {
                capture_settings: self.capture_settings.update(f),
                ..self
            },
            Message::CollectionModes(f) => ConfigView {
                collection_modes: crate::collection_modes::updated(self.collection_modes, f, draws),
                ..self
            },
            Message::Scheduling(f) => ConfigView {
                scheduling: crate::scheduling::updated(self.scheduling, f),
                ..self
            },
            _ => self,
        }
    }

    /// What is stored of the plan.
    pub open spec fn document(self) -> DocumentView {
        DocumentView {
            frequencies: self.frequencies.map(crate::frequency::records()).entries(),
            capture_settings: self.capture_settings,
            collection_modes: self.collection_modes.entries(),
            scheduling: self.scheduling,
        }
    }
}

impl View for Config {
    type V = ConfigView;

    closed spec fn view(&self) -> ConfigView {
        ConfigView {
            frequencies: self.frequencies@,
            capture_settings: self.capture_settings@,
            collection_modes: self.collection_modes@,
            scheduling: self.scheduling@,
        }
    }
}

impl Clone for Config {
    fn clone(&self) -> (copy: Self)
        ensures
            copy@ == self@,
    {
        Config {
            frequencies: self.frequencies.clone(),
            capture_settings: self.capture_settings.clone(),
            collection_modes: self.collection_modes.clone(),
            scheduling: self.scheduling.clone(),
        }
    }
}

impl Default for Config {
    fn default() -> (config: Self)
        ensures
            config@ == ConfigView::empty(),
            config@.wf(),
    {
        Config {
            frequencies: FrequencyConfig::new(),
            capture_settings: CaptureSettings::default(),
            collection_modes: CollectionModes::new(),
            scheduling: Scheduling::default(),
        }
    }
}

impl Config {
    pub fn frequencies(&self) -> (part: &FrequencyConfig)
        ensures
            part@ == self@.frequencies,
    {
        &self.frequencies
    }

    pub fn capture_settings(&self) -> (part: &CaptureSettings)
        ensures
            part@ == self@.capture_settings,
    {
        &self.capture_settings
    }

    pub fn collection_modes(&self) -> (part: &CollectionModes)
        ensures
            part@ == self@.collection_modes,
    {
        &self.collection_modes
    }

    pub fn scheduling(&self) -> (part: &Scheduling)
        ensures
            part@ == self@.scheduling,
    {
        &self.scheduling
    }

    /// Tells whether the plan is well formed, as all are that the library
    /// makes.
    pub fn is_wf(&self) -> (ok: bool)
        ensures
            ok == self@.wf(),
    {
        self.frequencies.is_wf() && self.collection_modes.is_wf()
    }

    /// Tells whether `msg` can be applied: whether what it names is there.
    pub fn admits(&self, msg: &Message) -> (ok: bool)
        requires
            self@.wf(),
        ensures
            ok == self@.admits(*msg),
    {
        match msg {
            Message::Frequency(_) => self.frequencies.admits(msg),
            Message::CaptureSettingsMsg(_) => self.capture_settings.admits(msg),
            Message::CollectionModes(f) => self.collection_modes.admits(f),
            Message::Scheduling(f) => self.scheduling.admits(f),
            _ => true,
        }
    }

    /// Hands `msg` to the part that it is meant for, with `draws` as the
    /// bytes drawn, in order, for a default name, and `id` as the id of a
    /// new frequency.
    pub fn apply(&mut self, msg: Message, draws: &Vec<u8>, id: u64)
        requires
            old(self)@.wf(),
            old(self)@.admits(msg),
        ensures
            final(self)@ == old(self)@.updated(msg, draws@, id),
            final(self)@.wf(),
    {
        match msg {
            Message::Frequency(f) => {
                self.frequencies.apply(f, draws, id);
            },
            Message::CaptureSettingsMsg(f) => {
                self.capture_settings.update(Message::CaptureSettingsMsg(f));
            },
            Message::CollectionModes(f) => {
                self.collection_modes.apply(f, draws);
            },
            Message::Scheduling(f) => {
                self.scheduling.update(f);
            },
            _ => (),
        };
    }

    /// Hands `msg` to the part that it is meant for. Where that part needs
    /// a default name or an id, it draws at random.
    pub fn update(&mut self, msg: Message)
        requires
            old(self)@.wf(),
            old(self)@.admits(msg),
        ensures
            exists|draws: Seq<u8>, id: u64|
                final(self)@ == #[trigger] old(self)@.updated(msg, draws, id),
            final(self)@.wf(),
    {
        match msg {
            Message::Frequency(f) => {
                self.frequencies.update(Message::Frequency(f));
                proof {
                    let (draws, id) = choose|draws: Seq<u8>, id: u64|
                        self.frequencies@ == #[trigger] crate::frequency::updated_message(
                            old(self).frequencies@,
                            msg,
                            draws,
                            id,
                        );
                    assert(self@ == old(self)@.updated(msg, draws, id));
                }
            },
            Message::CaptureSettingsMsg(f) => {
                self.capture_settings.update(Message::CaptureSettingsMsg(f));
                assert(self@ == old(self)@.updated(msg, Seq::empty(), 0));
            },
            Message::CollectionModes(f) => {
                self.collection_modes.update(f);
                proof {
                    let draws = choose|draws: Seq<u8>|
                        self.collection_modes@ == #[trigger] crate::collection_modes::updated(
                            old(self).collection_modes@,
                            f,
                            draws,
                        );
                    assert(self@ == old(self)@.updated(msg, draws, 0));
                }
            },
            Message::Scheduling(f) => {
                self.scheduling.update(f);
                assert(self@ == old(self)@.updated(msg, Seq::empty(), 0));
            },
            _ => {
                assert(self@ == old(self)@.updated(msg, Seq::empty(), 0));
            },
        };
    }

    /// What is stored of the plan.
    pub fn to_document(&self) -> (document: Document)
        ensures
            document@ == self@.document(),
    {
        Document {
            frequencies: self.frequencies.export(),
            capture_settings: self.capture_settings.clone(),
            collection_modes: self.collection_modes.export(),
            scheduling: self.scheduling.clone(),
        }
    }

    /// The plan that a stored one is loaded as. The groups and the modes
    /// are put in one after the other, so that of two with one name the
    /// later one stays; every frequency gets an id drawn at random.
    pub fn from_document(document: Document) -> (config: Self)
        ensures
            document@.loads(config@),
            config@.wf(),
    {
        Config {
            frequencies: FrequencyConfig::import(&document.frequencies),
            capture_settings: document.capture_settings,
            collection_modes: CollectionModes::import(&document.collection_modes),
            scheduling: document.scheduling,
        }
    }
}

/// A plan that is stored and loaded again holds what it held: the same
/// groups with the same frequencies, the same settings, modes and slots, in
/// the same order. The ids of the frequencies and the stamps are not kept.
pub proof fn lemma_round_trip(config: ConfigView, loaded: ConfigView)
    requires
        config.wf(),
        config.document().loads(loaded),
    ensures
        loaded.document() == config.document(),
{
    lemma_map(config.frequencies, crate::frequency::records());
    lemma_reload(config.frequencies.map(crate::frequency::records()));
    lemma_reload(config.collection_modes);
}

} // verus!
