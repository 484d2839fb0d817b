//! The voice definition as the facade keeps track of it: which kinds of
//! resource were attached, and whether an engine may be created from it.

use vstd::prelude::*;
use crate::synthesiser::{Error, ErrorKind};

verus! {

/// The two kinds of language resource that a voice is made of.
#[derive(Clone, Copy, Debug, PartialEq, Eq, Structural)]
pub enum ResourceKind {
    /// Data for text analysis.
    TextAnalysis,
    /// Data for speech generation.
    SpeechGeneration,
}

/// How often a resource of one kind was attached to a voice.
#[derive(Clone, Copy, Debug, PartialEq, Eq, Structural)]
pub enum Slot {
    /// Never.
    Missing,
    /// Exactly once.
    Attached,
    /// Twice or more.
    Repeated,
}

impl Slot {
    /// The slot after one more resource of its kind was attached.
    pub open spec fn attach(self) -> Slot {
        match self {
            Slot::Missing => Slot::Attached,
            _ => Slot::Repeated,
        }
    }

    /// The slot that stands for `count` attachments.
    pub open spec fn of_count(count: nat) -> Slot {
        if count == 0 {
            Slot::Missing
        } else if count == 1 {
            Slot::Attached
        } else {
            Slot::Repeated
        }
    }
}

/// The mathematical view of a [`Voice`].
pub struct VoiceView {
    pub name: Seq<char>,
    pub text_analysis: Slot,
    pub speech_generation: Slot,
}

impl VoiceView {
    /// A voice of that name with nothing attached.
    pub open spec fn empty(name: Seq<char>) -> VoiceView {
        VoiceView { name, text_analysis: Slot::Missing, speech_generation: Slot::Missing }
    }

    /// The voice after a resource of `kind` was attached.
    pub open spec fn attach(self, kind: ResourceKind) -> VoiceView {
        match kind {
            ResourceKind::TextAnalysis => VoiceView {
                text_analysis: self.text_analysis.attach(),
                ..self
            },
            ResourceKind::SpeechGeneration => VoiceView {
                speech_generation: self.speech_generation.attach(),
                ..self
            },
        }
    }

    /// Whether an engine may be created from the voice: it holds exactly one
    /// resource of each kind.
    pub open spec fn complete(self) -> bool {
        self.text_analysis == Slot::Attached && self.speech_generation == Slot::Attached
    }
}

/// A named voice under construction.
pub struct Voice {
    name: String,
    text_analysis: Slot,
    speech_generation: Slot,
}

/// The proof that a voice was found complete. Only
/// [`Voice::engine_permit`] hands one out, and a synthesiser cannot be made
/// without one.
pub struct EnginePermit {
    voice_name: String,
}

impl View for Voice {
    type V = VoiceView;

    closed spec fn view(&self) -> VoiceView {
        VoiceView {
            name: self.name@,
            text_analysis: self.text_analysis,
            speech_generation: self.speech_generation,
        }
    }
}

impl View for EnginePermit {
    type V = Seq<char>;

    /// The name of the voice that the permit was given for.
    closed spec fn view(&self) -> Seq<char> {
        self.voice_name@
    }
}

impl Voice {
    /// A voice of that name with no resource attached.
    pub fn new(name: &str) -> (voice: Voice)
        ensures
            voice@ == VoiceView::empty(name@),
    {
        Voice {
            name: String::from_str(name),
            text_analysis: Slot::Missing,
            speech_generation: Slot::Missing,
        }
    }

    /// Records that a resource of `kind` was attached to the voice. Nothing
    /// stops a second resource of the same kind; it leaves the voice unfit
    /// for an engine.
    pub fn add_resource(&mut self, kind: ResourceKind)
        ensures
            final(self)@ == old(self)@.attach(kind),
    {
        match kind {
            ResourceKind::TextAnalysis => {
                self.text_analysis = attach_slot(self.text_analysis);
            },
            ResourceKind::SpeechGeneration => {
                self.speech_generation = attach_slot(self.speech_generation);
            },
        }
    }

    /// Whether the voice holds exactly one resource of each kind.
    pub fn is_complete(&self) -> (complete: bool)
        ensures
            complete == self@.complete(),
    {
        self.text_analysis == Slot::Attached && self.speech_generation == Slot::Attached
    }

    /// The check that stands before every engine: a complete voice gets a
    /// permit, any other voice the error of an incomplete voice.
    pub fn engine_permit(&self) -> (result: Result<EnginePermit, Error>)
        ensures
            self@.complete() ==> result is Ok && result->Ok_0@ == self@.name,
            !self@.complete() ==> result is Err && result->Err_0.kind
                == ErrorKind::IncompleteVoice && result->Err_0.description@
                == "Voice needs exactly one text analysis and one speech generation resource."@,
    {
        if self.is_complete() {
            Ok(EnginePermit { voice_name: self.name.clone() })
        } else {
            Err(Error::incomplete_voice())
        }
    }
}

impl EnginePermit {
    /// The name of the voice that the permit was given for.
    pub fn voice_name(&self) -> (name: &str)
        ensures
            name@ == self@,
    {
        self.voice_name.as_str()
    }
}

fn attach_slot(slot: Slot) -> (next: Slot)
    ensures
        next == slot.attach(),
{
    match slot {
        Slot::Missing => Slot::Attached,
        _ => Slot::Repeated,
    }
}

/// The voice that results when resources of `kinds` are attached in turn to
/// an empty voice.
pub open spec fn voice_after(name: Seq<char>, kinds: Seq<ResourceKind>) -> VoiceView
    decreases kinds.len(),
{
    if kinds.len() == 0 {
        VoiceView::empty(name)
    } else {
        voice_after(name, kinds.drop_last()).attach(kinds.last())
    }
}

/// How often `kind` occurs in `kinds`.
pub open spec fn occurrences(kinds: Seq<ResourceKind>, kind: ResourceKind) -> nat
    decreases kinds.len(),
{
    if kinds.len() == 0 {
        0
    } else if kinds.last() == kind {
        occurrences(kinds.drop_last(), kind) + 1
    } else {
        occurrences(kinds.drop_last(), kind)
    }
}

/// A voice is fit for an engine exactly when each kind of resource was
/// attached once and only once, in whatever order: a missing kind and a
/// repeated kind both leave it incomplete.
pub proof fn lemma_complete_means_one_of_each(name: Seq<char>, kinds: Seq<ResourceKind>)
    ensures
        voice_after(name, kinds).name == name,
        voice_after(name, kinds).text_analysis == Slot::of_count(
            occurrences(kinds, ResourceKind::TextAnalysis),
        ),
        voice_after(name, kinds).speech_generation == Slot::of_count(
            occurrences(kinds, ResourceKind::SpeechGeneration),
        ),
        voice_after(name, kinds).complete() <==> occurrences(kinds, ResourceKind::TextAnalysis)
            == 1 && occurrences(kinds, ResourceKind::SpeechGeneration) == 1,
    decreases kinds.len(),
{
    if kinds.len() > 0 {
        lemma_complete_means_one_of_each(name, kinds.drop_last());
    }
}

} // verus!
