//! Speech output for a speech-dispatcher style server: text is synthesised to
//! 16-bit mono PCM at 16 kHz and handed to an audio device in slices.

use vstd::prelude::*;
use vstd::string::StringSliceAdditionalSpecFns;

pub mod conversation;
pub mod engine;
pub mod frontend;
pub mod output;
pub mod stream;
pub mod synthesiser;
pub mod voice;

use crate::conversation::{conducted, opening, said_since, stage_after, Outcome, Stage};
use crate::engine::Exchange;
use crate::output::{Output, Playback};
use crate::synthesiser::{tells, Synthesiser};
use crate::voice::EnginePermit;

verus! {

/// Why the output module could not be set up or could not speak.
#[derive(Debug)]
pub enum SpeechError {
    /// The synthesiser failed.
    Synthesis(synthesiser::Error),
    /// The audio output failed.
    Playback(output::Error),
}

impl SpeechError {
    /// The line shown to the user for this error.
    pub fn message(&self) -> (line: String)
        ensures
            line@ == (match *self {
                SpeechError::Synthesis(error) => "TTS Pico error: "@ + error.description@,
                SpeechError::Playback(error) => error.line(),
            }),
    {
        match self {
            SpeechError::Synthesis(error) => error.message(),
            SpeechError::Playback(error) => error.message(),
        }
    }
}

/// Whether `result` is what a conversation about a text that stands at
/// `stage` gives the speaker: the playback of all the samples, from the
/// first on, where the engine became idle, and the synthesiser's error where
/// the conversation ended otherwise.
pub open spec fn speaks(result: Result<Playback, SpeechError>, stage: Stage) -> bool {
    match stage {
        Stage::Finished(Outcome::Pcm(pcm)) => result is Ok && result->Ok_0@.samples == pcm
            && result->Ok_0@.cursor == 0,
        Stage::Finished(outcome) => result is Err && result->Err_0 is Synthesis && tells(
            result->Err_0->Synthesis_0,
            outcome,
        ),
        _ => false,
    }
}

/// A synthesiser and an audio output, joined to speak a text.
pub struct OutputModule {
    ttspico_synthesiser: Synthesiser,
    cpal_output: Output,
}

impl OutputModule {
    /// The format in which the module's output opens the device.
    pub closed spec fn config(&self) -> output::StreamConfig {
        self.cpal_output@
    }

    /// The name of the voice that the module speaks with.
    pub closed spec fn voice_name(&self) -> Seq<char> {
        self.ttspico_synthesiser@
    }

    /// Every call that the module's synthesiser has made into its engine,
    /// in order.
    pub closed spec fn record(&self) -> Seq<Exchange> {
        self.ttspico_synthesiser.record()
    }

    /// Joins a synthesiser over `engine`, which was created from the voice
    /// that `permit` was given for, with the output of the host's default
    /// device; `device_found` says whether the host has one.
    pub fn new(permit: EnginePermit, engine: ttspico::Engine, device_found: bool) -> (result:
        Result<OutputModule, SpeechError>)
        ensures
            device_found ==> result is Ok && result->Ok_0.config() == output::fixed_config()
                && result->Ok_0.voice_name() == permit@ && result->Ok_0.record() == Seq::<
                Exchange,
            >::empty(),
            !device_found ==> (result matches Err(SpeechError::Playback(error)) && error.kind
                == output::ErrorKind::NoDevice && error.description@
                == "Unable to find audio output device."@),
    {
        let ttspico_synthesiser = Synthesiser::new(permit, engine);
        match Output::new(device_found) {
            Ok(cpal_output) => Ok(OutputModule { ttspico_synthesiser, cpal_output }),
            Err(error) => Err(SpeechError::Playback(error)),
        }
    }

    /// The audio output of the module.
    pub fn output(&self) -> (output: &Output)
        ensures
            output@ == self.config(),
    {
        &self.cpal_output
    }

    /// Synthesises `text` in full and hands back the playback of its PCM,
    /// which stands at the first sample. No sample is played before the
    /// synthesis is complete.
    ///
    /// The engine is given the bytes of `text` and drained as
    /// [`Synthesiser::generate`] does it, and the playback holds what that
    /// conversation came to.
    pub fn speak(&mut self, text: &str) -> (result: Result<Playback, SpeechError>)
        ensures
            final(self).config() == old(self).config(),
            final(self).voice_name() == old(self).voice_name(),
            old(self).record().is_prefix_of(final(self).record()),
            conducted(
                opening(text.spec_bytes()),
                said_since(old(self).record(), final(self).record()),
            ),
            speaks(
                result,
                stage_after(
                    opening(text.spec_bytes()),
                    said_since(old(self).record(), final(self).record()),
                ),
            ),
            result matches Ok(playback) ==> playback@.cursor == 0 && playback@.samples.len()
                <= synthesiser::DRAIN_CALL_LIMIT * synthesiser::CHUNK_SAMPLES,
            result matches Err(error) ==> (error matches SpeechError::Synthesis(cause)
                && synthesiser::generate_failure(cause)),
    {
        let source = text.as_bytes();
        match self.ttspico_synthesiser.generate(source) {
            Ok(pcm_data) => Ok(self.cpal_output.play(pcm_data)),
            Err(error) => Err(SpeechError::Synthesis(error)),
        }
    }
}

} // verus!
