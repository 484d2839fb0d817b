//! The synthesiser facade: one engine, driven through the feeding and the
//! draining phase of the streaming protocol to turn a text into PCM.

use vstd::prelude::*;
use crate::engine::{count_answer, data_answer, pico_error_description, Exchange, Session};
use crate::conversation::{
    conducted, drain_opening, lemma_conducted_in_two_parts, lemma_one_more_call, opening,
    said_since, stage_after, Outcome, Stage,
};
use crate::stream::{terminator_taken, Drain, Drained, Feed, ProtocolError};
use crate::voice::EnginePermit;

verus! {

/// Number of samples that the engine is given room for in one drain call.
pub const CHUNK_SAMPLES: usize = 1024;

/// Number of drain calls within which the engine has to become idle. An
/// engine that still reports more after that many calls is taken to hang.
pub const DRAIN_CALL_LIMIT: usize = 1_048_576;

/// Why the synthesiser failed.
#[derive(Clone, Copy, Debug, PartialEq, Eq, Structural)]
pub enum ErrorKind {
    /// The runtime context, a resource, the voice or the engine could not be
    /// set up.
    Setup,
    /// An engine was asked for while the voice did not hold exactly one
    /// resource of each kind.
    IncompleteVoice,
    /// The engine reported a failure while it was fed or drained.
    Engine,
    /// The engine did not keep to the streaming protocol.
    Protocol(ProtocolError),
}

/// A failure of the synthesiser. One that comes from the engine carries the
/// engine's own description.
#[derive(Debug)]
pub struct Error {
    pub kind: ErrorKind,
    pub description: String,
}

impl Error {
    /// A failure to set the synthesiser up, as the engine described it.
    pub fn setup(description: String) -> (error: Error)
        ensures
            error.kind == ErrorKind::Setup,
            error.description == description,
    {
        Error { kind: ErrorKind::Setup, description }
    }

    /// The error of a voice that is not fit for an engine.
    pub fn incomplete_voice() -> (error: Error)
        ensures
            error.kind == ErrorKind::IncompleteVoice,
            error.description@
                == "Voice needs exactly one text analysis and one speech generation resource."@,
    {
        Error {
            kind: ErrorKind::IncompleteVoice,
            description: String::from_str(
                "Voice needs exactly one text analysis and one speech generation resource.",
            ),
        }
    }

    /// A failure that the engine reported while it was fed or drained, as
    /// the engine described it.
    pub fn engine(description: String) -> (error: Error)
        ensures
            error.kind == ErrorKind::Engine,
            error.description == description,
    {
        Error { kind: ErrorKind::Engine, description }
    }

    /// The error of an engine that did not keep to the streaming protocol.
    pub fn protocol(breach: ProtocolError) -> (error: Error)
        ensures
            error.kind == ErrorKind::Protocol(breach),
            error.description@ == breach_description(breach),
    {
        let description = match breach {
            ProtocolError::Stalled => String::from_str("Engine accepted no input."),
            ProtocolError::Overrun => String::from_str("Engine reported more data than fits."),
            ProtocolError::Exhausted => String::from_str("Engine did not become idle."),
        };
        Error { kind: ErrorKind::Protocol(breach), description }
    }

    /// The line shown to the user for this error.
    pub fn message(&self) -> (line: String)
        ensures
            line@ == "TTS Pico error: "@ + self.description@,
    {
        String::from_str("TTS Pico error: ").concat(self.description.as_str())
    }
}

/// The description of each breach of the streaming protocol.
pub open spec fn breach_description(breach: ProtocolError) -> Seq<char> {
    match breach {
        ProtocolError::Stalled => "Engine accepted no input."@,
        ProtocolError::Overrun => "Engine reported more data than fits."@,
        ProtocolError::Exhausted => "Engine did not become idle."@,
    }
}

/// Whether an error is that of an engine that took no byte of what it was
/// offered.
pub open spec fn is_stall(error: Error) -> bool {
    error.kind == ErrorKind::Protocol(ProtocolError::Stalled) && error.description@
        == breach_description(ProtocolError::Stalled)
}

/// Whether an error is that of an engine that did not become idle within
/// [`DRAIN_CALL_LIMIT`] calls.
pub open spec fn is_exhaustion(error: Error) -> bool {
    error.kind == ErrorKind::Protocol(ProtocolError::Exhausted) && error.description@
        == breach_description(ProtocolError::Exhausted)
}

/// The failures that a call of [`Synthesiser::generate`] can end in: one
/// that the engine reported, in the engine's words, a stall while the text
/// was fed, or an engine that would not become idle.
pub open spec fn generate_failure(error: Error) -> bool {
    error.kind == ErrorKind::Engine || is_stall(error) || is_exhaustion(error)
}

/// Whether `error` is the error that stands for `outcome`.
pub open spec fn tells(error: Error, outcome: Outcome) -> bool {
    match outcome {
        Outcome::Pcm(_) => false,
        Outcome::EngineFailed => error.kind == ErrorKind::Engine,
        Outcome::Breach(breach) => error.kind == ErrorKind::Protocol(breach) && error.description@
            == breach_description(breach),
    }
}

/// Whether `result` is what a conversation that stands at `stage` gives: the
/// samples of one that ended with an idle engine, the error of one that
/// ended otherwise, and nothing while it has not ended.
pub open spec fn reports(result: Result<Vec<i16>, Error>, stage: Stage) -> bool {
    match stage {
        Stage::Finished(Outcome::Pcm(pcm)) => result is Ok && result->Ok_0@ == pcm,
        Stage::Finished(outcome) => result is Err && tells(result->Err_0, outcome),
        _ => false,
    }
}

/// A synthesiser: one engine, made from a complete voice.
pub struct Synthesiser {
    session: Session,
    voice_name: String,
}

impl View for Synthesiser {
    type V = Seq<char>;

    /// The name of the voice that the engine was made from.
    closed spec fn view(&self) -> Seq<char> {
        self.voice_name@
    }
}

impl Synthesiser {
    /// Every call that the synthesiser has made into its engine, in order.
    pub closed spec fn record(&self) -> Seq<Exchange> {
        self.session.record()
    }

    /// Takes over `engine`, which was created from the voice that `permit`
    /// was given for. No call has been made into it yet.
    pub fn new(permit: EnginePermit, engine: ttspico::Engine) -> (synthesiser: Synthesiser)
        ensures
            synthesiser@ == permit@,
            synthesiser.record() == Seq::<Exchange>::empty(),
    {
        Synthesiser {
            session: Session::new(engine),
            voice_name: String::from_str(permit.voice_name()),
        }
    }

    /// The name of the voice that the engine was made from.
    pub fn voice_name(&self) -> (name: &str)
        ensures
            name@ == self@,
    {
        self.voice_name.as_str()
    }

    /// Feeds `source` to the engine, piece by piece, until the engine has
    /// taken every byte, and then the byte that ends the text.
    ///
    /// Each call offers all that the engine has not taken, and the cursor
    /// moves by what the engine reports. The calls end with the first
    /// failure, or with the engine holding the whole text and its end.
    fn feed(&mut self, source: &[u8]) -> (result: Result<(), Error>)
        ensures
            final(self)@ == old(self)@,
            old(self).record().is_prefix_of(final(self).record()),
            conducted(opening(source@), said_since(old(self).record(), final(self).record())),
            match stage_after(
                opening(source@),
                said_since(old(self).record(), final(self).record()),
            ) {
                Stage::Feeding(_) => false,
                Stage::Draining(drain) => result is Ok && Stage::Draining(drain)
                    == drain_opening(),
                Stage::Finished(outcome) => result is Err && tells(result->Err_0, outcome),
            },
            result matches Err(error) ==> error.kind == ErrorKind::Engine || is_stall(error),
    {
        let mut feed = Feed::new(source);
        while !feed.is_complete()
            invariant
                self@ == old(self)@,
                old(self).record().is_prefix_of(self.record()),
                conducted(opening(source@), said_since(old(self).record(), self.record())),
                stage_after(opening(source@), said_since(old(self).record(), self.record()))
                    == Stage::Feeding(feed@),
                feed@.input == source@,
                feed@.position <= source@.len(),
            decreases source@.len() - feed@.position,
        {
            let ghost said_before = self.record();
            let offer = feed.offer();
            let put = self.session.put_text(offer);
            proof {
                lemma_one_more_call(
                    opening(source@),
                    old(self).record(),
                    said_before,
                    Exchange::Put(offer@, count_answer(put)),
                );
            }
            let n_put = match put {
                Ok(n_put) => n_put,
                Err(error) => {
                    return Err(Error::engine(pico_error_description(error)));
                },
            };
            match feed.advance(n_put) {
                Ok(()) => {},
                Err(breach) => {
                    return Err(Error::protocol(breach));
                },
            }
        }
        let ghost said_before = self.record();
        let flushed = self.session.flush();
        proof {
            lemma_one_more_call(
                opening(source@),
                old(self).record(),
                said_before,
                Exchange::Flush(count_answer(flushed)),
            );
        }
        match flushed {
            Ok(n_put) => match terminator_taken(n_put) {
                Ok(()) => Ok(()),
                Err(breach) => Err(Error::protocol(breach)),
            },
            Err(error) => Err(Error::engine(pico_error_description(error))),
        }
    }

    /// Drains the engine, chunk by chunk, until it reports that it is idle.
    ///
    /// Each call gives the engine room for a whole chunk, and the samples
    /// that it wrote are appended to those collected before. The calls end
    /// with the first report of an idle engine, with the first failure, or
    /// with the call limit.
    fn drain(&mut self) -> (result: Result<Vec<i16>, Error>)
        ensures
            final(self)@ == old(self)@,
            old(self).record().is_prefix_of(final(self).record()),
            conducted(drain_opening(), said_since(old(self).record(), final(self).record())),
            reports(
                result,
                stage_after(drain_opening(), said_since(old(self).record(), final(self).record())),
            ),
            result matches Ok(pcm) ==> pcm@.len() <= DRAIN_CALL_LIMIT * CHUNK_SAMPLES,
            result matches Err(error) ==> error.kind == ErrorKind::Engine || is_exhaustion(
                error,
            ),
    {
        let mut drain = Drain::new(DRAIN_CALL_LIMIT);
        let mut chunk = [0i16;CHUNK_SAMPLES];
        loop
            invariant
                self@ == old(self)@,
                old(self).record().is_prefix_of(self.record()),
                conducted(drain_opening(), said_since(old(self).record(), self.record())),
                stage_after(drain_opening(), said_since(old(self).record(), self.record()))
                    == Stage::Draining(drain@),
                drain@.limit == DRAIN_CALL_LIMIT,
                drain@.calls < drain@.limit,
                drain@.pcm.len() <= drain@.calls * CHUNK_SAMPLES,
            decreases drain@.limit - drain@.calls,
        {
            let ghost said_before = self.record();
            let got = self.session.get_data(&mut chunk);
            proof {
                lemma_one_more_call(
                    drain_opening(),
                    old(self).record(),
                    said_before,
                    Exchange::Get(chunk@, data_answer(got)),
                );
            }
            let (n_written, status) = match got {
                Ok(step) => step,
                Err(error) => {
                    return Err(Error::engine(pico_error_description(error)));
                },
            };
            match drain.absorb(&chunk, n_written, status) {
                Ok(Drained::More(next)) => {
                    drain = next;
                },
                Ok(Drained::Done(pcm)) => {
                    return Ok(pcm);
                },
                Err(breach) => {
                    return Err(Error::protocol(breach));
                },
            }
        }
    }

    /// Synthesises `source`, a UTF-8 text, to mono 16-bit PCM at 16 kHz.
    ///
    /// The whole text and the byte that ends it are fed to the engine before
    /// the first sample is drained, and the engine is drained until it is
    /// idle. Any failure gives up the whole call: no part of the PCM is
    /// handed out.
    ///
    /// The calls into the engine are those that are due, one after the
    /// other, and they end when the conversation has finished. The result
    /// is what the engine's answers come to: all the samples that it wrote
    /// until it was idle, in order, or the error of the call that ended the
    /// conversation.
    pub fn generate(&mut self, source: &[u8]) -> (result: Result<Vec<i16>, Error>)
        ensures
            final(self)@ == old(self)@,
            old(self).record().is_prefix_of(final(self).record()),
            conducted(opening(source@), said_since(old(self).record(), final(self).record())),
            reports(
                result,
                stage_after(opening(source@), said_since(old(self).record(), final(self).record())),
            ),
            result matches Ok(pcm) ==> pcm@.len() <= DRAIN_CALL_LIMIT * CHUNK_SAMPLES,
            result matches Err(error) ==> generate_failure(error),
    {
        match self.feed(source) {
            Ok(()) => {
                let ghost fed = self.record();
                let result = self.drain();
                proof {
                    let first = said_since(old(self).record(), fed);
                    let second = said_since(fed, self.record());
                    assert(said_since(old(self).record(), self.record()) =~= first + second);
                    lemma_conducted_in_two_parts(opening(source@), first, second);
                }
                result
            },
            Err(error) => Err(error),
        }
    }
}

} // verus!
