//! The Pico engine as the library holds it: the engine itself, and beside it
//! the record of every call that was made into it, with what the call handed
//! over and what the engine answered.
//!
//! The record is ghost state. It lets the contracts of the callers say which
//! calls they made and what they did with each answer; it claims nothing of
//! the engine beyond what each call itself returned.

use vstd::prelude::*;
use crate::stream::DrainStatus;

verus! {

/// `ttspico::Engine`, a synthesis session of the Pico engine. What it holds
/// is hidden from the verifier.
#[verifier::external_type_specification]
#[verifier::external_body]
pub struct ExEngine(ttspico::Engine);

/// `ttspico::PicoError`, the failure that a call into the Pico engine
/// reports. What it holds is hidden from the verifier.
#[verifier::external_type_specification]
#[verifier::external_body]
pub struct ExPicoError(ttspico::PicoError);

/// One call into the engine: what it was handed and what it answered. An
/// answer of `None` is a failure that the engine reported.
pub enum Exchange {
    /// Text was offered: the bytes offered, and how many of them the engine
    /// took.
    Put(Seq<u8>, Option<nat>),
    /// The byte that ends a text was offered: how many bytes the engine took.
    Flush(Option<nat>),
    /// Samples were asked for: the chunk as the call left it, how many
    /// samples the engine wrote to its front, and what the engine said of
    /// itself.
    Get(Seq<i16>, Option<(nat, DrainStatus)>),
}

/// The answer that a call for text stands for in the record.
pub open spec fn count_answer(result: Result<usize, ttspico::PicoError>) -> Option<nat> {
    match result {
        Ok(n_put) => Some(n_put as nat),
        Err(_) => None,
    }
}

/// The answer that a call for samples stands for in the record.
pub open spec fn data_answer(result: Result<(usize, DrainStatus), ttspico::PicoError>) -> Option<
    (nat, DrainStatus),
> {
    match result {
        Ok((n_written, status)) => Some((n_written as nat, status)),
        Err(_) => None,
    }
}

/// `ttspico::Engine::put_text`. The engine copies bytes of `text` into its
/// input buffer, from the first on, until the buffer is full or the text has
/// run out, and reports how many it copied: never more than were offered.
#[verifier::external_body]
fn engine_put_text(engine: &mut ttspico::Engine, text: &[u8]) -> (result: Result<
    usize,
    ttspico::PicoError,
>)
    ensures
        result matches Ok(n_put) ==> n_put <= text@.len(),
{
    engine.put_text(text)
}

/// `ttspico::Engine::flush`. The engine is offered the one byte that ends a
/// text and reports whether it took it: one byte or none.
#[verifier::external_body]
fn engine_flush(engine: &mut ttspico::Engine) -> (result: Result<usize, ttspico::PicoError>)
    ensures
        result matches Ok(n_put) ==> n_put <= 1,
{
    engine.flush()
}

/// `ttspico::Engine::get_data`. The engine makes one step, writes the samples
/// that are ready to the front of `chunk`, and reports their number, which
/// is never more than the chunk holds, and whether it is idle. The chunk
/// keeps its length; the slots behind the samples written are not promised
/// to hold anything in particular. The engine counts the chunk's bytes in 16
/// bits, so the chunk is to hold no more than 32767 samples.
#[verifier::external_body]
fn engine_get_data(engine: &mut ttspico::Engine, chunk: &mut [i16]) -> (result: Result<
    (usize, DrainStatus),
    ttspico::PicoError,
>)
    requires
        old(chunk)@.len() <= 32767,
    ensures
        final(chunk)@.len() == old(chunk)@.len(),
        result matches Ok((n_written, _)) ==> n_written <= old(chunk)@.len(),
{
    match engine.get_data(chunk) {
        Ok((n_written, ttspico::EngineStatus::Idle)) => Ok((n_written, DrainStatus::Idle)),
        Ok((n_written, ttspico::EngineStatus::Busy)) => Ok((n_written, DrainStatus::More)),
        Err(error) => Err(error),
    }
}

/// The field `descr` of a `ttspico::PicoError`: the engine's own words for
/// the failure. Nothing is promised of them.
#[verifier::external_body]
pub(crate) fn pico_error_description(error: ttspico::PicoError) -> String {
    error.descr
}

/// An engine and the record of the calls made into it. The record is the
/// library's own bookkeeping: each of the three calls below notes itself,
/// and nothing else writes to it.
pub struct Session {
    engine: ttspico::Engine,
    record: Ghost<Seq<Exchange>>,
}

impl Session {
    /// Every call that was made into the engine since the session began, in
    /// order.
    pub closed spec fn record(&self) -> Seq<Exchange> {
        self.record@
    }

    /// Begins a session with `engine`; no call has been made yet.
    pub(crate) fn new(engine: ttspico::Engine) -> (session: Session)
        ensures
            session.record() == Seq::<Exchange>::empty(),
    {
        Session { engine, record: Ghost(Seq::empty()) }
    }

    /// Offers `text` to the engine, which reports how many of its bytes it
    /// took, from the first on, and notes the call.
    pub(crate) fn put_text(&mut self, text: &[u8]) -> (result: Result<usize, ttspico::PicoError>)
        ensures
            result matches Ok(n_put) ==> n_put <= text@.len(),
            final(self).record() == old(self).record().push(
                Exchange::Put(text@, count_answer(result)),
            ),
    {
        let result = engine_put_text(&mut self.engine, text);
        self.record = Ghost(self.record@.push(Exchange::Put(text@, count_answer(result))));
        result
    }

    /// Offers the engine the byte that ends a text, and notes the call.
    pub(crate) fn flush(&mut self) -> (result: Result<usize, ttspico::PicoError>)
        ensures
            result matches Ok(n_put) ==> n_put <= 1,
            final(self).record() == old(self).record().push(
                Exchange::Flush(count_answer(result)),
            ),
    {
        let result = engine_flush(&mut self.engine);
        self.record = Ghost(self.record@.push(Exchange::Flush(count_answer(result))));
        result
    }

    /// Asks the engine for samples, which it writes to the front of
    /// `chunk`, and notes the call with the chunk as the engine left it.
    pub(crate) fn get_data(&mut self, chunk: &mut [i16]) -> (result: Result<
        (usize, DrainStatus),
        ttspico::PicoError,
    >)
        requires
            old(chunk)@.len() <= 32767,
        ensures
            final(chunk)@.len() == old(chunk)@.len(),
            result matches Ok((n_written, _)) ==> n_written <= old(chunk)@.len(),
            final(self).record() == old(self).record().push(
                Exchange::Get(final(chunk)@, data_answer(result)),
            ),
    {
        let result = engine_get_data(&mut self.engine, chunk);
        self.record = Ghost(self.record@.push(Exchange::Get(chunk@, data_answer(result))));
        result
    }
}

} // verus!
