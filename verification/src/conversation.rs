//! The conversation that the synthesiser holds with its engine about one
//! text: which call is due at each stage, where each answer leads, and what
//! a conversation that was held by these rules has done with the text and
//! with the samples.

use vstd::prelude::*;
use crate::engine::Exchange;
use crate::stream::{DrainState, DrainStatus, DrainView, FeedView, ProtocolError};
use crate::synthesiser::{CHUNK_SAMPLES, DRAIN_CALL_LIMIT};

verus! {

/// How a conversation with the engine ended.
pub enum Outcome {
    /// The engine became idle; these are all the samples it wrote.
    Pcm(Seq<i16>),
    /// The engine reported a failure.
    EngineFailed,
    /// The engine did not keep to the streaming protocol.
    Breach(ProtocolError),
}

/// Where the conversation about one text stands.
pub enum Stage {
    /// Text, or the byte that ends it, is still to be offered.
    Feeding(FeedView),
    /// The engine has the whole text and is asked for samples.
    Draining(DrainView),
    /// Nothing more is said.
    Finished(Outcome),
}

/// The conversation about `source` before the first call.
pub open spec fn opening(source: Seq<u8>) -> Stage {
    Stage::Feeding(FeedView { input: source, position: 0 })
}

/// The stage at which the engine has just taken the whole text.
pub open spec fn drain_opening() -> Stage {
    Stage::Draining(DrainView::fresh(DRAIN_CALL_LIMIT as nat))
}

/// Whether `exchange` is the call that is due at `stage`: all the text that
/// the engine has not taken while there is any, then the byte that ends the
/// text, then calls for samples with room for a whole chunk; and no call at
/// all once the conversation has finished.
pub open spec fn due(stage: Stage, exchange: Exchange) -> bool {
    match stage {
        Stage::Feeding(feed) => if feed.complete() {
            exchange is Flush
        } else {
            exchange is Put && exchange->Put_0 == feed.offer()
        },
        Stage::Draining(_) => exchange is Get && exchange->Get_0.len() == CHUNK_SAMPLES,
        Stage::Finished(_) => false,
    }
}

/// The stage that follows `stage` when the call that was due was answered as
/// `exchange` says.
pub open spec fn next_stage(stage: Stage, exchange: Exchange) -> Stage {
    match stage {
        Stage::Feeding(feed) => match exchange {
            Exchange::Put(_, Some(n_put)) => if n_put == 0 {
                Stage::Finished(Outcome::Breach(ProtocolError::Stalled))
            } else if !feed.fits(n_put) {
                Stage::Finished(Outcome::Breach(ProtocolError::Overrun))
            } else {
                Stage::Feeding(feed.step(n_put))
            },
            Exchange::Flush(Some(n_put)) => if n_put == 0 {
                Stage::Finished(Outcome::Breach(ProtocolError::Stalled))
            } else {
                drain_opening()
            },
            Exchange::Get(_, Some(_)) => stage,
            _ => Stage::Finished(Outcome::EngineFailed),
        },
        Stage::Draining(drain) => match exchange {
            Exchange::Get(chunk, Some((n_written, status))) => match drain.step(
                chunk,
                n_written,
                status,
            ) {
                DrainState::Draining(next) => Stage::Draining(next),
                DrainState::Done(pcm) => Stage::Finished(Outcome::Pcm(pcm)),
                DrainState::Failed(breach) => Stage::Finished(Outcome::Breach(breach)),
            },
            Exchange::Get(_, None) => Stage::Finished(Outcome::EngineFailed),
            _ => stage,
        },
        Stage::Finished(_) => stage,
    }
}

/// The stage that the calls `calls` lead to from `stage`.
pub open spec fn stage_after(stage: Stage, calls: Seq<Exchange>) -> Stage
    decreases calls.len(),
{
    if calls.len() == 0 {
        stage
    } else {
        next_stage(stage_after(stage, calls.drop_last()), calls.last())
    }
}

/// Whether each of the calls `calls` was the one that was due when it was
/// made, from `stage` on.
pub open spec fn conducted(stage: Stage, calls: Seq<Exchange>) -> bool
    decreases calls.len(),
{
    calls.len() == 0 || (conducted(stage, calls.drop_last()) && due(
        stage_after(stage, calls.drop_last()),
        calls.last(),
    ))
}

/// The calls that `now` holds beyond `before`.
pub open spec fn said_since(before: Seq<Exchange>, now: Seq<Exchange>) -> Seq<Exchange> {
    now.skip(before.len() as int)
}

/// One more call extends what was said by that call, and the stage moves by
/// that call alone.
pub proof fn lemma_one_more_call(
    stage: Stage,
    before: Seq<Exchange>,
    now: Seq<Exchange>,
    exchange: Exchange,
)
    requires
        before.is_prefix_of(now),
    ensures
        before.is_prefix_of(now.push(exchange)),
        said_since(before, now.push(exchange)) == said_since(before, now).push(exchange),
        stage_after(stage, said_since(before, now.push(exchange))) == next_stage(
            stage_after(stage, said_since(before, now)),
            exchange,
        ),
        conducted(stage, said_since(before, now.push(exchange))) == (conducted(
            stage,
            said_since(before, now),
        ) && due(stage_after(stage, said_since(before, now)), exchange)),
{
    let said = said_since(before, now);
    let longer = said_since(before, now.push(exchange));
    assert(longer =~= said.push(exchange));
    assert(longer.drop_last() =~= said);
    assert(longer.last() == exchange);
}

/// A conversation may be read in two parts: the stage after both is the
/// stage that the second part leads to from where the first part ended, and
/// the whole was conducted exactly when both parts were.
pub proof fn lemma_conducted_in_two_parts(stage: Stage, first: Seq<Exchange>, second: Seq<Exchange>)
    ensures
        stage_after(stage, first + second) == stage_after(stage_after(stage, first), second),
        conducted(stage, first + second) == (conducted(stage, first) && conducted(
            stage_after(stage, first),
            second,
        )),
    decreases second.len(),
{
    if second.len() == 0 {
        assert(first + second =~= first);
    } else {
        lemma_conducted_in_two_parts(stage, first, second.drop_last());
        assert((first + second).drop_last() =~= first + second.drop_last());
        assert((first + second).last() == second.last());
    }
}

/// The bytes of text that the engine took in the calls `calls`, all told.
pub open spec fn bytes_taken(calls: Seq<Exchange>) -> nat
    decreases calls.len(),
{
    if calls.len() == 0 {
        0
    } else {
        bytes_taken(calls.drop_last()) + match calls.last() {
            Exchange::Put(_, Some(n_put)) => n_put,
            _ => 0,
        }
    }
}

/// The samples that the engine wrote in the calls `calls`, one call's after
/// the other's: of each chunk the front that the engine said it wrote.
pub open spec fn samples_written(calls: Seq<Exchange>) -> Seq<i16>
    decreases calls.len(),
{
    if calls.len() == 0 {
        Seq::empty()
    } else {
        samples_written(calls.drop_last()) + match calls.last() {
            Exchange::Get(chunk, Some((n_written, _))) => if n_written <= chunk.len() {
                chunk.subrange(0, n_written as int)
            } else {
                Seq::empty()
            },
            _ => Seq::empty(),
        }
    }
}

/// The number of calls for samples among `calls`.
pub open spec fn calls_for_samples(calls: Seq<Exchange>) -> nat
    decreases calls.len(),
{
    if calls.len() == 0 {
        0
    } else {
        calls_for_samples(calls.drop_last()) + if calls.last() is Get {
            1nat
        } else {
            0nat
        }
    }
}

/// What a conversation about `source` has done when it stands at a stage.
///
/// While text is fed, the cursor stands at the number of bytes that the
/// engine took, and no samples were asked for. Once samples are drained,
/// the engine took as many bytes as the text holds, the samples collected
/// are all that the engine wrote, in order, and the calls for samples were
/// counted and are fewer than the limit. A conversation that ended with PCM
/// hands out all the samples that the engine wrote, and its last call was a
/// call for samples that the engine answered as idle. At no stage were more
/// calls for samples made than the limit allows.
pub proof fn lemma_conversation_accounts(source: Seq<u8>, calls: Seq<Exchange>)
    requires
        conducted(opening(source), calls),
    ensures
        calls_for_samples(calls) <= DRAIN_CALL_LIMIT,
        match stage_after(opening(source), calls) {
            Stage::Feeding(feed) => feed.input == source && feed.position == bytes_taken(calls)
                && feed.position <= source.len() && calls_for_samples(calls) == 0
                && samples_written(calls) == Seq::<i16>::empty(),
            Stage::Draining(drain) => bytes_taken(calls) == source.len() && drain.pcm
                == samples_written(calls) && drain.calls == calls_for_samples(calls)
                && drain.limit == DRAIN_CALL_LIMIT && drain.calls < drain.limit,
            Stage::Finished(Outcome::Pcm(pcm)) => bytes_taken(calls) == source.len() && pcm
                == samples_written(calls) && calls_for_samples(calls) >= 1 && calls.len() > 0
                && calls.last() is Get && calls.last()->Get_1 is Some
                && calls.last()->Get_1->Some_0.1 == DrainStatus::Idle,
            Stage::Finished(_) => calls.len() > 0,
        },
    decreases calls.len(),
{
    if calls.len() > 0 {
        lemma_conversation_accounts(source, calls.drop_last());
    }
}

/// Every call that was made found the conversation unfinished: once the
/// engine is idle, or a call has failed, no further call is made.
pub proof fn lemma_no_call_after_the_end(stage: Stage, calls: Seq<Exchange>, i: int)
    requires
        conducted(stage, calls),
        0 <= i < calls.len(),
    ensures
        conducted(stage, calls.take(i)),
        conducted(stage, calls.take(i + 1)),
        due(stage_after(stage, calls.take(i)), calls[i]),
        !(stage_after(stage, calls.take(i)) is Finished),
{
    let upto = calls.take(i + 1);
    assert(calls =~= upto + calls.skip(i + 1));
    lemma_conducted_in_two_parts(stage, upto, calls.skip(i + 1));
    assert(upto.drop_last() =~= calls.take(i));
    assert(upto.last() == calls[i]);
}

/// Every offer of text was all that the engine had not yet taken: the text
/// from the byte on that follows the bytes taken in the calls before.
pub proof fn lemma_offer_is_what_is_left(source: Seq<u8>, calls: Seq<Exchange>, i: int)
    requires
        conducted(opening(source), calls),
        0 <= i < calls.len(),
        calls[i] is Put,
    ensures
        bytes_taken(calls.take(i)) < source.len(),
        calls[i]->Put_0 == source.subrange(
            bytes_taken(calls.take(i)) as int,
            source.len() as int,
        ),
{
    lemma_no_call_after_the_end(opening(source), calls, i);
    lemma_conversation_accounts(source, calls.take(i));
}

} // verus!
