//! The streaming protocol of a synthesis engine, seen from the caller: text
//! is fed in pieces of which the engine takes as much as it likes, and PCM is
//! drained in chunks until the engine reports that it is idle.

use vstd::prelude::*;

verus! {

/// A breach of the streaming protocol, found by the caller's bookkeeping.
#[derive(Clone, Copy, Debug, PartialEq, Eq, Structural)]
pub enum ProtocolError {
    /// The engine took none of the bytes it was offered.
    Stalled,
    /// The engine reported more data than it was offered room for.
    Overrun,
    /// The engine did not become idle within the allowed number of calls.
    Exhausted,
}

/// The mathematical view of a [`Feed`].
pub struct FeedView {
    /// The whole input.
    pub input: Seq<u8>,
    /// Number of bytes of the input that the engine has taken.
    pub position: nat,
}

impl FeedView {
    /// The bytes that the engine has not taken yet.
    pub open spec fn offer(self) -> Seq<u8> {
        self.input.subrange(self.position as int, self.input.len() as int)
    }

    /// Whether the engine has taken the whole input.
    pub open spec fn complete(self) -> bool {
        self.position == self.input.len()
    }

    /// Whether a report of `n_consumed` bytes stays within the last offer.
    pub open spec fn fits(self, n_consumed: nat) -> bool {
        self.position + n_consumed <= self.input.len()
    }

    /// The feed after the engine reported `n_consumed` bytes: the cursor moves
    /// by exactly that many, and a report that overruns the offer moves
    /// nothing.
    pub open spec fn step(self, n_consumed: nat) -> FeedView {
        if self.fits(n_consumed) {
            FeedView { input: self.input, position: self.position + n_consumed }
        } else {
            self
        }
    }

    /// The bytes that a report of `n_consumed` accounts for.
    pub open spec fn piece(self, n_consumed: nat) -> Seq<u8> {
        if self.fits(n_consumed) {
            self.input.subrange(self.position as int, (self.position + n_consumed) as int)
        } else {
            Seq::empty()
        }
    }
}

/// The feeding phase over one input: a cursor that moves by what the engine
/// reports, never past the end of the input.
pub struct Feed<'a> {
    input: &'a [u8],
    position: usize,
}

impl<'a> View for Feed<'a> {
    type V = FeedView;

    closed spec fn view(&self) -> FeedView {
        FeedView { input: self.input@, position: self.position as nat }
    }
}

impl<'a> Feed<'a> {
    #[verifier::type_invariant]
    spec fn cursor_in_input(self) -> bool {
        self.position <= self.input@.len()
    }

    /// Starts feeding `input` at its first byte.
    pub fn new(input: &'a [u8]) -> (feed: Feed<'a>)
        ensures
            feed@ == (FeedView { input: input@, position: 0 }),
    {
        Feed { input, position: 0 }
    }

    /// Number of bytes that the engine has taken so far.
    pub fn position(&self) -> (position: usize)
        ensures
            position == self@.position,
            self@.position <= self@.input.len(),
    {
        proof {
            use_type_invariant(self);
        }
        self.position
    }

    /// Whether the engine has taken the whole input.
    pub fn is_complete(&self) -> (complete: bool)
        ensures
            complete == self@.complete(),
    {
        self.position == self.input.len()
    }

    /// The bytes to offer to the engine next: all that it has not taken.
    pub fn offer(&self) -> (rest: &'a [u8])
        ensures
            rest@ == self@.offer(),
            self@.position <= self@.input.len(),
    {
        proof {
            use_type_invariant(self);
        }
        vstd::slice::slice_subrange(self.input, self.position, self.input.len())
    }

    /// Records that the engine took `n_consumed` bytes of the last offer and
    /// moves the cursor by exactly that many. A report of no bytes is a
    /// stall, a report of more bytes than were offered is an overrun; neither
    /// moves the cursor.
    pub fn advance(&mut self, n_consumed: usize) -> (result: Result<(), ProtocolError>)
        ensures
            final(self)@ == old(self)@.step(n_consumed as nat),
            n_consumed == 0 ==> result == Err::<(), ProtocolError>(ProtocolError::Stalled),
            n_consumed > 0 && !old(self)@.fits(n_consumed as nat) ==> result == Err::<
                (),
                ProtocolError,
            >(ProtocolError::Overrun),
            n_consumed > 0 && old(self)@.fits(n_consumed as nat) ==> result is Ok,
    {
        proof {
            use_type_invariant(&*self);
        }
        if n_consumed == 0 {
            Err(ProtocolError::Stalled)
        } else if n_consumed > self.input.len() - self.position {
            Err(ProtocolError::Overrun)
        } else {
            self.position = self.position + n_consumed;
            Ok(())
        }
    }
}

/// Judges the engine's answer to the one byte that ends a text: an engine
/// that took it has the whole text, an engine that took nothing has stalled.
pub fn terminator_taken(n_put: usize) -> (result: Result<(), ProtocolError>)
    ensures
        n_put == 0 ==> result == Err::<(), ProtocolError>(ProtocolError::Stalled),
        n_put > 0 ==> result is Ok,
{
    if n_put == 0 {
        Err(ProtocolError::Stalled)
    } else {
        Ok(())
    }
}

/// The feed after the engine's reports `counts`, taken in order.
pub open spec fn feed_run(feed: FeedView, counts: Seq<nat>) -> FeedView
    decreases counts.len(),
{
    if counts.len() == 0 {
        feed
    } else {
        feed_run(feed, counts.drop_last()).step(counts.last())
    }
}

/// Whether each of the reports `counts` stays within the offer it answers.
pub open spec fn reports_fit(feed: FeedView, counts: Seq<nat>) -> bool
    decreases counts.len(),
{
    counts.len() == 0 || (reports_fit(feed, counts.drop_last()) && feed_run(
        feed,
        counts.drop_last(),
    ).fits(counts.last()))
}

/// The pieces of input that the reports `counts` account for, one after the
/// other.
pub open spec fn consumed(feed: FeedView, counts: Seq<nat>) -> Seq<u8>
    decreases counts.len(),
{
    if counts.len() == 0 {
        Seq::empty()
    } else {
        consumed(feed, counts.drop_last()) + feed_run(feed, counts.drop_last()).piece(
            counts.last(),
        )
    }
}

/// The sum of the reports `counts`.
pub open spec fn reported(counts: Seq<nat>) -> nat
    decreases counts.len(),
{
    if counts.len() == 0 {
        0
    } else {
        reported(counts.drop_last()) + counts.last()
    }
}

/// However the engine splits the input over its calls, the cursor stands at
/// the sum of the reported counts, and the pieces taken, put together, are
/// the stretch of input between where the feed stood and where it stands: no
/// byte is lost and none is offered again after it was taken.
pub proof fn lemma_feed_conserves_input(feed: FeedView, counts: Seq<nat>)
    requires
        feed.position <= feed.input.len(),
        reports_fit(feed, counts),
    ensures
        feed_run(feed, counts).input == feed.input,
        feed_run(feed, counts).position == feed.position + reported(counts),
        feed_run(feed, counts).position <= feed.input.len(),
        consumed(feed, counts) == feed.input.subrange(
            feed.position as int,
            feed_run(feed, counts).position as int,
        ),
    decreases counts.len(),
{
    if counts.len() == 0 {
        assert(consumed(feed, counts) =~= feed.input.subrange(
            feed.position as int,
            feed.position as int,
        ));
    } else {
        let earlier = counts.drop_last();
        lemma_feed_conserves_input(feed, earlier);
        let before = feed_run(feed, earlier);
        let after = before.step(counts.last());
        assert(consumed(feed, counts) =~= feed.input.subrange(
            feed.position as int,
            after.position as int,
        ));
    }
}

/// A feed that started at the first byte and is complete has been told of
/// exactly as many bytes as the input holds, and the pieces taken are the
/// input itself.
pub proof fn lemma_complete_feed_took_whole_input(input: Seq<u8>, counts: Seq<nat>)
    requires
        reports_fit(FeedView { input, position: 0 }, counts),
        feed_run(FeedView { input, position: 0 }, counts).complete(),
    ensures
        reported(counts) == input.len(),
        consumed(FeedView { input, position: 0 }, counts) == input,
{
    let start = FeedView { input, position: 0 };
    lemma_feed_conserves_input(start, counts);
    assert(input.subrange(0, input.len() as int) =~= input);
}

/// What the engine says of itself at the end of a drain call.
#[derive(Clone, Copy, Debug, PartialEq, Eq, Structural)]
pub enum DrainStatus {
    /// Further samples may follow; the call may have written none.
    More,
    /// Synthesis of the submitted text is complete.
    Idle,
}

/// The mathematical view of a [`Drain`].
pub struct DrainView {
    /// The samples collected so far.
    pub pcm: Seq<i16>,
    /// Number of drain calls that were absorbed.
    pub calls: nat,
    /// Number of drain calls within which the engine has to become idle.
    pub limit: nat,
}

/// Where a draining phase stands.
pub enum DrainState {
    /// The engine has more to say.
    Draining(DrainView),
    /// The engine is idle; these are all its samples.
    Done(Seq<i16>),
    /// The phase was given up; no samples are handed out.
    Failed(ProtocolError),
}

impl DrainView {
    /// A drain before its first call.
    pub open spec fn fresh(limit: nat) -> DrainView {
        DrainView { pcm: Seq::empty(), calls: 0, limit }
    }

    /// The drain after one call that left `n_written` samples at the front of
    /// `chunk` and reported `status`. The valid prefix of the chunk is
    /// appended, also when it is empty. An idle engine ends the phase; an
    /// engine that wants more calls than the limit allows, or that claims to
    /// have written more than the chunk holds, fails it.
    pub open spec fn step(self, chunk: Seq<i16>, n_written: nat, status: DrainStatus) -> DrainState {
        if n_written > chunk.len() {
            DrainState::Failed(ProtocolError::Overrun)
        } else {
            let pcm = self.pcm + chunk.subrange(0, n_written as int);
            match status {
                DrainStatus::Idle => DrainState::Done(pcm),
                DrainStatus::More => if self.calls + 1 >= self.limit {
                    DrainState::Failed(ProtocolError::Exhausted)
                } else {
                    DrainState::Draining(
                        DrainView { pcm, calls: self.calls + 1, limit: self.limit },
                    )
                },
            }
        }
    }
}

/// The draining phase of one utterance: the samples collected so far and the
/// count of calls made, which is held against a limit.
pub struct Drain {
    pcm: Vec<i16>,
    calls: usize,
    limit: usize,
}

/// What a drain call leaves behind when it did not fail.
pub enum Drained {
    /// The engine has more to say: drain again.
    More(Drain),
    /// The engine is idle: the utterance is complete.
    Done(Vec<i16>),
}

impl View for Drain {
    type V = DrainView;

    closed spec fn view(&self) -> DrainView {
        DrainView { pcm: self.pcm@, calls: self.calls as nat, limit: self.limit as nat }
    }
}

impl Drain {
    #[verifier::type_invariant]
    spec fn calls_within_limit(self) -> bool {
        self.calls == 0 || self.calls < self.limit
    }

    /// Starts a draining phase in which the engine has to become idle within
    /// `limit` calls.
    pub fn new(limit: usize) -> (drain: Drain)
        ensures
            drain@ == DrainView::fresh(limit as nat),
    {
        Drain { pcm: Vec::new(), calls: 0, limit }
    }

    /// Number of drain calls that may still be answered with
    /// [`DrainStatus::More`] before the phase is given up.
    pub fn calls_left(&self) -> (left: usize)
        ensures
            self@.calls == 0 || self@.calls < self@.limit,
            left == self@.limit - self@.calls,
    {
        proof {
            use_type_invariant(self);
        }
        self.limit - self.calls
    }

    /// Takes in the result of one drain call: the engine left `n_written`
    /// samples at the front of `chunk` and reported `status`.
    pub fn absorb(self, chunk: &[i16], n_written: usize, status: DrainStatus) -> (result: Result<
        Drained,
        ProtocolError,
    >)
        ensures
            match self@.step(chunk@, n_written as nat, status) {
                DrainState::Draining(next) => result matches Ok(Drained::More(drain))
                    && drain@ == next,
                DrainState::Done(all) => result matches Ok(Drained::Done(pcm)) && pcm@ == all,
                DrainState::Failed(error) => result == Err::<Drained, ProtocolError>(error),
            },
    {
        proof {
            use_type_invariant(&self);
        }
        if n_written > chunk.len() {
            return Err(ProtocolError::Overrun);
        }
        let Drain { pcm, calls, limit } = self;
        let mut pcm = pcm;
        let mut i: usize = 0;
        while i < n_written
            invariant
                i <= n_written <= chunk@.len(),
                pcm@ == self.pcm@ + chunk@.subrange(0, i as int),
            decreases n_written - i,
        {
            pcm.push(chunk[i]);
            i = i + 1;
        }
        match status {
            DrainStatus::Idle => Ok(Drained::Done(pcm)),
            DrainStatus::More => {
                if limit - calls <= 1 {
                    Err(ProtocolError::Exhausted)
                } else {
                    Ok(Drained::More(Drain { pcm, calls: calls + 1, limit }))
                }
            },
        }
    }
}

/// What one drain call brought back.
pub struct DrainEvent {
    /// The chunk buffer after the call.
    pub chunk: Seq<i16>,
    /// Number of samples that the engine says it wrote to the chunk.
    pub n_written: nat,
    /// What the engine said of itself.
    pub status: DrainStatus,
}

impl DrainEvent {
    /// The samples that the call produced: the valid prefix of the chunk.
    pub open spec fn samples(self) -> Seq<i16> {
        if self.n_written <= self.chunk.len() {
            self.chunk.subrange(0, self.n_written as int)
        } else {
            Seq::empty()
        }
    }
}

/// Where a draining phase that stood at `start` stands after the calls
/// `events`. A phase that has ended takes no further notice of the engine.
pub open spec fn drain_run(start: DrainState, events: Seq<DrainEvent>) -> DrainState
    decreases events.len(),
{
    if events.len() == 0 {
        start
    } else {
        match drain_run(start, events.drop_last()) {
            DrainState::Draining(drain) => drain.step(
                events.last().chunk,
                events.last().n_written,
                events.last().status,
            ),
            ended => ended,
        }
    }
}

/// The samples of all the calls `events`, one after the other.
pub open spec fn produced(events: Seq<DrainEvent>) -> Seq<i16>
    decreases events.len(),
{
    if events.len() == 0 {
        Seq::empty()
    } else {
        produced(events.drop_last()) + events.last().samples()
    }
}

/// The number of samples that the calls `events` produced between them.
pub open spec fn written(events: Seq<DrainEvent>) -> nat
    decreases events.len(),
{
    if events.len() == 0 {
        0
    } else {
        written(events.drop_last()) + events.last().samples().len()
    }
}

/// A fresh draining phase before its first call.
pub open spec fn drain_start(limit: nat) -> DrainState {
    DrainState::Draining(DrainView::fresh(limit))
}

/// While a phase is still draining it has counted every call, stayed below
/// its limit, and kept every sample that the calls produced, in order.
pub proof fn lemma_draining_keeps_every_sample(limit: nat, events: Seq<DrainEvent>)
    requires
        drain_run(drain_start(limit), events) is Draining,
    ensures
        drain_run(drain_start(limit), events)->Draining_0.pcm == produced(events),
        drain_run(drain_start(limit), events)->Draining_0.calls == events.len(),
        drain_run(drain_start(limit), events)->Draining_0.limit == limit,
        events.len() == 0 || events.len() < limit,
    decreases events.len(),
{
    if events.len() > 0 {
        lemma_draining_keeps_every_sample(limit, events.drop_last());
    }
}

/// A phase that ends with an idle engine hands out exactly the samples that
/// its calls produced, the last call included.
pub proof fn lemma_done_holds_every_sample(limit: nat, events: Seq<DrainEvent>)
    requires
        events.len() > 0,
        drain_run(drain_start(limit), events.drop_last()) is Draining,
        drain_run(drain_start(limit), events) is Done,
    ensures
        drain_run(drain_start(limit), events)->Done_0 == produced(events),
        events.last().status == DrainStatus::Idle,
{
    lemma_draining_keeps_every_sample(limit, events.drop_last());
}

/// The collected PCM is as long as the calls wrote samples, all told: it is
/// empty only if no call wrote any.
pub proof fn lemma_produced_counts_every_sample(events: Seq<DrainEvent>)
    ensures
        produced(events).len() == written(events),
        forall|i: int|
            0 <= i < events.len() ==> (#[trigger] events[i]).samples().len() <= written(events),
    decreases events.len(),
{
    if events.len() > 0 {
        let earlier = events.drop_last();
        lemma_produced_counts_every_sample(earlier);
        assert forall|i: int| 0 <= i < events.len() implies (#[trigger] events[i]).samples().len()
            <= written(events) by {
            if i < earlier.len() {
                assert(events[i] == earlier[i]);
            }
        }
    }
}

/// No engine keeps a phase draining for ever: after as many calls as the
/// limit allows (and after the first call, whatever the limit) the phase has
/// ended, with an idle engine or with a failure.
pub proof fn lemma_drain_ends_within_limit(limit: nat, events: Seq<DrainEvent>)
    requires
        events.len() >= 1,
        events.len() >= limit,
    ensures
        !(drain_run(drain_start(limit), events) is Draining),
{
    if drain_run(drain_start(limit), events) is Draining {
        lemma_draining_keeps_every_sample(limit, events);
    }
}

} // verus!
