//! The audio output bridge: a finished PCM buffer is handed to the audio
//! device slice by slice, and silence takes over once the buffer has run out.

use vstd::prelude::*;

verus! {

/// Number of channels of the output stream.
pub const CHANNELS: u16 = 1;

/// Sample rate of the output stream, in Hz.
pub const SAMPLE_RATE: u32 = 16_000;

/// How long a stream is kept alive for one utterance, in milliseconds.
pub const PLAYBACK_WINDOW_MILLIS: u64 = 5_000;

/// The sample that stands for silence.
pub const SILENCE: i16 = 0;

/// Why audio output failed.
#[derive(Clone, Copy, Debug, PartialEq, Eq, Structural)]
pub enum ErrorKind {
    /// The host has no default output device.
    NoDevice,
    /// The device refused to build or to start the stream.
    StreamBuild,
}

/// A failure of the audio output, fatal to the one call that met it.
#[derive(Debug)]
pub struct Error {
    pub kind: ErrorKind,
    pub description: String,
}

impl Error {
    /// The error of a host without a default output device.
    pub fn no_device() -> (error: Error)
        ensures
            error.kind == ErrorKind::NoDevice,
            error.description@ == "Unable to find audio output device."@,
    {
        Error {
            kind: ErrorKind::NoDevice,
            description: String::from_str("Unable to find audio output device."),
        }
    }

    /// The error of a stream that the device did not build or start;
    /// `description` is what the device reported.
    pub fn stream_build(description: String) -> (error: Error)
        ensures
            error.kind == ErrorKind::StreamBuild,
            error.description == description,
    {
        Error { kind: ErrorKind::StreamBuild, description }
    }

    /// The line shown to the user for this error: the library's own
    /// description behind its prefix, the device's words as they are.
    pub open spec fn line(&self) -> Seq<char> {
        match self.kind {
            ErrorKind::NoDevice => "TTS Pico error: "@ + self.description@,
            ErrorKind::StreamBuild => self.description@,
        }
    }

    /// The line shown to the user for this error.
    pub fn message(&self) -> (line: String)
        ensures
            line@ == self.line(),
    {
        match self.kind {
            ErrorKind::NoDevice => String::from_str("TTS Pico error: ").concat(
                self.description.as_str(),
            ),
            ErrorKind::StreamBuild => self.description.clone(),
        }
    }
}

/// The fixed format of the output stream. The buffer size is left to the
/// device's default.
#[derive(Clone, Copy, Debug, PartialEq, Eq, Structural)]
pub struct StreamConfig {
    pub channels: u16,
    pub sample_rate: u32,
}

/// The stream format that every output uses: mono, 16 kHz.
pub open spec fn fixed_config() -> StreamConfig {
    StreamConfig { channels: CHANNELS, sample_rate: SAMPLE_RATE }
}

/// An audio output that was found ready: it knows the format in which the
/// device is to be opened and turns a PCM buffer into a [`Playback`].
pub struct Output {
    config: StreamConfig,
}

impl View for Output {
    type V = StreamConfig;

    closed spec fn view(&self) -> StreamConfig {
        self.config
    }
}

impl Output {
    /// Sets up the output for the host's default device. `device_found` says
    /// whether the host has one; without a device there is no output.
    pub fn new(device_found: bool) -> (result: Result<Output, Error>)
        ensures
            device_found ==> result is Ok && result->Ok_0@ == fixed_config(),
            !device_found ==> result is Err && result->Err_0.kind == ErrorKind::NoDevice
                && result->Err_0.description@ == "Unable to find audio output device."@,
    {
        if device_found {
            Ok(Output { config: StreamConfig { channels: CHANNELS, sample_rate: SAMPLE_RATE } })
        } else {
            Err(Error::no_device())
        }
    }

    /// The format in which the device's stream is to be opened.
    pub fn config(&self) -> (config: StreamConfig)
        ensures
            config == self@,
    {
        self.config
    }

    /// How long the stream of one utterance is to be kept alive, in
    /// milliseconds.
    pub fn playback_window_millis(&self) -> (millis: u64)
        ensures
            millis == PLAYBACK_WINDOW_MILLIS,
    {
        PLAYBACK_WINDOW_MILLIS
    }

    /// Takes over `source` for playback: the returned [`Playback`] stands at
    /// the first sample and serves the device's requests from there.
    pub fn play(&self, source: Vec<i16>) -> (playback: Playback)
        ensures
            playback@.samples == source@,
            playback@.cursor == 0,
    {
        Playback::new(source)
    }
}

/// The sample that slot `i` of a device slice receives when playback stands at
/// `cursor`: the next unread sample, or silence past the end of the buffer.
pub open spec fn slot_sample(samples: Seq<i16>, cursor: nat, i: int) -> i16 {
    if cursor + i < samples.len() {
        samples[cursor + i]
    } else {
        SILENCE
    }
}

/// What a device slice of `n` slots holds after it was filled from `cursor`.
pub open spec fn delivered(samples: Seq<i16>, cursor: nat, n: nat) -> Seq<i16> {
    Seq::new(n, |i: int| slot_sample(samples, cursor, i))
}

/// Where the cursor stands after `n` slots were filled from `cursor`.
pub open spec fn advanced(samples: Seq<i16>, cursor: nat, n: nat) -> nat {
    if cursor + n < samples.len() {
        cursor + n
    } else if cursor < samples.len() {
        samples.len()
    } else {
        cursor
    }
}

/// The mathematical view of a [`Playback`].
pub struct PlaybackView {
    /// The whole buffer that is being played.
    pub samples: Seq<i16>,
    /// Number of samples that were handed to the device so far.
    pub cursor: nat,
}

/// One utterance on its way to the device: the synthesised buffer and a read
/// cursor. The buffer itself never changes; only the cursor moves.
pub struct Playback {
    samples: Vec<i16>,
    cursor: usize,
}

impl View for Playback {
    type V = PlaybackView;

    closed spec fn view(&self) -> PlaybackView {
        PlaybackView { samples: self.samples@, cursor: self.cursor as nat }
    }
}

impl Playback {
    #[verifier::type_invariant]
    spec fn cursor_in_buffer(self) -> bool {
        self.cursor <= self.samples.len()
    }

    /// Starts playback of `samples` at its first sample.
    pub fn new(samples: Vec<i16>) -> (playback: Playback)
        ensures
            playback@.samples == samples@,
            playback@.cursor == 0,
    {
        Playback { samples, cursor: 0 }
    }

    /// Number of samples that the device has not been given yet.
    pub fn remaining(&self) -> (n: usize)
        ensures
            self@.cursor <= self@.samples.len(),
            n == self@.samples.len() - self@.cursor,
    {
        proof {
            use_type_invariant(self);
        }
        self.samples.len() - self.cursor
    }

    /// Hands out the next sample, or silence once the buffer is exhausted.
    pub fn next_sample(&mut self) -> (sample: i16)
        ensures
            sample == slot_sample(old(self)@.samples, old(self)@.cursor, 0),
            final(self)@.samples == old(self)@.samples,
            final(self)@.cursor == advanced(old(self)@.samples, old(self)@.cursor, 1),
    {
        proof {
            use_type_invariant(&*self);
        }
        if self.cursor < self.samples.len() {
            let sample = self.samples[self.cursor];
            self.cursor = self.cursor + 1;
            sample
        } else {
            SILENCE
        }
    }

    /// Serves one request of the device: every slot of `out` receives the next
    /// unread sample, and every slot past the end of the buffer receives
    /// silence. Nothing is read past the end and no slot is left as it was.
    pub fn fill(&mut self, out: &mut [i16])
        ensures
            final(out)@ == delivered(old(self)@.samples, old(self)@.cursor, old(out)@.len()),
            final(self)@.samples == old(self)@.samples,
            final(self)@.cursor == advanced(
                old(self)@.samples,
                old(self)@.cursor,
                old(out)@.len(),
            ),
    {
        let n = out.len();
        let mut i: usize = 0;
        while i < n
            invariant
                i <= n,
                n == out@.len(),
                self@.samples == old(self)@.samples,
                self@.cursor == advanced(old(self)@.samples, old(self)@.cursor, i as nat),
                forall|k: int|
                    0 <= k < i ==> out@[k] == slot_sample(
                        old(self)@.samples,
                        old(self)@.cursor,
                        k,
                    ),
            decreases n - i,
        {
            let sample = self.next_sample();
            out[i] = sample;
            i = i + 1;
        }
    }
}

/// `n` samples of silence.
pub open spec fn silence(n: nat) -> Seq<i16> {
    Seq::new(n, |i: int| SILENCE)
}

/// A slice is filled with what is left of the buffer, and silence after it:
/// a buffer that is shorter than the slice is padded, never overrun.
pub proof fn lemma_delivered_is_rest_then_silence(samples: Seq<i16>, cursor: nat, n: nat)
    requires
        cursor <= samples.len(),
    ensures
        cursor <= advanced(samples, cursor, n) <= samples.len(),
        advanced(samples, cursor, n) <= cursor + n,
        delivered(samples, cursor, n) == samples.subrange(
            cursor as int,
            advanced(samples, cursor, n) as int,
        ) + silence((cursor + n - advanced(samples, cursor, n)) as nat),
{
    let stop = advanced(samples, cursor, n);
    let rest = samples.subrange(cursor as int, stop as int);
    let padded = rest + silence((cursor + n - stop) as nat);
    assert(delivered(samples, cursor, n) =~= padded);
}

/// Serving two requests in a row hands the device the same samples as one
/// request for both slices together: no sample is skipped or repeated between
/// requests.
pub proof fn lemma_requests_compose(samples: Seq<i16>, cursor: nat, a: nat, b: nat)
    ensures
        advanced(samples, advanced(samples, cursor, a), b) == advanced(samples, cursor, a + b),
        delivered(samples, cursor, a) + delivered(samples, advanced(samples, cursor, a), b)
            == delivered(samples, cursor, a + b),
{
    let first = delivered(samples, cursor, a);
    let second = delivered(samples, advanced(samples, cursor, a), b);
    assert(first + second =~= delivered(samples, cursor, a + b));
}

/// Once the buffer is exhausted every request is answered with silence alone,
/// and the cursor stays where it is.
pub proof fn lemma_exhausted_is_silent(samples: Seq<i16>, cursor: nat, n: nat)
    requires
        cursor >= samples.len(),
    ensures
        delivered(samples, cursor, n) == silence(n),
        advanced(samples, cursor, n) == cursor,
{
    assert(delivered(samples, cursor, n) =~= silence(n));
}

} // verus!
