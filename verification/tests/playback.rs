use ssip_server::output::{
    Error, ErrorKind, Output, Playback, CHANNELS, PLAYBACK_WINDOW_MILLIS, SAMPLE_RATE, SILENCE,
};

#[test]
fn short_buffer_is_padded_with_silence() {
    let mut playback = Playback::new(vec![7, -3, 12]);
    let mut slice = [99i16; 8];
    playback.fill(&mut slice[..]);
    assert_eq!(slice, [7, -3, 12, 0, 0, 0, 0, 0]);
    assert_eq!(playback.remaining(), 0);
}

#[test]
fn buffer_is_handed_out_in_order_over_several_requests() {
    let samples: Vec<i16> = vec![1, 2, 3, 4, 5, 6, 7];
    let mut playback = Playback::new(samples);
    let mut first = [0i16; 3];
    let mut second = [0i16; 3];
    let mut third = [-1i16; 3];
    playback.fill(&mut first[..]);
    assert_eq!(playback.remaining(), 4);
    playback.fill(&mut second[..]);
    assert_eq!(playback.remaining(), 1);
    playback.fill(&mut third[..]);
    assert_eq!(first, [1, 2, 3]);
    assert_eq!(second, [4, 5, 6]);
    assert_eq!(third, [7, 0, 0]);
    assert_eq!(playback.remaining(), 0);
}

#[test]
fn two_requests_deliver_what_one_large_request_delivers() {
    let samples: Vec<i16> = vec![10, 20, 30, 40, 50];
    let mut split = Playback::new(samples.clone());
    let mut whole = Playback::new(samples);
    let mut a = [0i16; 2];
    let mut b = [0i16; 6];
    let mut both = [0i16; 8];
    split.fill(&mut a[..]);
    split.fill(&mut b[..]);
    whole.fill(&mut both[..]);
    let mut joined: Vec<i16> = Vec::new();
    joined.extend_from_slice(&a);
    joined.extend_from_slice(&b);
    assert_eq!(joined, both.to_vec());
    assert_eq!(both, [10, 20, 30, 40, 50, 0, 0, 0]);
}

#[test]
fn exhausted_buffer_gives_silence_only() {
    let mut playback = Playback::new(vec![5]);
    let mut slice = [1i16; 1];
    playback.fill(&mut slice[..]);
    assert_eq!(slice, [5]);
    let mut later = [1i16; 4];
    playback.fill(&mut later[..]);
    assert_eq!(later, [0, 0, 0, 0]);
    playback.fill(&mut later[..]);
    assert_eq!(later, [SILENCE; 4]);
}

#[test]
fn empty_buffer_plays_silence() {
    let mut playback = Playback::new(Vec::new());
    let mut slice = [123i16; 5];
    playback.fill(&mut slice[..]);
    assert_eq!(slice, [0; 5]);
}

#[test]
fn empty_request_moves_nothing() {
    let mut playback = Playback::new(vec![1, 2]);
    let mut nothing: [i16; 0] = [];
    playback.fill(&mut nothing[..]);
    assert_eq!(playback.remaining(), 2);
    assert_eq!(playback.next_sample(), 1);
}

#[test]
fn extreme_samples_pass_unchanged() {
    let mut playback = Playback::new(vec![i16::MIN, i16::MAX, -1]);
    let mut slice = [0i16; 3];
    playback.fill(&mut slice[..]);
    assert_eq!(slice, [i16::MIN, i16::MAX, -1]);
}

#[test]
fn next_sample_walks_the_buffer_then_stays_silent() {
    let mut playback = Playback::new(vec![4, 8]);
    assert_eq!(playback.next_sample(), 4);
    assert_eq!(playback.remaining(), 1);
    assert_eq!(playback.next_sample(), 8);
    assert_eq!(playback.next_sample(), 0);
    assert_eq!(playback.next_sample(), 0);
    assert_eq!(playback.remaining(), 0);
}

#[test]
fn output_without_device_is_refused() {
    match Output::new(false) {
        Ok(_) => panic!("an output without a device"),
        Err(error) => {
            assert_eq!(error.kind, ErrorKind::NoDevice);
            assert_eq!(error.description, "Unable to find audio output device.");
            assert_eq!(
                error.message(),
                "TTS Pico error: Unable to find audio output device."
            );
        }
    }
}

#[test]
fn output_is_mono_at_sixteen_kilohertz() {
    let output = match Output::new(true) {
        Ok(output) => output,
        Err(error) => panic!("{}", error.message()),
    };
    let config = output.config();
    assert_eq!(config.channels, 1);
    assert_eq!(config.sample_rate, 16_000);
    assert_eq!(CHANNELS, 1);
    assert_eq!(SAMPLE_RATE, 16_000);
    assert_eq!(output.playback_window_millis(), 5_000);
    assert_eq!(PLAYBACK_WINDOW_MILLIS, 5_000);
}

#[test]
fn play_starts_at_the_first_sample() {
    let output = match Output::new(true) {
        Ok(output) => output,
        Err(error) => panic!("{}", error.message()),
    };
    let mut playback = output.play(vec![3, 2, 1]);
    assert_eq!(playback.remaining(), 3);
    let mut slice = [0i16; 4];
    playback.fill(&mut slice[..]);
    assert_eq!(slice, [3, 2, 1, 0]);
}

#[test]
fn stream_build_error_keeps_the_device_words() {
    let error = Error::stream_build(String::from("device busy"));
    assert_eq!(error.kind, ErrorKind::StreamBuild);
    assert_eq!(error.description, "device busy");
    assert_eq!(error.message(), "device busy");
}
