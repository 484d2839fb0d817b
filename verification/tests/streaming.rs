use ssip_server::stream::{terminator_taken, Drain, DrainStatus, Drained, Feed, ProtocolError};

/// Feeds `input` to an engine that takes at most `capacity` bytes per call and
/// returns the count of each call and the bytes taken, in order.
fn feed_through(input: &[u8], capacity: usize) -> (Vec<usize>, Vec<u8>) {
    let mut feed = Feed::new(input);
    let mut counts = Vec::new();
    let mut taken = Vec::new();
    while !feed.is_complete() {
        let offer = feed.offer();
        let n_consumed = offer.len().min(capacity);
        taken.extend_from_slice(&offer[..n_consumed]);
        counts.push(n_consumed);
        assert_eq!(feed.advance(n_consumed), Ok(()));
    }
    (counts, taken)
}

#[test]
fn counts_add_up_to_the_input_length() {
    let input = b"Hello, world! This is a longer line of text.";
    for capacity in 1..=input.len() + 3 {
        let (counts, taken) = feed_through(input, capacity);
        let total: usize = counts.iter().sum();
        assert_eq!(total, input.len());
        assert_eq!(taken, input.to_vec());
    }
}

#[test]
fn feed_in_uneven_pieces_loses_no_byte() {
    let input = b"abcdefghij";
    let mut feed = Feed::new(input);
    let mut taken: Vec<u8> = Vec::new();
    for n_consumed in [3usize, 1, 4, 2] {
        let offer = feed.offer();
        taken.extend_from_slice(&offer[..n_consumed]);
        assert_eq!(feed.advance(n_consumed), Ok(()));
    }
    assert!(feed.is_complete());
    assert_eq!(feed.position(), 10);
    assert_eq!(taken, b"abcdefghij".to_vec());
    assert_eq!(feed.offer().len(), 0);
}

#[test]
fn offer_is_what_was_not_taken() {
    let input = b"Hello";
    let mut feed = Feed::new(input);
    assert_eq!(feed.offer(), b"Hello");
    assert_eq!(feed.position(), 0);
    assert!(!feed.is_complete());
    assert_eq!(feed.advance(2), Ok(()));
    assert_eq!(feed.offer(), b"llo");
    assert_eq!(feed.position(), 2);
    assert_eq!(feed.advance(3), Ok(()));
    assert_eq!(feed.offer(), b"");
    assert!(feed.is_complete());
}

#[test]
fn empty_input_is_complete_at_once() {
    let feed = Feed::new(b"");
    assert!(feed.is_complete());
    assert_eq!(feed.position(), 0);
}

#[test]
fn engine_that_takes_nothing_stalls_the_feed() {
    let mut feed = Feed::new(b"abc");
    assert_eq!(feed.advance(1), Ok(()));
    assert_eq!(feed.advance(0), Err(ProtocolError::Stalled));
    assert_eq!(feed.position(), 1);
    assert_eq!(feed.offer(), b"bc");
}

#[test]
fn engine_that_claims_too_much_overruns_the_feed() {
    let mut feed = Feed::new(b"abc");
    assert_eq!(feed.advance(4), Err(ProtocolError::Overrun));
    assert_eq!(feed.position(), 0);
    assert_eq!(feed.advance(2), Ok(()));
    assert_eq!(feed.advance(2), Err(ProtocolError::Overrun));
    assert_eq!(feed.advance(usize::MAX), Err(ProtocolError::Overrun));
    assert_eq!(feed.position(), 2);
    assert_eq!(feed.advance(1), Ok(()));
    assert!(feed.is_complete());
}

/// Drains an engine that answers the calls with `script`, and after the script
/// with `More` and no samples for ever. Returns the result and the number of
/// calls made.
fn drain_through(
    limit: usize,
    script: &[(Vec<i16>, usize, DrainStatus)],
) -> (Result<Vec<i16>, ProtocolError>, usize) {
    let mut drain = Drain::new(limit);
    let mut calls = 0usize;
    loop {
        let (chunk, n_written, status) = match script.get(calls) {
            Some((chunk, n_written, status)) => (chunk.clone(), *n_written, *status),
            None => (vec![0i16; 4], 0, DrainStatus::More),
        };
        calls += 1;
        assert!(calls <= limit.max(1), "the drain went past its limit");
        match drain.absorb(&chunk, n_written, status) {
            Ok(Drained::More(next)) => drain = next,
            Ok(Drained::Done(pcm)) => return (Ok(pcm), calls),
            Err(breach) => return (Err(breach), calls),
        }
    }
}

#[test]
fn engine_that_never_idles_is_given_up() {
    for limit in [0usize, 1, 2, 3, 10, 1000] {
        let (result, calls) = drain_through(limit, &[]);
        assert_eq!(result, Err(ProtocolError::Exhausted));
        assert_eq!(calls, limit.max(1));
    }
}

#[test]
fn drain_collects_valid_prefixes_in_order() {
    let script = vec![
        (vec![1, 2, 3, 99], 3, DrainStatus::More),
        (vec![0, 0, 0, 0], 0, DrainStatus::More),
        (vec![4, 5, 98, 97], 2, DrainStatus::More),
        (vec![6, 96, 95, 94], 1, DrainStatus::Idle),
    ];
    let (result, calls) = drain_through(16, &script);
    assert_eq!(result, Ok(vec![1, 2, 3, 4, 5, 6]));
    assert_eq!(calls, 4);
}

#[test]
fn drain_waits_through_calls_without_samples() {
    let script = vec![
        (vec![0i16; 4], 0, DrainStatus::More),
        (vec![0i16; 4], 0, DrainStatus::More),
        (vec![0i16; 4], 0, DrainStatus::More),
        (vec![9, 8, 7, 6], 4, DrainStatus::Idle),
    ];
    let (result, calls) = drain_through(4, &script);
    assert_eq!(result, Ok(vec![9, 8, 7, 6]));
    assert_eq!(calls, 4);
}

#[test]
fn idle_on_the_last_allowed_call_still_succeeds() {
    let script = vec![
        (vec![1i16], 1, DrainStatus::More),
        (vec![2i16], 1, DrainStatus::Idle),
    ];
    let (result, calls) = drain_through(2, &script);
    assert_eq!(result, Ok(vec![1, 2]));
    assert_eq!(calls, 2);
}

#[test]
fn more_on_the_last_allowed_call_fails() {
    let script = vec![
        (vec![1i16], 1, DrainStatus::More),
        (vec![2i16], 1, DrainStatus::More),
        (vec![3i16], 1, DrainStatus::Idle),
    ];
    let (result, calls) = drain_through(2, &script);
    assert_eq!(result, Err(ProtocolError::Exhausted));
    assert_eq!(calls, 2);
}

#[test]
fn idle_engine_without_samples_gives_empty_pcm() {
    let script = vec![(vec![0i16; 4], 0, DrainStatus::Idle)];
    let (result, calls) = drain_through(8, &script);
    assert_eq!(result, Ok(Vec::new()));
    assert_eq!(calls, 1);
}

#[test]
fn engine_that_claims_more_than_the_chunk_overruns_the_drain() {
    let script = vec![
        (vec![1i16, 2], 2, DrainStatus::More),
        (vec![3i16, 4], 3, DrainStatus::Idle),
    ];
    let (result, calls) = drain_through(8, &script);
    assert_eq!(result, Err(ProtocolError::Overrun));
    assert_eq!(calls, 2);
}

#[test]
fn calls_left_counts_down() {
    let drain = Drain::new(3);
    assert_eq!(drain.calls_left(), 3);
    let drain = match drain.absorb(&[1i16, 2], 1, DrainStatus::More) {
        Ok(Drained::More(next)) => next,
        _ => panic!("the drain ended early"),
    };
    assert_eq!(drain.calls_left(), 2);
    let drain = match drain.absorb(&[1i16, 2], 0, DrainStatus::More) {
        Ok(Drained::More(next)) => next,
        _ => panic!("the drain ended early"),
    };
    assert_eq!(drain.calls_left(), 1);
    assert!(matches!(
        drain.absorb(&[1i16, 2], 0, DrainStatus::More),
        Err(ProtocolError::Exhausted)
    ));
}

#[test]
fn refused_terminator_is_a_stall() {
    assert_eq!(terminator_taken(0), Err(ProtocolError::Stalled));
    assert_eq!(terminator_taken(1), Ok(()));
}
