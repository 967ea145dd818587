use exec_governor::{
    archive_coarse_bucket, archive_fine_bucket, decompress_archive, resolve_precompiles,
    AddressPrecompiles, BlockPrecompiles, GovernorError, PrecompileCall, PrecompileChannel,
    ResolutionSource,
};

fn sample_calls(marker: u8) -> BlockPrecompiles {
    BlockPrecompiles {
        entries: vec![AddressPrecompiles {
            address: vec![marker; 20],
            calls: vec![PrecompileCall {
                input: vec![1, 2, 3],
                result: vec![marker],
            }],
        }],
    }
}

#[test]
fn channel_delivers_once() {
    let mut ch = PrecompileChannel::new();
    ch.insert(42, sample_calls(7));
    // First query for the height returns the entry...
    let first = ch.take(42).expect("entry should be present");
    assert_eq!(first.entries[0].address, vec![7; 20]);
    // ...and consumes it: a second query finds nothing.
    assert!(ch.take(42).is_none());
}

#[test]
fn channel_keeps_other_heights() {
    let mut ch = PrecompileChannel::new();
    ch.insert(1, sample_calls(1));
    ch.insert(2, sample_calls(2));
    assert!(ch.take(3).is_none());
    let got = ch.take(1).unwrap();
    assert_eq!(got.entries[0].calls[0].result, vec![1]);
    let got = ch.take(2).unwrap();
    assert_eq!(got.entries[0].calls[0].result, vec![2]);
}

#[test]
fn channel_insert_replaces_pending_entry() {
    let mut ch = PrecompileChannel::new();
    ch.insert(9, sample_calls(1));
    ch.insert(9, sample_calls(2));
    let got = ch.take(9).unwrap();
    assert_eq!(got.entries[0].calls[0].result, vec![2]);
    assert!(ch.take(9).is_none());
}

#[test]
fn resolution_prefers_the_local_channel() {
    let mut ch = PrecompileChannel::new();
    ch.insert(5, sample_calls(3));
    let (calls, source) = resolve_precompiles(&mut ch, 5, Some(sample_calls(9)));
    assert_eq!(source, ResolutionSource::LocalChannel);
    assert_eq!(calls.entries[0].calls[0].result, vec![3]);
    // The hit consumed the channel entry: the next resolution for the same
    // height falls back to the archive.
    let (calls, source) = resolve_precompiles(&mut ch, 5, Some(sample_calls(9)));
    assert_eq!(source, ResolutionSource::Archive);
    assert_eq!(calls.entries[0].calls[0].result, vec![9]);
}

#[test]
fn resolution_fails_soft_to_empty() {
    let mut ch = PrecompileChannel::new();
    let (calls, source) = resolve_precompiles(&mut ch, 77, None);
    assert_eq!(source, ResolutionSource::EmptyFallback);
    assert!(calls.entries.is_empty());
}

#[test]
fn archive_buckets_group_heights() {
    assert_eq!(archive_coarse_bucket(123_456_789), 123_000_000);
    assert_eq!(archive_fine_bucket(123_456_789), 123_456_000);
    assert_eq!(archive_coarse_bucket(2_000_000), 2_000_000);
    assert_eq!(archive_fine_bucket(2_000_000), 2_000_000);
    assert_eq!(archive_coarse_bucket(999_999), 0);
    assert_eq!(archive_fine_bucket(999), 0);
    assert_eq!(archive_fine_bucket(1_000), 1_000);
}

#[test]
fn archive_frame_round_trips() {
    let payload: Vec<u8> = (0u16..2000).map(|i| (i % 251) as u8).collect();
    let mut encoder = lz4_flex::frame::FrameEncoder::new(Vec::new());
    std::io::Write::write_all(&mut encoder, &payload).unwrap();
    let compressed = encoder.finish().unwrap();
    assert_ne!(compressed, payload);
    let decoded = decompress_archive(&compressed).unwrap();
    assert_eq!(decoded, payload);
}

#[test]
fn malformed_archive_frame_is_a_cache_failure() {
    let garbage = vec![0u8, 1, 2, 3, 4, 5, 6, 7];
    assert_eq!(
        decompress_archive(&garbage),
        Err(GovernorError::CacheResolutionFailed)
    );
}

#[test]
fn calls_for_address_finds_the_recorded_sequence() {
    let block = BlockPrecompiles {
        entries: vec![
            AddressPrecompiles {
                address: vec![1; 20],
                calls: vec![PrecompileCall { input: vec![10], result: vec![11] }],
            },
            AddressPrecompiles {
                address: vec![2; 20],
                calls: vec![PrecompileCall { input: vec![20], result: vec![21] }],
            },
        ],
    };
    let hit = block.calls_for_address(&vec![2; 20]).unwrap();
    assert_eq!(hit.calls[0].result, vec![21]);
    assert!(block.calls_for_address(&vec![3; 20]).is_none());
    assert!(block.calls_for_address(&vec![2; 19]).is_none());
}
