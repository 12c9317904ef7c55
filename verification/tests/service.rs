//! End-to-end exercises of the service core against the real
//! primitive: startup, evaluation, validation and rotation.

use base64::prelude::BASE64_STANDARD;
use base64::Engine;
use star_randsrv::{randomness, Config, Error, OPRFServer, RandomnessRequest, MAX_POINTS};

/// The compressed ristretto255 basepoint: a known valid curve point.
const BASEPOINT: [u8; 32] = [
    0xe2, 0xf2, 0xae, 0x0a, 0x6a, 0xbc, 0x4e, 0x71, 0xa8, 0x84, 0xa9, 0x61, 0xc5, 0x00, 0x51,
    0x5f, 0x58, 0xe3, 0x0b, 0x6a, 0xa5, 0x82, 0xdd, 0x8d, 0xb6, 0xa6, 0x59, 0x45, 0xe0, 0x8d,
    0x2d, 0x76,
];

fn test_config() -> Config {
    Config {
        epoch_seconds: 1,
        first_epoch: 0,
        last_epoch: 2,
        listen: "127.0.0.1:8080".to_string(),
    }
}

fn valid_point() -> String {
    BASE64_STANDARD.encode(BASEPOINT)
}

fn request(points: Vec<String>, epoch: Option<u8>) -> RandomnessRequest {
    RandomnessRequest { points, epoch }
}

#[test]
fn startup_serves_first_epoch() {
    let config = test_config();
    let state = OPRFServer::new(&config).unwrap();
    assert_eq!(state.epoch, 0);
    assert!(state.next_epoch_time.is_none());

    let resp = randomness(&state, &request(vec![valid_point()], None)).unwrap();
    assert_eq!(resp.epoch, 0);
    assert_eq!(resp.points.len(), 1);
}

#[test]
fn empty_batch_is_accepted() {
    let config = test_config();
    let state = OPRFServer::new(&config).unwrap();
    let resp = randomness(&state, &request(Vec::new(), None)).unwrap();
    assert_eq!(resp.epoch, 0);
    assert!(resp.points.is_empty());
}

#[test]
fn outputs_correspond_to_inputs_in_order() {
    let config = test_config();
    let state = OPRFServer::new(&config).unwrap();
    let p1 = valid_point();
    // An evaluation output is itself a valid compressed point, giving
    // a second, distinct well-formed input.
    let p2 = randomness(&state, &request(vec![p1.clone()], None))
        .unwrap()
        .points[0]
        .clone();
    assert_ne!(p1, p2);

    let batch = randomness(&state, &request(vec![p1.clone(), p2.clone()], None)).unwrap();
    assert_eq!(batch.points.len(), 2);
    let single1 = randomness(&state, &request(vec![p1], None)).unwrap();
    let single2 = randomness(&state, &request(vec![p2], None)).unwrap();
    assert_eq!(batch.points[0], single1.points[0]);
    assert_eq!(batch.points[1], single2.points[0]);
}

#[test]
fn full_batch_is_accepted() {
    let config = test_config();
    let state = OPRFServer::new(&config).unwrap();
    let points = vec![valid_point(); MAX_POINTS];
    let resp = randomness(&state, &request(points, None)).unwrap();
    assert_eq!(resp.points.len(), MAX_POINTS);
}

#[test]
fn oversized_batch_is_rejected_whatever_the_points() {
    let config = test_config();
    let state = OPRFServer::new(&config).unwrap();
    // One element over the maximum, and not even valid base64: the
    // size check decides before any point is examined.
    let points = vec!["not even base64!".to_string(); MAX_POINTS + 1];
    let err = randomness(&state, &request(points, None)).unwrap_err();
    assert!(matches!(err, Error::TooManyPoints));
}

#[test]
fn wrong_epoch_is_rejected_for_every_selector() {
    let config = test_config();
    let state = OPRFServer::new(&config).unwrap();
    for epoch in 1..=255u8 {
        let err = randomness(&state, &request(vec![valid_point()], Some(epoch))).unwrap_err();
        match err {
            Error::BadEpoch(e) => assert_eq!(e, epoch),
            other => panic!("expected epoch mismatch, got {other:?}"),
        }
    }
}

#[test]
fn matching_selector_is_accepted() {
    let config = test_config();
    let state = OPRFServer::new(&config).unwrap();
    let resp = randomness(&state, &request(vec![valid_point()], Some(0))).unwrap();
    assert_eq!(resp.epoch, 0);
}

#[test]
fn wrong_length_point_is_rejected() {
    let config = test_config();
    let state = OPRFServer::new(&config).unwrap();
    for len in [0usize, 1, 31, 33, 64] {
        let short = BASE64_STANDARD.encode(vec![0x11u8; len]);
        let err = randomness(&state, &request(vec![short], None)).unwrap_err();
        assert!(matches!(err, Error::BadPoint), "length {len}: {err:?}");
    }
}

#[test]
fn invalid_base64_is_rejected() {
    let config = test_config();
    let state = OPRFServer::new(&config).unwrap();
    let err = randomness(&state, &request(vec!["@@@@".to_string()], None)).unwrap_err();
    assert!(matches!(err, Error::Base64(_)));
}

#[test]
fn undecodable_point_is_rejected_by_the_primitive() {
    let config = test_config();
    let state = OPRFServer::new(&config).unwrap();
    // 32 bytes that are not a canonical compressed point.
    let bogus = BASE64_STANDARD.encode([0xffu8; 32]);
    let err = randomness(&state, &request(vec![bogus], None)).unwrap_err();
    assert!(matches!(err, Error::Oprf(_)));
}

#[test]
fn first_bad_point_aborts_the_batch() {
    let config = test_config();
    let state = OPRFServer::new(&config).unwrap();
    let short = BASE64_STANDARD.encode([0x11u8; 3]);
    let err = randomness(
        &state,
        &request(vec![valid_point(), "%%".to_string(), short], None),
    )
    .unwrap_err();
    // The first failing point, in input order, decides the error.
    assert!(matches!(err, Error::Base64(_)));
}
