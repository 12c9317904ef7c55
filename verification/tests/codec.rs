//! Base64 round-trip and error-message checks.

use base64::prelude::BASE64_STANDARD;
use base64::Engine;
use star_randsrv::{base64_round_trip, randomness, Config, Error, OPRFServer, RandomnessRequest};

const BASEPOINT: [u8; 32] = [
    0xe2, 0xf2, 0xae, 0x0a, 0x6a, 0xbc, 0x4e, 0x71, 0xa8, 0x84, 0xa9, 0x61, 0xc5, 0x00, 0x51,
    0x5f, 0x58, 0xe3, 0x0b, 0x6a, 0xa5, 0x82, 0xdd, 0x8d, 0xb6, 0xa6, 0x59, 0x45, 0xe0, 0x8d,
    0x2d, 0x76,
];

#[test]
fn base64_round_trips() {
    for bytes in [
        Vec::new(),
        vec![0u8],
        vec![0xff; 3],
        BASEPOINT.to_vec(),
        (0u8..=255).collect(),
    ] {
        assert_eq!(base64_round_trip(&bytes), bytes);
    }
}

#[test]
fn evaluation_outputs_round_trip_through_base64() {
    let config = Config {
        epoch_seconds: 1,
        first_epoch: 0,
        last_epoch: 2,
        listen: "127.0.0.1:8080".to_string(),
    };
    let state = OPRFServer::new(&config).unwrap();
    let req = RandomnessRequest {
        points: vec![BASE64_STANDARD.encode(BASEPOINT)],
        epoch: None,
    };
    let resp = randomness(&state, &req).unwrap();
    for encoded in &resp.points {
        let decoded = BASE64_STANDARD.decode(encoded).unwrap();
        assert_eq!(decoded.len(), 32);
        assert_eq!(&BASE64_STANDARD.encode(&decoded), encoded);
        assert_eq!(base64_round_trip(&decoded), decoded);
    }
}

#[test]
fn error_messages_match_the_reported_conditions() {
    assert_eq!(
        Error::LockFailure.message(),
        "Couldn't lock state: RwLock poisoned"
    );
    assert_eq!(Error::BadPoint.message(), "Invalid point");
    assert_eq!(
        Error::TooManyPoints.message(),
        "Too many points for a single request"
    );
    assert_eq!(Error::BadEpoch(0).message(), "Invalid epoch 0`");
    assert_eq!(Error::BadEpoch(37).message(), "Invalid epoch 37`");
    assert_eq!(Error::BadEpoch(100).message(), "Invalid epoch 100`");
    assert_eq!(Error::BadEpoch(255).message(), "Invalid epoch 255`");
    let decode_err = BASE64_STANDARD.decode("@@@@").unwrap_err();
    assert!(Error::Base64(decode_err)
        .message()
        .starts_with("Invalid base64 encoding: "));
}
