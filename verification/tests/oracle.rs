use zklabubu::oracle::{
    abi_decode_values, abi_encode_values, calculate_score, total_eggs, verify, PublicValues,
};

#[test]
fn calculate_score_mixed_counts() {
    assert_eq!(calculate_score(3, 2, 1), 55);
}

#[test]
fn calculate_score_zero_counts() {
    assert_eq!(calculate_score(0, 0, 0), 0);
}

#[test]
fn calculate_score_single_kinds() {
    assert_eq!(calculate_score(1, 0, 0), 5);
    assert_eq!(calculate_score(0, 1, 0), 10);
    assert_eq!(calculate_score(0, 0, 1), 20);
}

#[test]
fn calculate_score_wraps_at_domain_top() {
    // (2^32 - 1) * 5 modulo 2^32 leaves 2^32 - 5.
    assert_eq!(calculate_score(u32::MAX, 0, 0), 4294967291);
}

#[test]
fn total_eggs_sums_counts() {
    assert_eq!(total_eggs(3, 2, 1), 6);
    assert_eq!(total_eggs(0, 0, 0), 0);
}

#[test]
fn verify_accepts_true_score() {
    let score = calculate_score(7, 4, 2);
    let r = verify(7, 4, 2, score, 120, 3);
    assert!(r.is_valid);
    assert_eq!(r.values.score, score);
    assert_eq!(r.values.yellow_eggs, 7);
    assert_eq!(r.values.pink_eggs, 4);
    assert_eq!(r.values.purple_eggs, 2);
    assert_eq!(r.values.game_time, 120);
    assert_eq!(r.values.lives, 3);
}

#[test]
fn verify_rejects_inflated_score_but_commits_true_one() {
    let score = calculate_score(7, 4, 2);
    let r = verify(7, 4, 2, score.wrapping_add(1), 120, 3);
    assert!(!r.is_valid);
    // The committed record carries the recomputed score, never the report.
    assert_eq!(r.values.score, score);
}

#[test]
fn verify_round_trip_on_sample_inputs() {
    let samples: [(u32, u32, u32, u32, u32); 4] = [
        (0, 0, 0, 0, 3),
        (3, 2, 1, 17, 2),
        (100, 50, 25, 3600, 5),
        (u32::MAX, u32::MAX, u32::MAX, 0, 0),
    ];
    for (y, p, u, t, l) in samples {
        assert!(verify(y, p, u, calculate_score(y, p, u), t, l).is_valid);
        assert!(!verify(y, p, u, calculate_score(y, p, u).wrapping_add(1), t, l).is_valid);
    }
}

#[test]
fn abi_encoding_has_fixed_layout() {
    let v = PublicValues {
        score: 0x01020304,
        yellow_eggs: 1,
        pink_eggs: 2,
        purple_eggs: 3,
        game_time: 4,
        lives: 5,
    };
    let bytes = abi_encode_values(&v);
    assert_eq!(bytes.len(), 192);
    // Word 0: 28 zero bytes of padding, then the score big-endian.
    for k in 0..28 {
        assert_eq!(bytes[k], 0);
    }
    assert_eq!(&bytes[28..32], &[1, 2, 3, 4]);
    // The remaining words hold the counters and passthrough fields in order.
    assert_eq!(bytes[63], 1);
    assert_eq!(bytes[95], 2);
    assert_eq!(bytes[127], 3);
    assert_eq!(bytes[159], 4);
    assert_eq!(bytes[191], 5);
}

#[test]
fn abi_decode_inverts_encode() {
    let v = PublicValues {
        score: 55,
        yellow_eggs: 3,
        pink_eggs: 2,
        purple_eggs: 1,
        game_time: 77,
        lives: 4,
    };
    let bytes = abi_encode_values(&v);
    assert_eq!(abi_decode_values(&bytes), Some(v));
}

#[test]
fn abi_decode_rejects_wrong_length() {
    let bytes: Vec<u8> = vec![0; 191];
    assert_eq!(abi_decode_values(&bytes), None);
}

#[test]
fn abi_decode_rejects_nonzero_padding() {
    let v = PublicValues {
        score: 55,
        yellow_eggs: 3,
        pink_eggs: 2,
        purple_eggs: 1,
        game_time: 77,
        lives: 4,
    };
    let mut bytes = abi_encode_values(&v);
    bytes[5] = 9;
    assert_eq!(abi_decode_values(&bytes), None);
}
