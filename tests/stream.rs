use blstrs::{G1Projective, G2Projective, Scalar};
use group::{Group, GroupEncoding};
use tau_powers::curve::CurvePoint;
use tau_powers::stream::{
    check_config, generate, Chunk, ConfigError, PowerStream, Step, MAX_COUNT,
};

fn test_tau() -> Scalar {
    Scalar::from(7u64)
}

fn g1_power(k: u64) -> Vec<u8> {
    let mut p = G1Projective::generator();
    for _ in 0..k {
        p *= &test_tau();
    }
    p.to_bytes().as_ref().to_vec()
}

fn g2_power(k: u64) -> Vec<u8> {
    let mut p = G2Projective::generator();
    for _ in 0..k {
        p *= &test_tau();
    }
    p.to_bytes().as_ref().to_vec()
}

fn points_of(chunks: &[Chunk]) -> Vec<(u64, Vec<Vec<u8>>)> {
    chunks.iter().map(|c| (c.index, c.points.clone())).collect()
}

#[test]
fn chunk_length_zero_and_one_rejected() {
    assert_eq!(
        check_config(10, 0),
        Err(ConfigError::ChunkTooShort { chunk_length: 0 })
    );
    assert_eq!(
        check_config(10, 1),
        Err(ConfigError::ChunkTooShort { chunk_length: 1 })
    );
    assert_eq!(check_config(10, 2), Ok(()));
}

#[test]
fn count_above_maximum_rejected() {
    assert_eq!(MAX_COUNT, 1u64 << 32);
    assert_eq!(
        check_config(MAX_COUNT + 1, 65536),
        Err(ConfigError::CountTooLarge { count: MAX_COUNT + 1 })
    );
    assert_eq!(check_config(MAX_COUNT, 65536), Ok(()));
}

#[test]
fn count_checked_before_chunk_length() {
    assert_eq!(
        check_config(MAX_COUNT + 1, 1),
        Err(ConfigError::CountTooLarge { count: MAX_COUNT + 1 })
    );
}

#[test]
fn new_stream_reports_config_errors() {
    let base = CurvePoint::g1_base();
    assert!(matches!(
        PowerStream::new(base, test_tau(), 4, 1),
        Err(ConfigError::ChunkTooShort { chunk_length: 1 })
    ));
    assert!(matches!(
        PowerStream::new(base, test_tau(), MAX_COUNT + 1, 2),
        Err(ConfigError::CountTooLarge { .. })
    ));
    let s = PowerStream::new(base, test_tau(), MAX_COUNT, 2).unwrap();
    assert_eq!(s.produced(), 0);
    assert_eq!(s.target(), MAX_COUNT);
    assert_eq!(s.chunk_length(), 2);
    assert!(!s.is_finished());
}

#[test]
fn generate_rejects_bad_config() {
    assert!(matches!(
        generate(CurvePoint::g1_base(), test_tau(), 4, 0),
        Err(ConfigError::ChunkTooShort { chunk_length: 0 })
    ));
}

#[test]
fn g1_four_elements_in_chunks_of_two() {
    let chunks = generate(CurvePoint::g1_base(), test_tau(), 4, 2).unwrap();
    assert_eq!(chunks.len(), 2);
    assert_eq!(chunks[0].index, 0);
    assert_eq!(chunks[0].points, vec![g1_power(1), g1_power(2)]);
    assert_eq!(chunks[1].index, 1);
    assert_eq!(chunks[1].points, vec![g1_power(3), g1_power(4)]);
}

#[test]
fn g2_four_elements_in_chunks_of_two() {
    let chunks = generate(CurvePoint::g2_base(), test_tau(), 4, 2).unwrap();
    assert_eq!(chunks.len(), 2);
    assert_eq!(chunks[0].points, vec![g2_power(1), g2_power(2)]);
    assert_eq!(chunks[1].points, vec![g2_power(3), g2_power(4)]);
}

#[test]
fn partial_final_chunk_is_not_returned() {
    let mut s = PowerStream::new(CurvePoint::g1_base(), test_tau(), 3, 2).unwrap();
    let chunks = s.run_to_end();
    assert_eq!(chunks.len(), 1);
    assert_eq!(chunks[0].index, 0);
    assert_eq!(chunks[0].points, vec![g1_power(1), g1_power(2)]);
    assert_eq!(s.produced(), 3);
    assert!(s.is_finished());
}

#[test]
fn steps_report_completed_chunks() {
    let mut s = PowerStream::new(CurvePoint::g1_base(), test_tau(), 5, 2).unwrap();
    assert!(matches!(s.step(), Step::Computed));
    match s.step() {
        Step::Completed(c) => {
            assert_eq!(c.index, 0);
            assert_eq!(c.points, vec![g1_power(1), g1_power(2)]);
        }
        _ => panic!("chunk 0 should be complete"),
    }
    assert!(matches!(s.step(), Step::Computed));
    match s.step() {
        Step::Completed(c) => {
            assert_eq!(c.index, 1);
            assert_eq!(c.points, vec![g1_power(3), g1_power(4)]);
        }
        _ => panic!("chunk 1 should be complete"),
    }
    assert!(matches!(s.step(), Step::Computed));
    assert_eq!(s.produced(), 5);
    assert!(matches!(s.step(), Step::Finished));
    assert_eq!(s.produced(), 5);
}

#[test]
fn zero_count_produces_nothing() {
    let chunks = generate(CurvePoint::g1_base(), test_tau(), 0, 2).unwrap();
    assert!(chunks.is_empty());
}

#[test]
fn chunk_of_three_holds_consecutive_powers() {
    let chunks = generate(CurvePoint::g1_base(), test_tau(), 7, 3).unwrap();
    assert_eq!(chunks.len(), 2);
    assert_eq!(chunks[1].index, 1);
    assert_eq!(chunks[1].points, vec![g1_power(4), g1_power(5), g1_power(6)]);
}

#[test]
fn regenerating_gives_same_chunks() {
    let a = generate(CurvePoint::g1_base(), test_tau(), 6, 2).unwrap();
    let b = generate(CurvePoint::g1_base(), test_tau(), 6, 2).unwrap();
    assert_eq!(points_of(&a), points_of(&b));
}

#[test]
fn next_element_is_previous_times_tau() {
    let chunks = generate(CurvePoint::g1_base(), test_tau(), 2, 2).unwrap();
    let first = G1Projective::generator() * test_tau();
    let second = first * test_tau();
    assert_eq!(chunks[0].points[0], first.to_bytes().as_ref().to_vec());
    assert_eq!(chunks[0].points[1], second.to_bytes().as_ref().to_vec());
    let direct = G1Projective::generator() * (test_tau() * test_tau());
    assert_eq!(chunks[0].points[1], direct.to_bytes().as_ref().to_vec());
}

#[test]
fn interleaved_streams_match_separate_runs() {
    let tau = test_tau();
    let mut g1 = PowerStream::new(CurvePoint::g1_base(), tau, 6, 2).unwrap();
    let mut g2 = PowerStream::new(CurvePoint::g2_base(), tau, 4, 2).unwrap();
    let mut g1_chunks = Vec::new();
    let mut g2_chunks = Vec::new();
    while !g1.is_finished() || !g2.is_finished() {
        if let Step::Completed(c) = g1.step() {
            g1_chunks.push(c);
        }
        if let Step::Completed(c) = g2.step() {
            g2_chunks.push(c);
        }
    }
    let g1_alone = generate(CurvePoint::g1_base(), tau, 6, 2).unwrap();
    let g2_alone = generate(CurvePoint::g2_base(), tau, 4, 2).unwrap();
    assert_eq!(points_of(&g1_chunks), points_of(&g1_alone));
    assert_eq!(points_of(&g2_chunks), points_of(&g2_alone));
}

#[test]
fn point_encodings_have_group_sizes() {
    let mut p = CurvePoint::g1_base();
    assert_eq!(p.to_bytes().len(), 48);
    assert_eq!(p.to_bytes(), G1Projective::generator().to_bytes().as_ref().to_vec());
    p.mul_by(&test_tau());
    assert_eq!(p.to_bytes(), g1_power(1));
    let q = CurvePoint::g2_base();
    assert_eq!(q.to_bytes().len(), 96);
}
