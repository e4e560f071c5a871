use geodense::filter::FilterConfig;
use geodense::geo::Location;
use geodense::pipeline::{run_batch, SnapshotInput};

fn loc(longitude_micro: i64, latitude_micro: i64) -> Location {
    Location { longitude_micro, latitude_micro }
}

fn dense_trio(timestamp: &str) -> SnapshotInput {
    SnapshotInput {
        timestamp: timestamp.to_string(),
        points: vec![loc(13_405_000, 52_520_000), loc(13_405_010, 52_520_010), loc(
            13_405_020,
            52_520_020,
        )],
        dists: vec![vec![0, 1, 2], vec![1, 0, 1], vec![2, 1, 0]],
    }
}

fn lone_point(timestamp: &str) -> SnapshotInput {
    SnapshotInput {
        timestamp: timestamp.to_string(),
        points: vec![loc(2_352_222, 48_856_613)],
        dists: vec![vec![0]],
    }
}

#[test]
fn batch_of_nothing_is_empty() {
    let cfg = FilterConfig::default();
    let out = run_batch(&Vec::new(), &cfg);
    assert!(out.is_empty());
}

#[test]
fn dense_snapshot_kept_isolated_snapshot_dropped() {
    // Two snapshots: one with three mutually close points, one with a
    // single isolated point. Exactly the first survives, with 3 features.
    let cfg = FilterConfig::default();
    let inputs = vec![dense_trio("2021-01-01T00:00:00"), lone_point("2021-01-01T00:05:00")];
    let out = run_batch(&inputs, &cfg);
    assert_eq!(out.len(), 1);
    assert_eq!(out[0].timestamp, "2021-01-01T00:00:00");
    assert_eq!(out[0].features.len(), 3);
    assert_eq!(out[0].features[0].location, inputs[0].points[0]);
    assert_eq!(out[0].features[1].location, inputs[0].points[1]);
    assert_eq!(out[0].features[2].location, inputs[0].points[2]);
}

#[test]
fn retained_snapshots_keep_timestamp_order() {
    let cfg = FilterConfig::default();
    let inputs = vec![
        dense_trio("a-2021-01-01"),
        lone_point("b-2021-01-02"),
        dense_trio("c-2021-01-03"),
        lone_point("d-2021-01-04"),
        dense_trio("e-2021-01-05"),
    ];
    let out = run_batch(&inputs, &cfg);
    assert_eq!(out.len(), 3);
    assert_eq!(out[0].timestamp, "a-2021-01-01");
    assert_eq!(out[1].timestamp, "c-2021-01-03");
    assert_eq!(out[2].timestamp, "e-2021-01-05");
    for fs in &out {
        assert!(!fs.features.is_empty());
    }
}

#[test]
fn empty_snapshot_is_omitted_not_emitted_empty() {
    let cfg = FilterConfig::default();
    let empty = SnapshotInput {
        timestamp: "empty".to_string(),
        points: Vec::new(),
        dists: Vec::new(),
    };
    let inputs = vec![empty, dense_trio("kept")];
    let out = run_batch(&inputs, &cfg);
    assert_eq!(out.len(), 1);
    assert_eq!(out[0].timestamp, "kept");
}
