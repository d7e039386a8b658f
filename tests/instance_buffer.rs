use frost_vector::instance_buffer::{choose_upload_path, report_upload, UploadPath, UploadPlanner};
use frost_vector::statistics::Statistics;

const CIRCLE_BYTES: u64 = 16;

#[test]
fn zero_then_fifty_then_three_circles() {
    let mut planner = UploadPlanner::new(0);
    assert_eq!(planner.plan(0), UploadPath::InPlace);
    assert_eq!(planner.capacity(), 0);
    assert_eq!(planner.plan(50 * CIRCLE_BYTES), UploadPath::Reallocate);
    assert_eq!(planner.capacity(), 800);
    assert_eq!(planner.plan(3 * CIRCLE_BYTES), UploadPath::InPlace);
    assert_eq!(planner.capacity(), 800);
}

#[test]
fn zero_then_fifty_then_three_bytes() {
    let mut planner = UploadPlanner::new(0);
    assert_eq!(planner.plan(0), UploadPath::InPlace);
    assert_eq!(planner.plan(50), UploadPath::Reallocate);
    assert_eq!(planner.capacity(), 50);
    assert_eq!(planner.plan(3), UploadPath::InPlace);
    assert_eq!(planner.capacity(), 50);
}

#[test]
fn reallocate_only_when_longer() {
    assert_eq!(choose_upload_path(101, 100), UploadPath::Reallocate);
    assert_eq!(choose_upload_path(100, 100), UploadPath::InPlace);
    assert_eq!(choose_upload_path(99, 100), UploadPath::InPlace);
    assert_eq!(choose_upload_path(0, 0), UploadPath::InPlace);
    assert_eq!(choose_upload_path(u64::MAX, u64::MAX - 1), UploadPath::Reallocate);
}

#[test]
fn same_data_twice_stays_in_place() {
    let mut planner = UploadPlanner::new(400000);
    assert_eq!(planner.plan(400016), UploadPath::Reallocate);
    assert_eq!(planner.plan(400016), UploadPath::InPlace);
    assert_eq!(planner.capacity(), 400016);
    assert_eq!(planner.plan(400000), UploadPath::InPlace);
    assert_eq!(planner.plan(400000), UploadPath::InPlace);
    assert_eq!(planner.capacity(), 400016);
}

#[test]
fn capacity_tracks_a_growing_sequence() {
    let mut planner = UploadPlanner::new(64);
    let sizes = [32u64, 64, 128, 96, 256, 0, 512, 512, 16];
    let mut expected = 64u64;
    for &len in sizes.iter() {
        let path = planner.plan(len);
        assert!(planner.capacity() >= len);
        if len > expected {
            assert_eq!(path, UploadPath::Reallocate);
            assert_eq!(planner.capacity(), len);
            expected = len;
        } else {
            assert_eq!(path, UploadPath::InPlace);
            assert_eq!(planner.capacity(), expected);
        }
    }
    assert_eq!(planner.capacity(), 512);
}

fn rows(stats: &Statistics<f64>, name: &str) -> Vec<(usize, f64)> {
    match stats.find_stream(name) {
        Some(id) => stats.entries(id).iter().map(|e| (e.frame, e.value)).collect(),
        None => Vec::new(),
    }
}

#[test]
fn upload_reports_path_latency_and_size() {
    let mut stats: Statistics<f64> = Statistics::new();
    let mut planner = UploadPlanner::new(0);
    let path = planner.plan(800);
    report_upload(&mut stats, path, "bad_circle_path", "good_circle_path", "circle_data_size", 0.25, 800.0);
    stats.next_frame();
    let path = planner.plan(48);
    report_upload(&mut stats, path, "bad_circle_path", "good_circle_path", "circle_data_size", 0.125, 48.0);
    assert_eq!(rows(&stats, "bad_circle_path"), vec![(0, 0.25)]);
    assert_eq!(rows(&stats, "good_circle_path"), vec![(1, 0.125)]);
    assert_eq!(rows(&stats, "circle_data_size"), vec![(0, 800.0), (1, 48.0)]);
}

#[test]
fn equal_length_upload_reports_in_place() {
    let mut stats: Statistics<f64> = Statistics::new();
    let mut planner = UploadPlanner::new(800);
    let path = planner.plan(800);
    report_upload(&mut stats, path, "bad_circle_path", "good_circle_path", "circle_data_size", 1.0, 800.0);
    assert_eq!(rows(&stats, "good_circle_path"), vec![(0, 1.0)]);
    assert!(stats.find_stream("bad_circle_path").is_none());
}
