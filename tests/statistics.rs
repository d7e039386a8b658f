use frost_vector::statistics::{
    export_file_stem, get_data_stream_id, next_frame, report_value, report_value_with_name,
    restart_statistics, DataStreamId, Statistics,
};
use std::sync::Mutex;

fn rows(stats: &Statistics<f64>, name: &str) -> Vec<(usize, f64)> {
    match stats.find_stream(name) {
        Some(id) => stats.entries(id).iter().map(|e| (e.frame, e.value)).collect(),
        None => Vec::new(),
    }
}

#[test]
fn same_name_gives_same_id() {
    let mut stats: Statistics<f64> = Statistics::new();
    let a = get_data_stream_id(&mut stats, "x");
    let b = get_data_stream_id(&mut stats, "x");
    assert_eq!(a, b);
    assert_eq!(a, DataStreamId { id: 0 });
    assert_eq!(stats.stream_count(), 1);
}

#[test]
fn report_with_name_exports_one_entry() {
    let mut stats: Statistics<f64> = Statistics::new();
    report_value_with_name(&mut stats, "x", 2.5);
    assert_eq!(rows(&stats, "x"), vec![(0, 2.5)]);
}

#[test]
fn distinct_names_get_consecutive_ids() {
    let mut stats: Statistics<f64> = Statistics::new();
    assert_eq!(stats.get_data_stream_id("a").id, 0);
    assert_eq!(stats.get_data_stream_id("b").id, 1);
    assert_eq!(stats.get_data_stream_id("a").id, 0);
    assert_eq!(stats.get_data_stream_id("c").id, 2);
    assert_eq!(stats.stream_name(DataStreamId { id: 1 }).as_str(), "b");
}

#[test]
fn report_by_id_appends_in_order() {
    let mut stats: Statistics<f64> = Statistics::new();
    let id = stats.get_data_stream_id("lat");
    report_value(&mut stats, id, 1.0);
    report_value(&mut stats, id, 2.0);
    stats.report_value(id, 3.0);
    assert_eq!(rows(&stats, "lat"), vec![(0, 1.0), (0, 2.0), (0, 3.0)]);
}

#[test]
fn unknown_name_exports_nothing() {
    let mut stats: Statistics<f64> = Statistics::new();
    report_value_with_name(&mut stats, "x", 1.0);
    assert!(stats.find_stream("y").is_none());
    assert_eq!(rows(&stats, "y"), vec![]);
}

#[test]
fn restart_clears_streams_and_frame() {
    let mut stats: Statistics<f64> = Statistics::new();
    report_value_with_name(&mut stats, "a", 1.0);
    report_value_with_name(&mut stats, "b", 2.0);
    next_frame(&mut stats);
    next_frame(&mut stats);
    assert_eq!(stats.frame(), 2);
    restart_statistics(&mut stats);
    assert_eq!(stats.frame(), 0);
    assert_eq!(stats.stream_count(), 0);
    assert_eq!(rows(&stats, "a"), vec![]);
    assert_eq!(get_data_stream_id(&mut stats, "b").id, 0);
    assert_eq!(get_data_stream_id(&mut stats, "a").id, 1);
    assert_eq!(rows(&stats, "b"), vec![]);
}

#[test]
fn reports_carry_frame_between_advances() {
    let mut stats: Statistics<f64> = Statistics::new();
    for k in 0..4usize {
        report_value_with_name(&mut stats, "v", k as f64);
        report_value_with_name(&mut stats, "v", k as f64 + 0.5);
        next_frame(&mut stats);
    }
    assert_eq!(stats.frame(), 4);
    assert_eq!(
        rows(&stats, "v"),
        vec![
            (0, 0.0),
            (0, 0.5),
            (1, 1.0),
            (1, 1.5),
            (2, 2.0),
            (2, 2.5),
            (3, 3.0),
            (3, 3.5)
        ]
    );
}

#[test]
fn concurrent_reports_are_all_kept() {
    let stats: Mutex<Statistics<f64>> = Mutex::new(Statistics::new());
    let report = |v: f64| report_value_with_name(&mut stats.lock().unwrap(), "lat", v);
    report(1.25);
    report(7.5);
    let stats = stats.into_inner().unwrap();
    let mut got = rows(&stats, "lat");
    got.sort_by(|a, b| a.1.partial_cmp(&b.1).unwrap());
    assert_eq!(got, vec![(0, 1.25), (0, 7.5)]);
    assert_eq!(stats.stream_count(), 1);
}

#[test]
fn tabular_export_of_two_streams() {
    let mut stats: Statistics<f64> = Statistics::new();
    for (fps, lat) in [(60.0, 0.016), (59.0, 0.017), (61.0, 0.015)] {
        report_value_with_name(&mut stats, "fps", fps);
        report_value_with_name(&mut stats, "latency", lat);
        next_frame(&mut stats);
    }
    let mut tables: Vec<(String, Vec<(usize, f64)>)> = Vec::new();
    for i in 0..stats.stream_count() {
        let id = DataStreamId { id: i };
        let name: String = export_file_stem(stats.stream_name(id)).into_iter().collect();
        let rows: Vec<(usize, f64)> = stats.entries(id).iter().map(|e| (e.frame, e.value)).collect();
        tables.push((name, rows));
    }
    assert_eq!(tables.len(), 2);
    assert_eq!(tables[0], ("fps".to_string(), vec![(0, 60.0), (1, 59.0), (2, 61.0)]));
    assert_eq!(tables[1], ("latency".to_string(), vec![(0, 0.016), (1, 0.017), (2, 0.015)]));
}

#[test]
fn file_stem_replaces_spaces() {
    let stem: String = export_file_stem("queue submit time").into_iter().collect();
    assert_eq!(stem, "queue_submit_time");
    let plain: String = export_file_stem("fps").into_iter().collect();
    assert_eq!(plain, "fps");
    assert!(export_file_stem("").is_empty());
}

#[test]
fn integer_values_work_too() {
    let mut stats: Statistics<u64> = Statistics::new();
    report_value_with_name(&mut stats, "circle_data_size", 800);
    next_frame(&mut stats);
    report_value_with_name(&mut stats, "circle_data_size", 48);
    let id = stats.find_stream("circle_data_size").unwrap();
    let got: Vec<(usize, u64)> = stats.entries(id).iter().map(|e| (e.frame, e.value)).collect();
    assert_eq!(got, vec![(0, 800), (1, 48)]);
}
