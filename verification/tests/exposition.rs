use smartmeter_metrics::decimal::Dec;
use smartmeter_metrics::metrics::render_consumption;
use smartmeter_metrics::metrics::MetricKind;
use smartmeter_metrics::metrics::MetricsWriter;
use smartmeter_metrics::sml::ConsumptionData;

#[test]
fn exposition_format_concrete_scenario() {
    // total_consumption_wh = 12345.678, current_power_w = 250.0.
    let data = ConsumptionData {
        current_power_w: Dec::new(2500, -1),
        total_consumption_wh: Dec::new(12345678, -3),
    };
    let doc = render_consumption(&data);
    let expected = "# HELP smartmeter_consumption_wh_total The total consumption value in Wh\n\
                    # TYPE smartmeter_consumption_wh_total counter\n\
                    smartmeter_consumption_wh_total {} 12345.678\n\
                    \n\
                    # HELP smartmeter_power_w The current power in W\n\
                    # TYPE smartmeter_power_w gauge\n\
                    smartmeter_power_w {} 250.0\n";
    assert_eq!(doc, expected);
}

#[test]
fn kind_keywords() {
    assert_eq!(MetricKind::Gauge.as_str(), "gauge");
    assert_eq!(MetricKind::Counter.as_str(), "counter");
}

#[test]
fn single_block_has_no_separator_or_trailing_blank() {
    let mut w = MetricsWriter::new();
    w.start_metric(String::from("up"), "Whether the target is up", MetricKind::Gauge);
    w.write_value(Dec::new(1, 0), &Vec::new());
    assert_eq!(
        w.finalize(),
        "# HELP up Whether the target is up\n# TYPE up gauge\nup {} 1\n"
    );
}

#[test]
fn blank_line_separates_consecutive_blocks() {
    let mut w = MetricsWriter::new();
    w.start_metric(String::from("a_total"), "First", MetricKind::Counter);
    w.write_value(Dec::new(7, 0), &Vec::new());
    w.start_metric(String::from("b"), "Second", MetricKind::Gauge);
    w.write_value(Dec::new(0, -2), &Vec::new());
    assert_eq!(
        w.finalize(),
        "# HELP a_total First\n# TYPE a_total counter\na_total {} 7\n\n# HELP b Second\n# TYPE b gauge\nb {} 0.00\n"
    );
}

#[test]
fn labels_render_in_given_order() {
    let mut w = MetricsWriter::new();
    w.start_metric(String::from("m"), "Labeled", MetricKind::Gauge);
    let labels = vec![
        (String::from("node"), String::from("1")),
        (String::from("phase"), String::from("L2")),
    ];
    w.write_value(Dec::new(-5, -3), &labels);
    assert_eq!(
        w.finalize(),
        "# HELP m Labeled\n# TYPE m gauge\nm {node=\"1\",phase=\"L2\"} -0.005\n"
    );
}

#[test]
fn one_label_renders_without_comma() {
    let mut w = MetricsWriter::new();
    w.start_metric(String::from("m_one"), "One label", MetricKind::Counter);
    let labels = vec![(String::from("k"), String::from("v"))];
    w.write_value(Dec::new(3, 1), &labels);
    assert_eq!(
        w.finalize(),
        "# HELP m_one One label\n# TYPE m_one counter\nm_one {k=\"v\"} 30\n"
    );
}

#[test]
fn several_values_under_one_block() {
    let mut w = MetricsWriter::new();
    w.start_metric(String::from("m_multi"), "Multi", MetricKind::Gauge);
    w.write_value(Dec::new(1, 0), &Vec::new());
    w.write_value(Dec::new(2, 0), &Vec::new());
    assert_eq!(
        w.finalize(),
        "# HELP m_multi Multi\n# TYPE m_multi gauge\nm_multi {} 1\nm_multi {} 2\n"
    );
}
