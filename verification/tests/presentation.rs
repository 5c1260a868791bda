use metrics_summary::analysis::{BasicSummary, MetricsSummary};
use metrics_summary::format::{format_count, format_fixed, mean_value, u64_to_string};
use metrics_summary::metrics::{BasicMetric, JsonData, Metrics};
use metrics_summary::navigator::FileNavigator;
use metrics_summary::present::create_summary_table;

fn report(metrics: Option<Metrics>) -> JsonData {
    JsonData { metrics, ..Default::default() }
}

#[test]
fn fixed_point_rendering_is_two_decimals() {
    assert_eq!(format_fixed(6000), "60.00");
    assert_eq!(format_fixed(0), "0.00");
    assert_eq!(format_fixed(5), "0.05");
    assert_eq!(format_fixed(50), "0.50");
    assert_eq!(format_fixed(-150), "-1.50");
    assert_eq!(format_fixed(-5), "-0.05");
    assert_eq!(format_fixed(123456), "1234.56");
}

#[test]
fn count_rendering_is_plain_decimal() {
    assert_eq!(format_count(0), "0");
    assert_eq!(format_count(42), "42");
    assert_eq!(format_count(1000), "1000");
    assert_eq!(u64_to_string(90210), "90210");
}

#[test]
fn mean_value_truncates_toward_zero() {
    assert_eq!(mean_value(900, 3), 300);
    assert_eq!(mean_value(1000, 3), 333);
    assert_eq!(mean_value(-1000, 3), -333);
    assert_eq!(mean_value(7, 0), 0);
}

#[test]
fn basic_details_rows_are_labeled_and_formatted() {
    let m = Metrics {
        cognitive: Some(BasicMetric {
            sum: Some(1250),
            average: Some(625),
            min: Some(100),
            max: Some(525),
        }),
        ..Default::default()
    };
    let summary = MetricsSummary::summarize(vec![report(Some(m))]);
    let rows = summary.cognitive.unwrap().details();
    let expect = vec![
        ("Sum", "12.50"),
        ("Average", "6.25"),
        ("Min", "1.00"),
        ("Max", "5.25"),
        ("Count", "1"),
    ];
    assert_eq!(rows.len(), expect.len());
    for (row, (label, value)) in rows.iter().zip(expect.iter()) {
        assert_eq!(row.0, *label);
        assert_eq!(row.1, *value);
    }
}

#[test]
fn table_of_empty_summary_marks_every_category_unavailable() {
    let summary = MetricsSummary::summarize(Vec::new());
    let rows = create_summary_table(summary);
    let titles = vec![
        "NArgs",
        "NExits",
        "Cognitive Complexity",
        "Cyclomatic Complexity",
        "Halstead Metrics",
        "Lines of Code",
        "Number of Methods",
        "Maintainability Index",
        "ABC Complexity",
    ];
    assert_eq!(rows.len(), titles.len());
    for (row, title) in rows.iter().zip(titles.iter()) {
        assert_eq!(row.0, *title);
        assert_eq!(row.1, "N/A");
    }
}

#[test]
fn table_expands_present_categories() {
    let m = Metrics {
        nexits: Some(BasicMetric {
            sum: Some(400),
            average: Some(200),
            min: Some(100),
            max: Some(300),
        }),
        ..Default::default()
    };
    let summary = MetricsSummary::summarize(vec![report(Some(m))]);
    let rows = create_summary_table(summary);
    // NArgs absent, then the exit-count header and its five rows.
    assert_eq!(rows[0], ("NArgs".to_string(), "N/A".to_string()));
    assert_eq!(rows[1], ("NExits".to_string(), "".to_string()));
    assert_eq!(rows[2], ("Sum".to_string(), "4.00".to_string()));
    assert_eq!(rows[3], ("Average".to_string(), "2.00".to_string()));
    assert_eq!(rows[4], ("Min".to_string(), "1.00".to_string()));
    assert_eq!(rows[5], ("Max".to_string(), "3.00".to_string()));
    assert_eq!(rows[6], ("Count".to_string(), "1".to_string()));
    assert_eq!(rows[7], ("Cognitive Complexity".to_string(), "N/A".to_string()));
    // Nine categories: one absent row each for the seven others, plus the
    // six rows of the present one and the first absent row.
    assert_eq!(rows.len(), 9 - 1 + 6);
}

#[test]
fn mean_rows_divide_by_the_count() {
    let avg = |v: i64| {
        report(Some(Metrics {
            nexits: Some(BasicMetric { sum: None, average: Some(v), min: None, max: None }),
            ..Default::default()
        }))
    };
    let summary = MetricsSummary::summarize(vec![avg(100), avg(200), avg(600)]);
    let rows = summary.nexits.unwrap().details();
    assert_eq!(rows[1].0, "Average");
    assert_eq!(rows[1].1, "3.00");
}

#[test]
fn navigator_moves_within_bounds() {
    let entries = vec!["a.json".to_string(), "b.json".to_string(), "c.json".to_string()];
    let mut nav = FileNavigator::new(entries);
    assert_eq!(nav.selected(), Some(&"a.json".to_string()));
    nav.previous();
    assert_eq!(nav.selected_index, 0);
    nav.next();
    nav.next();
    assert_eq!(nav.selected(), Some(&"c.json".to_string()));
    nav.next();
    assert_eq!(nav.selected_index, 2);
    nav.previous();
    assert_eq!(nav.selected(), Some(&"b.json".to_string()));
}

#[test]
fn navigator_over_empty_listing_selects_nothing() {
    let mut nav = FileNavigator::new(Vec::new());
    assert_eq!(nav.selected(), None);
    nav.next();
    nav.previous();
    assert_eq!(nav.selected_index, 0);
    assert_eq!(nav.selected(), None);
}
