use metrics_summary::analysis::{BasicSummary, MetricsSummary, NpaSummary, NpmSummary, WmcSummary};
use metrics_summary::format::mean_value;
use metrics_summary::metrics::{Abc, BasicMetric, Halstead, JsonData, Loc, Metrics, MetricValues,
    Mi, Nom, Npa, Npm, Wmc};

fn report(metrics: Option<Metrics>) -> JsonData {
    JsonData {
        name: "file".to_string(),
        start_line: 1,
        end_line: 10,
        kind: "unit".to_string(),
        spaces: Vec::new(),
        metrics,
    }
}

fn loc_with_sloc(sloc: i64) -> Metrics {
    Metrics {
        loc: Some(Loc { sloc: Some(sloc), ..Default::default() }),
        ..Default::default()
    }
}

#[test]
fn empty_input_yields_all_absent() {
    let summary = MetricsSummary::summarize(Vec::new());
    assert!(summary.nargs.is_none());
    assert!(summary.nexits.is_none());
    assert!(summary.cognitive.is_none());
    assert!(summary.cyclomatic.is_none());
    assert!(summary.halstead.is_none());
    assert!(summary.loc.is_none());
    assert!(summary.nom.is_none());
    assert!(summary.mi.is_none());
    assert!(summary.abc.is_none());
}

#[test]
fn report_without_metrics_changes_nothing() {
    let summary = MetricsSummary::summarize(vec![report(None), report(None)]);
    assert_eq!(summary, MetricsSummary::summarize(Vec::new()));
}

#[test]
fn single_report_is_copied_exactly() {
    // A category present in exactly one report folds to that report's
    // values with a count of one.
    let m = Metrics {
        nexits: Some(BasicMetric {
            sum: Some(300),
            average: Some(150),
            min: Some(100),
            max: Some(200),
        }),
        ..Default::default()
    };
    let summary = MetricsSummary::summarize(vec![report(None), report(Some(m))]);
    let nexits = summary.nexits.unwrap();
    assert_eq!(nexits.sum, 300);
    assert_eq!(nexits.average, 150);
    assert_eq!(nexits.min, 100);
    assert_eq!(nexits.max, 200);
    assert_eq!(nexits.count, 1);
    assert!(summary.loc.is_none());
}

#[test]
fn spec_loc_example_sums_and_counts() {
    // Three reports carrying only a source-line count of 10, 20 and 30
    // (in hundredths: 1000, 2000, 3000) fold to a total of 60 over three
    // contributors; a fourth report without the category changes nothing.
    let reports = vec![
        report(Some(loc_with_sloc(1000))),
        report(Some(loc_with_sloc(2000))),
        report(Some(loc_with_sloc(3000))),
    ];
    let summary = MetricsSummary::summarize(reports);
    let loc = summary.loc.unwrap();
    assert_eq!(loc.sloc, 6000);
    assert_eq!(loc.count, 3);

    let reports = vec![
        report(Some(loc_with_sloc(1000))),
        report(Some(loc_with_sloc(2000))),
        report(Some(loc_with_sloc(3000))),
        report(Some(Metrics::default())),
    ];
    let summary = MetricsSummary::summarize(reports);
    let loc = summary.loc.unwrap();
    assert_eq!(loc.sloc, 6000);
    assert_eq!(loc.count, 3);
}

#[test]
fn order_independence_on_permutations() {
    let a = || {
        report(Some(Metrics {
            nexits: Some(BasicMetric {
                sum: Some(100),
                average: Some(100),
                min: Some(50),
                max: Some(150),
            }),
            loc: Some(Loc { sloc: Some(1000), sloc_min: Some(10), ..Default::default() }),
            ..Default::default()
        }))
    };
    let b = || {
        report(Some(Metrics {
            nexits: Some(BasicMetric { sum: Some(200), average: None, min: None, max: Some(400) }),
            mi: Some(Mi { mi_original: Some(7500), ..Default::default() }),
            ..Default::default()
        }))
    };
    let c = || report(Some(loc_with_sloc(500)));
    let fold1 = MetricsSummary::summarize(vec![a(), b(), c()]);
    let fold2 = MetricsSummary::summarize(vec![c(), a(), b()]);
    let fold3 = MetricsSummary::summarize(vec![b(), c(), a()]);
    assert_eq!(fold1, fold2);
    assert_eq!(fold1, fold3);
}

#[test]
fn counts_rise_by_one_per_supplying_report() {
    let with_mi = || {
        report(Some(Metrics {
            mi: Some(Mi { mi_original: Some(100), ..Default::default() }),
            ..Default::default()
        }))
    };
    let base = MetricsSummary::summarize(vec![with_mi(), with_mi()]);
    assert_eq!(base.mi.unwrap().count, 2);
    assert!(base.loc.is_none());

    // One more report that supplies only the lines-of-code category:
    // its count appears at one and the other counts stay put.
    let extended = MetricsSummary::summarize(vec![
        with_mi(),
        with_mi(),
        report(Some(loc_with_sloc(100))),
    ]);
    assert_eq!(extended.mi.unwrap().count, 2);
    assert_eq!(extended.loc.unwrap().count, 1);
}

#[test]
fn mean_fields_hold_sums_and_quotient_is_the_mean() {
    // Per-file averages 1.00, 2.00 and 6.00 give a running mean of 3.00.
    let avg = |v: i64| {
        report(Some(Metrics {
            nexits: Some(BasicMetric {
                sum: None,
                average: Some(v),
                min: None,
                max: None,
            }),
            ..Default::default()
        }))
    };
    let summary = MetricsSummary::summarize(vec![avg(100), avg(200), avg(600)]);
    let nexits = summary.nexits.unwrap();
    assert_eq!(nexits.average, 900);
    assert_eq!(nexits.count, 3);
    assert_eq!(mean_value(nexits.average, nexits.count), 300);
}

#[test]
fn extrema_ignore_reports_that_omit_them() {
    let basic = |min: Option<i64>, max: Option<i64>| {
        report(Some(Metrics {
            cyclomatic: Some(BasicMetric { sum: None, average: None, min, max }),
            ..Default::default()
        }))
    };
    let summary = MetricsSummary::summarize(vec![
        basic(Some(500), None),
        basic(None, Some(900)),
        basic(Some(300), Some(700)),
    ]);
    let cyclomatic = summary.cyclomatic.unwrap();
    assert_eq!(cyclomatic.min, 300);
    assert_eq!(cyclomatic.max, 900);
    assert_eq!(cyclomatic.count, 3);
}

#[test]
fn a_true_minimum_of_zero_survives() {
    // A later per-file minimum of zero must lower the running minimum;
    // the extremum identities are the integer limits, never zero.
    let with_min = |v: i64| {
        report(Some(Metrics {
            loc: Some(Loc { sloc_min: Some(v), ..Default::default() }),
            ..Default::default()
        }))
    };
    let summary = MetricsSummary::summarize(vec![with_min(500), with_min(0)]);
    assert_eq!(summary.loc.unwrap().sloc_min, 0);
}

#[test]
fn missing_summed_fields_contribute_zero() {
    let m1 = Metrics {
        abc: Some(Abc {
            assignments: Some(400),
            branches: None,
            conditions: Some(100),
            ..Default::default()
        }),
        ..Default::default()
    };
    let m2 = Metrics {
        abc: Some(Abc {
            assignments: None,
            branches: Some(200),
            conditions: Some(300),
            ..Default::default()
        }),
        ..Default::default()
    };
    let summary = MetricsSummary::summarize(vec![report(Some(m1)), report(Some(m2))]);
    let abc = summary.abc.unwrap();
    assert_eq!(abc.assignments, 400);
    assert_eq!(abc.branches, 200);
    assert_eq!(abc.conditions, 400);
    assert_eq!(abc.count, 2);
}

#[test]
fn halstead_measures_are_summed() {
    let h = |n1: i64, volume: i64| {
        report(Some(Metrics {
            halstead: Some(Halstead {
                n1: Some(n1),
                volume: Some(volume),
                ..Default::default()
            }),
            ..Default::default()
        }))
    };
    let summary = MetricsSummary::summarize(vec![h(100, 5000), h(300, 2500)]);
    let halstead = summary.halstead.unwrap();
    assert_eq!(halstead.n1, 400);
    assert_eq!(halstead.volume, 7500);
    assert_eq!(halstead.n2, 0);
    assert_eq!(halstead.count, 2);
}

#[test]
fn nargs_tracks_totals_means_and_extrema() {
    let mv = |total: i64, average: i64, fmin: i64, fmax: i64| {
        report(Some(Metrics {
            nargs: Some(MetricValues {
                total: Some(total),
                average: Some(average),
                functions_min: Some(fmin),
                functions_max: Some(fmax),
                ..Default::default()
            }),
            ..Default::default()
        }))
    };
    let summary = MetricsSummary::summarize(vec![mv(300, 100, 100, 400), mv(500, 300, 50, 800)]);
    let nargs = summary.nargs.unwrap();
    assert_eq!(nargs.total, Some(800));
    assert_eq!(nargs.average, Some(400));
    assert_eq!(mean_value(nargs.average.unwrap(), nargs.count), 200);
    assert_eq!(nargs.functions_min, Some(50));
    assert_eq!(nargs.functions_max, Some(800));
    assert_eq!(nargs.total_functions, Some(0));
    assert_eq!(nargs.count, 2);
}

#[test]
fn nom_and_mi_are_summed() {
    let m = Metrics {
        nom: Some(Nom {
            functions: Some(700),
            closures: Some(300),
            total: Some(1000),
            ..Default::default()
        }),
        mi: Some(Mi {
            mi_original: Some(8000),
            mi_sei: Some(6000),
            mi_visual_studio: Some(9000),
        }),
        ..Default::default()
    };
    let summary = MetricsSummary::summarize(vec![report(Some(m.clone())), report(Some(m))]);
    let nom = summary.nom.unwrap();
    assert_eq!(nom.functions, 1400);
    assert_eq!(nom.closures, 600);
    assert_eq!(nom.total, 2000);
    assert_eq!(nom.count, 2);
    let mi = summary.mi.unwrap();
    assert_eq!(mi.mi_original, 16000);
    assert_eq!(mi.mi_sei, 12000);
    assert_eq!(mi.mi_visual_studio, 18000);
    assert_eq!(mi.count, 2);
}

#[test]
fn class_family_merges_accumulate() {
    let wmc = WmcSummary::merge(
        None,
        &Some(Wmc { classes: Some(200), interfaces: Some(100), total: Some(300) }),
    )
    .unwrap();
    let wmc = WmcSummary::merge(
        Some(wmc),
        &Some(Wmc { classes: Some(100), interfaces: None, total: Some(100) }),
    )
    .unwrap();
    assert_eq!(wmc.classes, 300);
    assert_eq!(wmc.interfaces, 100);
    assert_eq!(wmc.total, 400);
    assert_eq!(wmc.count, 2);

    let npm = NpmSummary::merge(
        None,
        &Some(Npm {
            classes: Some(500),
            class_methods: Some(400),
            total: Some(900),
            ..Default::default()
        }),
    )
    .unwrap();
    assert_eq!(npm.classes, 500);
    assert_eq!(npm.class_methods, 400);
    assert_eq!(npm.total, 900);
    assert_eq!(npm.count, 1);

    let npa = NpaSummary::merge(
        None,
        &Some(Npa { classes: Some(100), interfaces: Some(200), ..Default::default() }),
    );
    let npa = NpaSummary::merge(npa, &None).unwrap();
    assert_eq!(npa.classes, 100);
    assert_eq!(npa.interfaces, 200);
    assert_eq!(npa.total, 0);
    assert_eq!(npa.count, 1);
}

#[test]
fn merge_with_absent_value_leaves_accumulator_untouched() {
    let acc = BasicSummary::merge(
        None,
        &Some(BasicMetric { sum: Some(100), average: None, min: None, max: None }),
    );
    let same = BasicSummary::merge(acc, &None);
    assert_eq!(acc, same);
    assert_eq!(BasicSummary::merge(None, &None), None);
}
