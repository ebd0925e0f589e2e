use log_bench::{
    average_label, comparison_chart, mean_nanos, single_chart, ChartError, Y_CEILING_NANOS,
};

#[test]
fn average_label_of_fixed_series() {
    let series: Vec<u128> = vec![100, 200, 150];
    assert_eq!(mean_nanos(&series), Ok(150));
    assert_eq!(average_label("rdbms", &series).unwrap(), "rdbms avg 150ns");
}

#[test]
fn mean_rounds_down() {
    assert_eq!(mean_nanos(&vec![1, 2]), Ok(1));
    assert_eq!(mean_nanos(&vec![7]), Ok(7));
}

#[test]
fn mean_of_empty_series_is_an_error() {
    assert_eq!(mean_nanos(&vec![]), Err(ChartError::EmptySeries));
    assert_eq!(average_label("x", &vec![]), Err(ChartError::EmptySeries));
}

#[test]
fn mean_of_overflowing_series_is_an_error() {
    assert_eq!(mean_nanos(&vec![u128::MAX, 1]), Err(ChartError::SumOverflow));
    assert_eq!(mean_nanos(&vec![u128::MAX]), Ok(u128::MAX));
}

#[test]
fn comparison_chart_of_fixed_series() {
    let rdbms: Vec<u128> = vec![100, 200, 150];
    let file: Vec<u128> = vec![10, 20];
    let other: Vec<u128> = vec![5, 5, 5, 9];
    let chart = comparison_chart(&rdbms, &file, &other, "sqlite_sync_off").unwrap();
    assert_eq!(chart.file_name, "images/rdbms_file_sqlite_sync_off.png");
    assert_eq!(chart.caption, "rdbms vs file vs  rdbms sqlite_sync_off for logging");
    assert_eq!(chart.x_end, 3);
    assert_eq!(chart.y_ceiling, 500000);
    assert_eq!(chart.baseline_label, "rdbms avg 150ns");
    assert_eq!(chart.other_label, "sqlite_sync_off avg 6ns");
    assert_eq!(chart.file_label, "files avg 15ns");
}

#[test]
fn comparison_chart_with_empty_other_series_errors() {
    let rdbms: Vec<u128> = vec![100, 200, 150];
    let file: Vec<u128> = vec![10];
    let other: Vec<u128> = vec![];
    let r = comparison_chart(&rdbms, &file, &other, "results_rdbms_no_id");
    assert_eq!(r.unwrap_err(), ChartError::EmptySeries);
}

#[test]
fn comparison_chart_reports_first_failing_series() {
    let big: Vec<u128> = vec![u128::MAX, u128::MAX];
    let empty: Vec<u128> = vec![];
    let ok: Vec<u128> = vec![3];
    assert_eq!(comparison_chart(&big, &empty, &empty, "o").unwrap_err(), ChartError::SumOverflow);
    assert_eq!(comparison_chart(&ok, &big, &empty, "o").unwrap_err(), ChartError::EmptySeries);
    assert_eq!(comparison_chart(&ok, &big, &ok, "o").unwrap_err(), ChartError::SumOverflow);
}

#[test]
fn single_chart_layout() {
    let series: Vec<u128> = vec![1, 2, 3, 4];
    let chart = single_chart(&series, "rdbms");
    assert_eq!(chart.file_name, "images/rdbms.png");
    assert_eq!(chart.caption, "rdbms");
    assert_eq!(chart.x_end, 4);
    assert_eq!(chart.y_ceiling, Y_CEILING_NANOS);
    assert_eq!(single_chart(&vec![], "file").x_end, 0);
}
