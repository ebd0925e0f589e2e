use log_bench::{insert_sql, log_line, setup_sql, Backend, Run, Step, PROGRESS_INTERVAL};

const BACKENDS: [Backend; 4] = [
    Backend::FlatFile,
    Backend::RelationalWithId,
    Backend::RelationalNoId,
    Backend::EmbeddedUnsynced,
];

/// Drives a run to its end with the given latencies, counting the records
/// that the store would hold.
fn drive(backend: Backend, iterations: usize, latency: u128) -> (Vec<u128>, usize) {
    let mut run = Run::new(backend, iterations);
    let mut records: usize = 42;
    loop {
        match run.next_step() {
            Step::Prepare => {
                records = 0;
                run.mark_prepared();
            }
            Step::Insert => {
                records += 1;
                run.record(latency);
            }
            Step::Done => break,
        }
    }
    (run.finish(), records)
}

#[test]
fn every_backend_returns_one_duration_per_iteration() {
    for backend in BACKENDS {
        for n in [0usize, 1, 3, 17] {
            let (results, _) = drive(backend, n, 5);
            assert_eq!(results.len(), n);
        }
    }
}

#[test]
fn durations_are_kept_in_order() {
    let mut run = Run::new(Backend::RelationalNoId, 3);
    assert_eq!(run.next_step(), Step::Prepare);
    run.mark_prepared();
    for d in [30u128, 10, 20] {
        assert_eq!(run.next_step(), Step::Insert);
        run.record(d);
    }
    assert_eq!(run.next_step(), Step::Done);
    assert_eq!(run.finish(), vec![30, 10, 20]);
}

#[test]
fn zero_iterations_give_empty_sequence() {
    let mut run = Run::new(Backend::FlatFile, 0);
    assert_eq!(run.iterations(), 0);
    assert_eq!(run.backend(), Backend::FlatFile);
    assert_eq!(run.next_step(), Step::Prepare);
    run.mark_prepared();
    assert_eq!(run.next_step(), Step::Done);
    assert!(run.finish().is_empty());
}

#[test]
fn progress_is_due_every_ten_thousand_records() {
    assert_eq!(PROGRESS_INTERVAL, 10000);
    let mut run = Run::new(Backend::EmbeddedUnsynced, 10002);
    run.mark_prepared();
    let mut due = vec![];
    while run.next_step() == Step::Insert {
        if let Some(i) = run.record(1) {
            due.push(i);
        }
    }
    assert_eq!(due, vec![0, 10000]);
}

#[test]
fn relational_table_holds_one_row_per_iteration() {
    for backend in [Backend::RelationalWithId, Backend::RelationalNoId] {
        let (results, rows) = drive(backend, 4, 9);
        assert_eq!(rows, 4);
        assert_eq!(results.len(), 4);
        assert!(setup_sql(backend).unwrap().contains("DELETE FROM log_table;"));
    }
}

#[test]
fn three_log_records() {
    let mut run = Run::new(Backend::FlatFile, 3);
    let mut file = String::from("stale contents\n");
    let mut stamp: u128 = 1_700_000_000_000_000_000;
    while run.next_step() != Step::Done {
        match run.next_step() {
            Step::Prepare => {
                file.clear();
                run.mark_prepared();
            }
            _ => {
                file.push_str(&log_line(stamp));
                stamp += 1234;
                run.record(800);
            }
        }
    }
    let lines: Vec<&str> = file.lines().collect();
    assert_eq!(lines.len(), 3);
    for line in lines {
        let digits = line.strip_prefix("user made a request|").unwrap();
        assert!(!digits.is_empty());
        assert!(digits.bytes().all(|b| b.is_ascii_digit()));
    }
}

#[test]
fn log_line_holds_the_timestamp() {
    assert_eq!(log_line(0), "user made a request|0\n");
    assert_eq!(
        log_line(1_700_000_000_123_456_789),
        "user made a request|1700000000123456789\n"
    );
}

#[test]
fn setup_statements_per_backend() {
    assert_eq!(setup_sql(Backend::FlatFile), None);
    assert!(setup_sql(Backend::RelationalWithId).unwrap().contains("SERIAL PRIMARY KEY"));
    assert!(!setup_sql(Backend::RelationalNoId).unwrap().contains("SERIAL"));
    assert!(setup_sql(Backend::EmbeddedUnsynced).unwrap().contains("PRAGMA synchronous=OFF;"));
}

#[test]
fn insert_statements_per_backend() {
    assert_eq!(insert_sql(Backend::FlatFile, 1), None);
    let server_side = "INSERT INTO log_table (text, time)  VALUES ('user made a request', EXTRACT(EPOCH FROM (CURRENT_TIMESTAMP AT TIME ZONE 'UTC')));";
    assert_eq!(insert_sql(Backend::RelationalWithId, 1).unwrap(), server_side);
    assert_eq!(insert_sql(Backend::RelationalNoId, 99).unwrap(), server_side);
    assert_eq!(
        insert_sql(Backend::EmbeddedUnsynced, 1_700_000_000).unwrap(),
        "INSERT INTO log_table (text, time)  VALUES ('user made a request', 1700000000);"
    );
}
