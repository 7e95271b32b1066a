use cyclebench::errors::MeasureError;
use cyclebench::report::{
    base_name_start, header_line, render_report, u64_to_string, Measurement,
};

#[test]
fn display_name_is_final_path_component() {
    let path = "test_binarys/blinky";
    let cut = base_name_start(path);
    assert_eq!(&path[cut..], "blinky");
    assert_eq!(base_name_start("blinky"), 0);
    let nested = "a/b/c";
    assert_eq!(&nested[base_name_start(nested)..], "c");
    let trailing = "a/b/";
    assert_eq!(&trailing[base_name_start(trailing)..], "");
}

#[test]
fn header_is_exact() {
    assert_eq!(header_line(), "name\t\thw\tsymex");
}

#[test]
fn decimal_rendering() {
    assert_eq!(u64_to_string(0), "0");
    assert_eq!(u64_to_string(7), "7");
    assert_eq!(u64_to_string(10), "10");
    assert_eq!(u64_to_string(255), "255");
    assert_eq!(u64_to_string(1785), "1785");
    assert_eq!(u64_to_string(u64::MAX), "18446744073709551615");
}

#[test]
fn row_has_three_tab_separated_fields() {
    let m = Measurement::new(String::from("blinky"), 994, 1785);
    let row = m.render();
    assert_eq!(row, "blinky\t994\t1785");
    let fields: Vec<&str> = row.split('\t').collect();
    assert_eq!(fields, vec!["blinky", "994", "1785"]);
}

#[test]
fn empty_corpus_renders_header_only() {
    // An empty corpus is not an error: the report is exactly one
    // line, the header.
    let records: Vec<Measurement> = Vec::new();
    let lines = render_report(&records);
    assert_eq!(lines, vec![String::from("name\t\thw\tsymex")]);
}

#[test]
fn report_rows_follow_record_order() {
    // Row order is corpus enumeration order, not name or value
    // order.
    let records = vec![
        Measurement::new(String::from("zeta"), 5, 1),
        Measurement::new(String::from("alpha"), 9_999_999, 2),
        Measurement::new(String::from("mid"), 1, 3),
    ];
    let lines = render_report(&records);
    assert_eq!(
        lines,
        vec![
            String::from("name\t\thw\tsymex"),
            String::from("zeta\t5\t1"),
            String::from("alpha\t9999999\t2"),
            String::from("mid\t1\t3"),
        ]
    );
}

#[test]
fn error_messages_name_the_stage() {
    assert_eq!(MeasureError::Attach.message(), "could not attach to the target");
    assert_eq!(MeasureError::Flash.message(), "could not flash the artifact image");
    assert_eq!(
        MeasureError::Timeout.message(),
        "core did not halt at a synchronization point"
    );
    assert_eq!(
        MeasureError::RegisterRead.message(),
        "could not read the cycle counter register"
    );
    assert_eq!(
        MeasureError::Probe.message(),
        "probe failed an execution-control command"
    );
    assert_eq!(
        MeasureError::SymbolicExecution.message(),
        "symbolic exploration of the entry symbol failed"
    );
    assert_eq!(MeasureError::Calibration.message(), "negative corrected cycle count");
}
