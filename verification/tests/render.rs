use ethers_core::abi::{encode, Token};
use ethers_core::utils::hex;
use huff_report::record::{ReportKind, TestResult, TestStatus};
use huff_report::render::{
    count_passed, decoded_log, error_placeholder, heading_line, percent_passed, push_decoded_entry,
    push_list_entry, raw_log, record_header, render_decoded, render_list, render_table, summary,
    test_report, Report, GAS_WIDTH, NAME_WIDTH, TABLE_WIDTH,
};
use huff_report::payload::DecodeError;
use huff_report::style::{Line, Tint};

fn record(name: &str, status: TestStatus, gas: u64) -> TestResult {
    TestResult { name: name.to_string(), status, gas, return_data: None, logs: Vec::new() }
}

fn revert_payload(message: &str) -> String {
    let tail = encode(&[Token::String(message.to_string())]);
    format!("08c379a0{}", hex::encode(tail))
}

fn texts(lines: &[Line]) -> Vec<String> {
    lines.iter().map(|l| l.text()).collect()
}

fn two_records() -> Vec<TestResult> {
    let mut word = [0u8; 32];
    word[..2].copy_from_slice(b"ok");
    vec![
        record("testA", TestStatus::Success, 21000),
        TestResult {
            name: "testB".to_string(),
            status: TestStatus::Revert,
            gas: 5000,
            return_data: Some(revert_payload("oops")),
            logs: vec![(10, format!("32d5ab96{}", hex::encode(word)))],
        },
    ]
}

#[test]
fn status_labels_and_tints() {
    assert_eq!(TestStatus::Success.display_label(), "PASS");
    assert_eq!(TestStatus::Revert.display_label(), "REVERT");
    assert_eq!(TestStatus::Failure.display_label(), "FAIL");
    assert_eq!(TestStatus::Success.display_tint(), Tint::Green);
    assert_eq!(TestStatus::Revert.display_tint(), Tint::Red);
    assert_eq!(TestStatus::Failure.display_tint(), Tint::Red);
}

#[test]
fn widths_of_the_layout() {
    assert_eq!(NAME_WIDTH, 15);
    assert_eq!(GAS_WIDTH, 20);
    assert_eq!(TABLE_WIDTH, 120);
}

#[test]
fn passed_results_are_counted() {
    assert_eq!(count_passed(&Vec::new()), 0);
    let results = vec![
        record("a", TestStatus::Success, 1),
        record("b", TestStatus::Revert, 1),
        record("c", TestStatus::Success, 1),
        record("d", TestStatus::Failure, 1),
        record("e", TestStatus::Success, 1),
    ];
    assert_eq!(count_passed(&results), 3);
}

#[test]
fn percentage_is_rounded_down() {
    assert_eq!(percent_passed(3, 4), Some(75));
    assert_eq!(percent_passed(1, 3), Some(33));
    assert_eq!(percent_passed(2, 3), Some(66));
    assert_eq!(percent_passed(0, 5), Some(0));
    assert_eq!(percent_passed(5, 5), Some(100));
    assert_eq!(percent_passed(usize::MAX, usize::MAX), Some(100));
}

#[test]
fn percentage_of_nothing_is_none() {
    assert_eq!(percent_passed(0, 0), None);
}

#[test]
fn summary_of_three_in_four() {
    let results = vec![
        record("a", TestStatus::Success, 1),
        record("b", TestStatus::Success, 1),
        record("c", TestStatus::Revert, 1),
        record("d", TestStatus::Success, 1),
    ];
    let line = summary(&results, "1.0000s".to_string());
    assert_eq!(
        line.text(),
        "\u{279c} 3 tests passed, 1 tests failed (75%). \u{23f1} : 1.0000s"
    );
    let tints: Vec<Tint> = line.spans.iter().map(|s| s.tint).collect();
    assert_eq!(
        tints,
        vec![
            Tint::Plain,
            Tint::Green,
            Tint::Plain,
            Tint::Red,
            Tint::Plain,
            Tint::Yellow,
            Tint::Plain,
            Tint::Magenta
        ]
    );
    assert_eq!(line.spans[5].text, "75");
}

#[test]
fn summary_of_no_records_does_not_divide() {
    let line = summary(&Vec::new(), "12.0000ns".to_string());
    assert_eq!(line.text(), "\u{279c} 0 tests ran. \u{23f1} : 12.0000ns");
    assert_eq!(line.spans.len(), 2);
    assert_eq!(line.spans[1].tint, Tint::Magenta);
}

#[test]
fn header_line_is_padded() {
    let line = record_header(&record("testA", TestStatus::Success, 21000));
    assert_eq!(line.text(), "[PASS] testA           - Gas used: 21000               ");
    assert_eq!(
        line.text(),
        format!("[{0}] {1: <15} - {2} {3: <20}", "PASS", "testA", "Gas used:", 21000)
    );
    assert_eq!(line.spans[1].text, "PASS");
    assert_eq!(line.spans[1].tint, Tint::Green);
    assert_eq!(line.spans[3].text, "Gas used:");
    assert_eq!(line.spans[3].tint, Tint::Yellow);
    let line = record_header(&record("a_rather_long_test_name", TestStatus::Failure, u64::MAX));
    assert_eq!(line.text(), "[FAIL] a_rather_long_test_name - Gas used: 18446744073709551615");
    assert_eq!(line.spans[1].tint, Tint::Red);
}

#[test]
fn heading_is_a_branch_and_a_title() {
    let line = heading_line("LOGS");
    assert_eq!(line.text(), "\u{251c}\u{2500} LOGS");
    assert_eq!(line.spans[1].tint, Tint::Cyan);
}

#[test]
fn raw_log_line_shows_counter_and_data() {
    let line = raw_log(42, "abc", false);
    assert_eq!(line.text(), "\u{251c}\u{2500} [PC: 42]: 0xabc");
    assert_eq!(line.spans[1].tint, Tint::Magenta);
    assert_eq!(line.spans[3].text, "42");
    assert_eq!(line.spans[3].tint, Tint::Yellow);
    assert_eq!(raw_log(0, "", true).text(), "\u{2570}\u{2500} [PC: 0]: 0x");
}

#[test]
fn bare_record_has_no_sub_sections() {
    let results = vec![record("testA", TestStatus::Success, 21000)];
    let header = "[PASS] testA           - Gas used: 21000               ".to_string();
    assert_eq!(texts(&render_list(&results)), vec![header.clone()]);
    assert_eq!(texts(&render_decoded(&results)), vec![header]);
    let table = render_table(&results);
    let row = table.row(0).unwrap();
    let cells: Vec<String> = row.cell_iter().map(|c| c.content()).collect();
    assert_eq!(cells, vec!["testA", "None", "21000", "PASS"]);
}

#[test]
fn raw_list_shows_data_and_logs_untouched() {
    let results = vec![TestResult {
        name: "t".to_string(),
        status: TestStatus::Revert,
        gas: 7,
        return_data: Some("08c379a0ff".to_string()),
        logs: vec![(1, "aa".to_string()), (2, "0bb".to_string()), (3, "32d5ab966f6b".to_string())],
    }];
    assert_eq!(
        texts(&render_list(&results)),
        vec![
            "[REVERT] t               - Gas used: 7                   ",
            "\u{251c}\u{2500} RETURN DATA",
            "\u{251c}\u{2500} 08c379a0ff",
            "\u{251c}\u{2500} LOGS",
            "\u{251c}\u{2500} [PC: 1]: 0xaa",
            "\u{251c}\u{2500} [PC: 2]: 0x0bb",
            "\u{2570}\u{2500} [PC: 3]: 0x32d5ab966f6b",
        ]
    );
}

#[test]
fn raw_list_closes_with_the_data_where_no_logs_follow() {
    let mut result = record("t", TestStatus::Failure, 7);
    result.return_data = Some("abcd".to_string());
    let mut lines = Vec::new();
    push_list_entry(&mut lines, &result);
    assert_eq!(
        texts(&lines),
        vec![
            "[FAIL] t               - Gas used: 7                   ",
            "\u{251c}\u{2500} RETURN DATA",
            "\u{2570}\u{2500} abcd",
        ]
    );
}

#[test]
fn raw_list_with_one_log_marks_it_last() {
    let mut result = record("t", TestStatus::Success, 7);
    result.logs = vec![(9, "ab".to_string())];
    let mut lines = vec![heading_line("kept")];
    push_list_entry(&mut lines, &result);
    assert_eq!(
        texts(&lines),
        vec![
            "\u{251c}\u{2500} kept",
            "[PASS] t               - Gas used: 7                   ",
            "\u{251c}\u{2500} LOGS",
            "\u{2570}\u{2500} [PC: 9]: 0xab",
        ]
    );
}

#[test]
fn decoded_list_decodes_data_and_logs() {
    let results = vec![TestResult {
        name: "t".to_string(),
        status: TestStatus::Revert,
        gas: 7,
        return_data: Some(revert_payload("boom")),
        logs: vec![
            (1, "32d5ab966869".to_string()),
            (2, "abc".to_string()),
            (3, "0000".to_string()),
        ],
    }];
    let lines = render_decoded(&results);
    assert_eq!(
        texts(&lines),
        vec![
            "[REVERT] t               - Gas used: 7                   ",
            "\u{251c}\u{2500} boom",
            "\u{251c}\u{2500} hi",
            "\u{2502}  0x0abc",
            "\u{2570}\u{2500} 0x00",
        ]
    );
    assert_eq!(lines[1].spans[1].tint, Tint::Red);
    assert_eq!(lines[2].spans[1].tint, Tint::Cyan);
}

#[test]
fn decoded_list_without_selector_says_test_failed() {
    let mut result = record("t", TestStatus::Revert, 7);
    result.return_data = Some("deadbeef".to_string());
    let mut lines = Vec::new();
    push_decoded_entry(&mut lines, &result);
    assert_eq!(
        texts(&lines),
        vec![
            "[REVERT] t               - Gas used: 7                   ",
            "\u{2570}\u{2500} test failed",
        ]
    );
}

#[test]
fn decode_errors_stay_with_their_entry() {
    let results = vec![
        TestResult {
            name: "bad".to_string(),
            status: TestStatus::Revert,
            gas: 1,
            return_data: Some("08c379a0zz".to_string()),
            logs: vec![
                (1, "32d5ab96f".to_string()),
                (2, "32d5ab96ff".to_string()),
                (3, "32d5ab966f6b".to_string()),
            ],
        },
        TestResult {
            name: "worse".to_string(),
            status: TestStatus::Revert,
            gas: 2,
            return_data: Some("08c379a0".to_string()),
            logs: Vec::new(),
        },
        record("good", TestStatus::Success, 3),
    ];
    let lines = render_decoded(&results);
    assert_eq!(
        texts(&lines),
        vec![
            "[REVERT] bad             - Gas used: 1                   ",
            "\u{251c}\u{2500} <malformed hex>",
            "\u{251c}\u{2500} <malformed hex>",
            "\u{251c}\u{2500} <not a UTF-8 string>",
            "\u{2570}\u{2500} ok",
            "[REVERT] worse           - Gas used: 2                   ",
            "\u{2570}\u{2500} <not an ABI-encoded string>",
            "[PASS] good            - Gas used: 3                   ",
        ]
    );
    assert_eq!(lines[2].spans[1].tint, Tint::Red);
}

#[test]
fn placeholders_name_the_error() {
    assert_eq!(error_placeholder(DecodeError::MalformedHex), "<malformed hex>");
    assert_eq!(error_placeholder(DecodeError::AbiDecodeMismatch), "<not an ABI-encoded string>");
    assert_eq!(error_placeholder(DecodeError::InvalidFixedString), "<not a UTF-8 string>");
    assert_eq!(decoded_log("32d5ab96f", 0, true).text(), "\u{2570}\u{2500} <malformed hex>");
    assert_eq!(decoded_log("f", 0, true).text(), "\u{2570}\u{2500} 0x0f");
}

#[test]
fn table_has_header_and_one_row_per_record() {
    let mut results = two_records();
    results[1].return_data = Some("abcd".to_string());
    let table = render_table(&results);
    let header: Vec<String> = table.header().unwrap().cell_iter().map(|c| c.content()).collect();
    assert_eq!(header, vec!["Name", "Return Data", "Gas", "Status"]);
    let rows: Vec<Vec<String>> =
        table.row_iter().map(|r| r.cell_iter().map(|c| c.content()).collect()).collect();
    assert_eq!(
        rows,
        vec![vec!["testA", "None", "21000", "PASS"], vec!["testB", "abcd", "5000", "REVERT"]]
    );
    assert_eq!(table.width(), Some(120));
    let drawn = table.to_string();
    assert!(drawn.starts_with('\u{256d}'));
    assert!(drawn.contains("Return Data"));
    assert!(drawn.contains("testB"));
}

#[test]
fn empty_table_has_only_the_header() {
    let table = render_table(&Vec::new());
    assert_eq!(table.row_iter().count(), 0);
    assert_eq!(table.header().unwrap().cell_count(), 4);
}

#[test]
fn end_to_end_decoded_report() {
    let results = two_records();
    match test_report(&results, ReportKind::HuffTest, 1_500_000) {
        Report::Lines { lines, summary } => {
            assert_eq!(
                texts(&lines),
                vec![
                    "[PASS] testA           - Gas used: 21000               ",
                    "[REVERT] testB           - Gas used: 5000                ",
                    "\u{251c}\u{2500} oops",
                    "\u{2570}\u{2500} ok",
                ]
            );
            assert_eq!(
                summary.text(),
                "\u{279c} 1 tests passed, 1 tests failed (50%). \u{23f1} : 1.5000ms"
            );
            assert!(summary.text().contains("1 tests passed, 1 tests failed (50%)"));
        }
        _ => panic!("a list was asked for"),
    }
}

#[test]
fn list_report_carries_lines_and_summary() {
    let results = two_records();
    match test_report(&results, ReportKind::List, 2_000_000_000) {
        Report::Lines { lines, summary } => {
            assert_eq!(texts(&lines), texts(&render_list(&results)));
            assert_eq!(lines.len(), 6);
            assert_eq!(
                summary.text(),
                "\u{279c} 1 tests passed, 1 tests failed (50%). \u{23f1} : 2.0000s"
            );
        }
        _ => panic!("a list was asked for"),
    }
}

#[test]
fn table_report_carries_table_and_summary() {
    let results = two_records();
    match test_report(&results, ReportKind::Table, 0) {
        Report::Table { table, summary } => {
            assert_eq!(table.row_iter().count(), 2);
            assert_eq!(
                summary.text(),
                "\u{279c} 1 tests passed, 1 tests failed (50%). \u{23f1} : 0.0000ns"
            );
        }
        _ => panic!("a table was asked for"),
    }
}

#[test]
fn dump_has_no_summary() {
    assert!(matches!(test_report(&two_records(), ReportKind::JSON, 5), Report::Dump));
    assert!(matches!(test_report(&Vec::new(), ReportKind::JSON, 5), Report::Dump));
}

#[test]
fn empty_reports_still_close_with_a_summary() {
    for kind in [ReportKind::List, ReportKind::HuffTest] {
        match test_report(&Vec::new(), kind, 1_000) {
            Report::Lines { lines, summary } => {
                assert!(lines.is_empty());
                assert_eq!(summary.text(), "\u{279c} 0 tests ran. \u{23f1} : 1.0000\u{b5}s");
            }
            _ => panic!("a list was asked for"),
        }
    }
    match test_report(&Vec::new(), ReportKind::Table, 1_000) {
        Report::Table { table, summary } => {
            assert_eq!(table.row_iter().count(), 0);
            assert_eq!(summary.text(), "\u{279c} 0 tests ran. \u{23f1} : 1.0000\u{b5}s");
        }
        _ => panic!("a table was asked for"),
    }
}

#[test]
fn logs_keep_their_order() {
    let mut result = record("t", TestStatus::Success, 1);
    result.logs = (0..5u32).map(|i| (i, format!("a{i}"))).collect();
    let raw = render_list(&vec![result.clone()]);
    let shown: Vec<String> = raw[2..].iter().map(|l| l.spans[3].text.clone()).collect();
    assert_eq!(shown, vec!["0", "1", "2", "3", "4"]);
    let decoded = texts(&render_decoded(&vec![result]));
    assert_eq!(
        decoded[1..],
        [
            "\u{2502}  0xa0",
            "\u{2502}  0xa1",
            "\u{2502}  0xa2",
            "\u{2502}  0xa3",
            "\u{2570}\u{2500} 0xa4",
        ]
    );
}

#[test]
fn table_cells_are_styled_where_styling_is_on() {
    let results = vec![record("testA", TestStatus::Success, 21000)];
    let mut table = render_table(&results);
    table.force_no_tty();
    let bare = table.to_string();
    assert!(!bare.contains('\u{1b}'));
    assert!(bare.contains("testA"));
    assert!(bare.contains("None"));
    table.enforce_styling();
    let styled = table.to_string();
    assert!(styled.contains("\u{1b}["));
    assert!(styled.contains("testA"));
}
