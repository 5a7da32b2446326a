use vajra::reporting::equity_labels_json;

#[test]
fn equity_labels_start_then_entry_dates() {
    assert_eq!(equity_labels_json(&vec![]), r#"["Start"]"#);
    assert_eq!(
        equity_labels_json(&vec![1715856000, 1715817600 + 86400]),
        r#"["Start","2024-05-16","2024-05-17"]"#
    );
}
