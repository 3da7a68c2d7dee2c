use fevm_fan_curve::sensors::{
    find_hwmons_by_name, is_temp_input, max_reading, max_temp_in_hwmons, read_temp_millic,
    resolve_hwmons, GroupScan, SensorGroup, TempError, TempFile,
};

fn strings(items: &[&str]) -> Vec<String> {
    items.iter().map(|s| s.to_string()).collect()
}

fn group(path: &str, name: &str) -> SensorGroup {
    SensorGroup { path: path.to_string(), name: Some(name.to_string()) }
}

fn tree() -> Vec<SensorGroup> {
    vec![group("/sys/class/hwmon/hwmon0", "k10temp\n"), group("/sys/class/hwmon/hwmon1", "spd5118\n")]
}

fn file(name: &str, content: Option<&str>) -> TempFile {
    TempFile { name: name.to_string(), content: content.map(|s| s.to_string()) }
}

#[test]
fn resolves_the_one_matching_group() {
    assert_eq!(resolve_hwmons(&strings(&["k10temp"]), &tree()), strings(&["/sys/class/hwmon/hwmon0"]));
    assert_eq!(resolve_hwmons(&strings(&["spd5118"]), &tree()), strings(&["/sys/class/hwmon/hwmon1"]));
}

#[test]
fn unknown_name_resolves_to_nothing() {
    assert!(resolve_hwmons(&strings(&["nonexistent"]), &tree()).is_empty());
    assert!(resolve_hwmons(&strings(&[]), &tree()).is_empty());
    assert!(resolve_hwmons(&strings(&["k10temp"]), &vec![]).is_empty());
}

#[test]
fn names_match_exactly_after_trimming() {
    let groups = vec![
        group("/a", "  k10temp \t\r\n"),
        group("/b", "k10temp2"),
        group("/c", "K10TEMP"),
        group("/d", "k10 temp"),
        group("/e", "\u{a0}k10temp\u{3000}"),
        group("/f", ""),
    ];
    assert_eq!(find_hwmons_by_name(&groups, "k10temp"), strings(&["/a", "/e"]));
    assert_eq!(find_hwmons_by_name(&groups, ""), strings(&["/f"]));
    // The wanted name itself is not trimmed.
    assert!(find_hwmons_by_name(&groups, "k10temp ").is_empty());
}

#[test]
fn resolution_keeps_first_discovery_order_without_repeats() {
    let groups = vec![
        group("/h0", "spd5118"),
        group("/h1", "k10temp"),
        group("/h2", "spd5118"),
        group("/h1", "k10temp"),
    ];
    assert_eq!(
        resolve_hwmons(&strings(&["k10temp", "spd5118", "k10temp"]), &groups),
        strings(&["/h1", "/h0", "/h2"])
    );
    assert_eq!(
        resolve_hwmons(&strings(&["spd5118", "k10temp"]), &groups),
        strings(&["/h0", "/h2", "/h1"])
    );
}

#[test]
fn temp_input_names() {
    assert!(is_temp_input("temp1_input"));
    assert!(is_temp_input("temp_input"));
    assert!(is_temp_input("temp12_input"));
    assert!(!is_temp_input("temp1_max"));
    assert!(!is_temp_input("fan1_input"));
    assert!(!is_temp_input("temp1_input "));
    assert!(!is_temp_input("xtemp1_input"));
    assert!(!is_temp_input("temp"));
    assert!(!is_temp_input("_input"));
    assert!(!is_temp_input(""));
}

#[test]
fn readings_are_trimmed_decimal_integers() {
    assert_eq!(read_temp_millic("45000\n"), Some(45000));
    assert_eq!(read_temp_millic("  -12500 "), Some(-12500));
    assert_eq!(read_temp_millic("+5"), Some(5));
    assert_eq!(read_temp_millic("007"), Some(7));
    assert_eq!(read_temp_millic("2147483647"), Some(i32::MAX));
    assert_eq!(read_temp_millic("-2147483648"), Some(i32::MIN));
    assert_eq!(read_temp_millic("2147483648"), None);
    assert_eq!(read_temp_millic(""), None);
    assert_eq!(read_temp_millic("\n"), None);
    assert_eq!(read_temp_millic("-"), None);
    assert_eq!(read_temp_millic("45.5"), None);
    assert_eq!(read_temp_millic("45 000"), None);
    assert_eq!(read_temp_millic("abc"), None);
}

#[test]
fn max_reading_of_values() {
    assert_eq!(max_reading(&vec![]), None);
    assert_eq!(max_reading(&vec![5]), Some(5));
    assert_eq!(max_reading(&vec![3, 9, 9, -4]), Some(9));
    assert_eq!(max_reading(&vec![-3, -9]), Some(-3));
}

#[test]
fn max_temp_is_the_highest_valid_input_of_all_groups() {
    let scans = vec![
        GroupScan::Listed(vec![
            file("name", Some("k10temp\n")),
            file("temp1_input", Some("41000\n")),
            file("temp2_input", Some("65000\n")),
            file("temp3_input", None),
            file("temp4_input", Some("garbage")),
            file("temp1_max", Some("99000\n")),
            file("fan1_input", Some("88000\n")),
        ]),
        GroupScan::Listed(vec![file("temp1_input", Some("52250\n"))]),
    ];
    assert_eq!(max_temp_in_hwmons(&scans), Ok(65000));
}

#[test]
fn max_temp_without_any_valid_input_fails() {
    assert_eq!(max_temp_in_hwmons(&vec![]), Err(TempError::NoInputs));
    assert_eq!(max_temp_in_hwmons(&vec![GroupScan::Listed(vec![])]), Err(TempError::NoInputs));
    let scans = vec![GroupScan::Listed(vec![
        file("temp1_input", None),
        file("temp2_input", Some("x")),
        file("temp1_label", Some("50000")),
    ])];
    assert_eq!(max_temp_in_hwmons(&scans), Err(TempError::NoInputs));
}

#[test]
fn max_temp_fails_when_a_group_cannot_be_listed() {
    let scans = vec![
        GroupScan::Listed(vec![file("temp1_input", Some("41000"))]),
        GroupScan::Unreadable,
    ];
    assert_eq!(max_temp_in_hwmons(&scans), Err(TempError::ScanFailed));
    assert_eq!(max_temp_in_hwmons(&vec![GroupScan::Unreadable]), Err(TempError::ScanFailed));
}

#[test]
fn group_without_readable_name_matches_nothing() {
    let groups = vec![
        SensorGroup { path: "/h0".to_string(), name: None },
        group("/h1", "k10temp\n"),
    ];
    assert_eq!(resolve_hwmons(&strings(&["k10temp"]), &groups), strings(&["/h1"]));
    assert!(find_hwmons_by_name(&groups, "").is_empty());
}
