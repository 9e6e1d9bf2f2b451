use jar_sentinel::detector::CheatDetector;
use jar_sentinel::fields::{parse_bool, parse_size_tenths, parse_usize, split_and_trim, trim};
use jar_sentinel::sync::{apply_refresh, database_from_rows, parse_record, parse_signature_table, RefreshOutcome, SyncError};
use jar_sentinel::text::decimal_text;

fn strings(items: &[&str]) -> Vec<String> {
    items.iter().map(|s| s.to_string()).collect()
}

#[test]
fn split_and_trim_lists() {
    assert_eq!(split_and_trim(" a; b ,|c ,"), strings(&["a", "b", "c"]));
    assert_eq!(split_and_trim(""), Vec::<String>::new());
    assert_eq!(split_and_trim("net/java/"), strings(&["net/java/"]));
}

#[test]
fn trim_unicode_whitespace() {
    assert_eq!(trim("\u{3000}\t x y \n"), "x y");
    assert_eq!(trim("   "), "");
}

#[test]
fn parse_bool_words() {
    assert!(parse_bool("1"));
    assert!(parse_bool("TRUE"));
    assert!(parse_bool("Yes"));
    assert!(parse_bool("y"));
    assert!(parse_bool("ДА"));
    assert!(!parse_bool("no"));
    assert!(!parse_bool(""));
}

#[test]
fn parse_numbers() {
    assert_eq!(parse_usize("3"), Some(3));
    assert_eq!(parse_usize("+12"), Some(12));
    assert_eq!(parse_usize("-1"), None);
    assert_eq!(parse_usize(""), None);
    assert_eq!(parse_usize("+"), None);
    assert_eq!(parse_usize("99999999999999999999999"), None);
    assert_eq!(parse_size_tenths("2867.2 KB"), Some(28672));
    assert_eq!(parse_size_tenths("42"), Some(420));
    assert_eq!(parse_size_tenths(".5"), Some(5));
    assert_eq!(parse_size_tenths("5."), Some(50));
    assert_eq!(parse_size_tenths("1.25"), Some(12));
    assert_eq!(parse_size_tenths("1.2.3"), None);
    assert_eq!(parse_size_tenths("."), None);
    assert_eq!(parse_size_tenths("abc"), None);
    assert_eq!(decimal_text(1234567), "1234567");
    assert_eq!(decimal_text(0), "0");
}

#[test]
fn parse_record_maps_headers() {
    let headers = strings(&["Name", "Directories", "Classes", "Sizes KB", "Strict", "Min Conditions", "Exclude Dirs", "Type", "Extra"]);
    let record = strings(&["Freecam", "net/xolt/freecam/; com/x/", "Freecam.class", "42, 74", "yes", "3", "org/apache/", "client", "12.5"]);
    let info = parse_record(&headers, &record);
    assert_eq!(info.description, "Freecam");
    assert_eq!(info.directories, strings(&["net/xolt/freecam/", "com/x/"]));
    assert_eq!(info.classes, strings(&["Freecam.class"]));
    assert_eq!(info.exclude_dirs, strings(&["org/apache/"]));
    assert_eq!(info.sizes_kb_tenths, vec![420, 740, 125]);
    assert!(info.strict_mode);
    assert_eq!(info.min_conditions, 3);
}

#[test]
fn parse_record_defaults_for_short_rows() {
    let headers = strings(&["dir", "min_conditions", "strict"]);
    let record = strings(&["a/b/"]);
    let info = parse_record(&headers, &record);
    assert_eq!(info.directories, strings(&["a/b/"]));
    assert_eq!(info.min_conditions, 2);
    assert!(!info.strict_mode);
    assert_eq!(info.description, "");
}

#[test]
fn table_rows_become_database() {
    let rows = vec![
        strings(&["code", "description", "dir", "class", "size"]),
        strings(&["xa", "Alpha", "a/b/", "A.class", "10"]),
        strings(&["xb", "", "", "", ""]),
        strings(&["xc", "", "c/d/", "", ""]),
        strings(&["", "", "e/", "", ""]),
        strings(&["xd", "Alpha", "z/", "", ""]),
    ];
    let d = database_from_rows(&rows);
    assert_eq!(d.len(), 3);
    let (k0, i0) = d.entry(0);
    assert_eq!(k0, "Alpha");
    assert_eq!(i0.directories, strings(&["z/"]));
    assert_eq!(d.entry(1).0, "xc");
    assert_eq!(d.entry(2).0, "entry_3");
}

#[test]
fn csv_text_becomes_database() {
    let text = "Cheat Name,Directories,Classes,Weight KB,Strict Mode,Min Conditions\n\
                Freecam, net/xolt/freecam/ ,freecam.class,42.0,no,2\n\
                DoomsDay,net/java/,i.class,,yes,\n";
    let d = parse_signature_table(text).expect("table");
    assert_eq!(d.len(), 2);
    let (k, info) = d.entry(0);
    assert_eq!(k, "Freecam");
    assert_eq!(info.directories, strings(&["net/xolt/freecam/"]));
    assert_eq!(info.sizes_kb_tenths, vec![420]);
    let (k, info) = d.entry(1);
    assert_eq!(k, "DoomsDay");
    assert!(info.strict_mode);
}

#[test]
fn failed_refresh_keeps_live_database() {
    let mut live = CheatDetector::new();
    let r = apply_refresh(&mut live, Err(SyncError::Transport("timeout".to_string())));
    assert_eq!(r, RefreshOutcome::Failed(SyncError::Transport("timeout".to_string())));
    assert_eq!(live.len(), 29);
    let r = apply_refresh(&mut live, Err(SyncError::MalformedTable));
    assert_eq!(r, RefreshOutcome::Failed(SyncError::MalformedTable));
    let fresh = database_from_rows(&vec![strings(&["dir"]), strings(&["a/"])]);
    let r = apply_refresh(&mut live, Ok(fresh));
    assert_eq!(r, RefreshOutcome::Updated(1));
    assert_eq!(live.len(), 1);
}

#[test]
fn csv_quoted_list_cells() {
    let text = "name,dir,class,min cond\nWide,\"a/b/, c/d/\",\"X.class|Y.class\",1\n";
    let d = parse_signature_table(text).expect("table");
    assert_eq!(d.len(), 1);
    let (k, info) = d.entry(0);
    assert_eq!(k, "Wide");
    assert_eq!(info.directories, strings(&["a/b/", "c/d/"]));
    assert_eq!(info.classes, strings(&["X.class", "Y.class"]));
    assert_eq!(info.min_conditions, 1);
}

#[test]
fn zero_required_signals_row_is_skipped() {
    let rows = vec![strings(&["dir", "min_conditions"]), strings(&["a/", "0"])];
    let d = database_from_rows(&rows);
    assert_eq!(d.len(), 0);
    let empty = parse_signature_table("").expect("table");
    assert_eq!(empty.len(), 0);
}
