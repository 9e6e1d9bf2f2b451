use jar_sentinel::archive::{is_archive_candidate, ArchiveSnapshot};
use jar_sentinel::detector::CheatDetector;
use jar_sentinel::signature::{check_weight_match, CheatInfo, SignalSet};

fn strings(items: &[&str]) -> Vec<String> {
    items.iter().map(|s| s.to_string()).collect()
}

fn freecam() -> CheatInfo {
    CheatInfo {
        directories: strings(&["net/xolt/freecam/"]),
        classes: strings(&["freecam.class"]),
        exclude_dirs: Vec::new(),
        sizes_kb_tenths: vec![420],
        description: "Freecam".to_string(),
        strict_mode: false,
        min_conditions: 2,
    }
}

fn doomsday() -> CheatInfo {
    CheatInfo {
        directories: strings(&["net/java/"]),
        classes: strings(&["i.class"]),
        exclude_dirs: strings(&["org/apache/", "com/google/", "javax/"]),
        sizes_kb_tenths: Vec::new(),
        description: "DoomsDay".to_string(),
        strict_mode: true,
        min_conditions: 2,
    }
}

fn detector_with(name: &str, info: CheatInfo) -> CheatDetector {
    let mut d = CheatDetector::empty();
    d.insert(name.to_string(), info);
    d
}

fn snapshot(names: &[&str], size: u64) -> ArchiveSnapshot {
    ArchiveSnapshot::from_entry_names(&strings(names), size)
}

#[test]
fn freecam_all_three_signals() {
    let d = detector_with("Freecam", freecam());
    let s = snapshot(&["net/xolt/freecam/Freecam.class"], 43008);
    assert_eq!(s.names, vec!["net/xolt/freecam/freecam.class".to_string()]);
    let t = d.check_jar_file("/mods/freecam.jar", "freecam.jar", &s).expect("match");
    assert_eq!(t.match_score, 3);
    assert_eq!(t.cheat_type, "Freecam");
    assert_eq!(t.size, 43008);
    assert_eq!(t.path, "/mods/freecam.jar");
    assert_eq!(t.name, "freecam.jar");
    assert_eq!(
        t.details,
        vec![
            "Freecam".to_string(),
            "42.0 KiB".to_string(),
            "signals: directory class weight (3/3)".to_string()
        ]
    );
}

#[test]
fn freecam_outside_weight_still_matches() {
    let d = detector_with("Freecam", freecam());
    let s = snapshot(&["net/xolt/freecam/Freecam.class"], 50000);
    let t = d.check_jar_file("/mods/f.jar", "f.jar", &s).expect("match");
    assert_eq!(t.match_score, 2);
    assert_eq!(t.details[1], "48.8 KiB");
    assert_eq!(t.details[2], "signals: directory class (2/3)");
}

#[test]
fn strict_signature_suppressed_by_bundled_library() {
    let d = detector_with("DoomsDay", doomsday());
    let s = snapshot(&["net/java/i.class", "org/apache/commons/Lang.class"], 43008);
    assert!(d.check_jar_file("/m/x.jar", "x.jar", &s).is_none());
    let clean = snapshot(&["net/java/i.class"], 43008);
    let t = d.check_jar_file("/m/x.jar", "x.jar", &clean).expect("match");
    assert_eq!(t.match_score, 2);
}

#[test]
fn strict_signature_requires_every_declared_signal() {
    let d = detector_with("DoomsDay", doomsday());
    let only_dir = snapshot(&["net/java/a.class"], 43008);
    assert!(d.check_jar_file("/p", "n", &only_dir).is_none());
    let only_class = snapshot(&["x/i.class"], 43008);
    assert!(d.check_jar_file("/p", "n", &only_class).is_none());
}

#[test]
fn lenient_threshold_counts_signals() {
    let mut info = freecam();
    info.min_conditions = 3;
    let s = snapshot(&["net/xolt/freecam/Freecam.class"], 50000);
    let ev = info.evaluate(&s);
    assert_eq!(ev.signals, SignalSet { directory: true, class: true, weight: false });
    assert!(!ev.matched);
    info.min_conditions = 1;
    let weight_only = snapshot(&["a/b.class"], 43008);
    let ev = info.evaluate(&weight_only);
    assert_eq!(ev.signals, SignalSet { directory: false, class: false, weight: true });
    assert!(ev.matched);
    assert_eq!(ev.signals.score(), 1);
}

#[test]
fn evaluation_is_repeatable() {
    let info = freecam();
    let s = snapshot(&["net/xolt/freecam/Freecam.class", "META-INF/MANIFEST.MF"], 44000);
    let first = info.evaluate(&s);
    let second = info.evaluate(&s);
    assert_eq!(first, second);
    assert!(first.matched);
}

#[test]
fn weight_tolerance_edges() {
    // 100.0 KiB target: 105 KiB = 107520 bytes, 95 KiB = 97280 bytes.
    assert!(check_weight_match(107520, &vec![1000]));
    assert!(!check_weight_match(107623, &vec![1000]));
    assert!(check_weight_match(97280, &vec![1000]));
    assert!(!check_weight_match(97279, &vec![1000]));
    assert!(!check_weight_match(97280, &Vec::new()));
    assert!(check_weight_match(45158, &vec![10, 420]));
    assert!(!check_weight_match(45159, &vec![420]));
}

#[test]
fn degenerate_signature_never_matches() {
    let info = CheatInfo {
        directories: Vec::new(),
        classes: Vec::new(),
        exclude_dirs: Vec::new(),
        sizes_kb_tenths: Vec::new(),
        description: "placeholder".to_string(),
        strict_mode: false,
        min_conditions: 0,
    };
    let d = detector_with("Placeholder", info);
    let s = snapshot(&["anything.class"], 5000);
    assert!(d.check_jar_file("/p", "n", &s).is_none());
}

#[test]
fn first_match_in_insertion_order() {
    let mut d = CheatDetector::empty();
    d.insert("B".to_string(), freecam());
    let mut other = freecam();
    other.description = "second".to_string();
    d.insert("A".to_string(), other);
    let s = snapshot(&["net/xolt/freecam/Freecam.class"], 43008);
    assert_eq!(d.check_jar_file("/p", "n", &s).unwrap().cheat_type, "B");
}

#[test]
fn insert_replaces_same_identifier_in_place() {
    let mut d = CheatDetector::empty();
    d.insert("A".to_string(), freecam());
    d.insert("B".to_string(), doomsday());
    d.insert("A".to_string(), doomsday());
    assert_eq!(d.len(), 2);
    let (name, info) = d.entry(0);
    assert_eq!(name, "A");
    assert!(info.strict_mode);
    assert_eq!(d.entry(1).0, "B");
}

#[test]
fn builtin_database_detects_freecam() {
    let d = CheatDetector::new();
    assert_eq!(d.len(), 29);
    let s = snapshot(&["net/xolt/freecam/Freecam.class"], 43008);
    let t = d.check_jar_file("/m/f.jar", "f.jar", &s).expect("match");
    assert_eq!(t.cheat_type, "Freecam");
    let clean = snapshot(&["com/example/Main.class"], 123456);
    assert!(d.check_jar_file("/m/c.jar", "c.jar", &clean).is_none());
}

#[test]
fn builtin_database_matches_mixed_case_fragments() {
    let d = CheatDetector::new();
    let s = snapshot(&["org/chsp/soupapi/SoupApi.class"], 20000);
    let t = d.check_jar_file("/m/s.jar", "s.jar", &s).expect("match");
    assert_eq!(t.cheat_type, "SoupAPI");
}

#[test]
fn snapshot_keeps_bounded_prefix() {
    let raw: Vec<String> = (0..150).map(|i| format!("Dir/File{}.class", i)).collect();
    let s = ArchiveSnapshot::from_entry_names(&raw, 2048);
    assert_eq!(s.names.len(), 100);
    assert_eq!(s.names[0], "dir/file0.class");
    assert_eq!(s.size, 2048);
}

#[test]
fn discovery_size_bounds_inclusive() {
    assert!(!is_archive_candidate("jar", 1023));
    assert!(is_archive_candidate("jar", 1024));
    assert!(is_archive_candidate("jar", 524288000));
    assert!(!is_archive_candidate("jar", 524288001));
    assert!(is_archive_candidate("JaR", 4096));
    assert!(!is_archive_candidate("zip", 4096));
    assert!(!is_archive_candidate("jars", 4096));
}

#[test]
fn strict_verdict_ignores_weight() {
    let mut info = doomsday();
    info.sizes_kb_tenths = vec![10];
    let d = detector_with("DoomsDay", info);
    let s = snapshot(&["net/java/i.class"], 900000);
    let t = d.check_jar_file("/p", "n", &s).expect("match");
    assert_eq!(t.match_score, 2);
}

#[test]
fn empty_archive_and_empty_database() {
    let d = detector_with("Freecam", freecam());
    let empty = snapshot(&[], 43008);
    let ev = freecam().evaluate(&empty);
    assert_eq!(ev.signals, SignalSet { directory: false, class: false, weight: true });
    assert!(!ev.matched);
    assert!(d.check_jar_file("/p", "n", &empty).is_none());
    let none = CheatDetector::empty();
    let s = snapshot(&["net/xolt/freecam/Freecam.class"], 43008);
    assert!(none.check_jar_file("/p", "n", &s).is_none());
    assert_eq!(none.len(), 0);
}

#[test]
fn lowered_signature_matches_in_lower_case() {
    let mut info = freecam();
    info.directories = strings(&["NET/XOLT/FreeCam/"]);
    let low = info.lowered();
    assert_eq!(low.directories, vec!["net/xolt/freecam/".chars().collect::<Vec<char>>()]);
    let entries = vec!["net/xolt/freecam/a.class".chars().collect::<Vec<char>>()];
    let ev = low.evaluate(&entries, 1);
    assert!(ev.signals.directory);
    assert!(!ev.signals.class);
    assert!(!ev.matched);
}

#[test]
fn builtin_database_table() {
    let d = CheatDetector::new();
    let names: Vec<String> = (0..d.len()).map(|i| d.entry(i).0.clone()).collect();
    assert_eq!(names.len(), 29);
    assert_eq!(names[0], "DoomsDay");
    assert_eq!(names[1], "Freecam");
    assert_eq!(names[25], "MeteorClient");
    assert_eq!(names[28], "PseudoNeat");
    let (_, freecam) = d.entry(1);
    assert_eq!(freecam.directories, strings(&["net/xolt/freecam/"]));
    assert_eq!(freecam.classes, strings(&["freecam.class"]));
    assert!(freecam.exclude_dirs.is_empty());
    assert_eq!(freecam.sizes_kb_tenths, vec![420, 740, 10470, 10480, 10690, 11040, 11220]);
    assert!(!freecam.strict_mode);
    assert_eq!(freecam.min_conditions, 2);
    let (_, doomsday) = d.entry(0);
    assert!(doomsday.strict_mode);
    assert_eq!(doomsday.directories, strings(&["net/java/"]));
    assert_eq!(doomsday.exclude_dirs.len(), 7);
    for i in 0..d.len() {
        let (_, info) = d.entry(i);
        assert!(info.min_conditions >= 1);
        assert!(!info.strict_mode || !(info.directories.is_empty() && info.classes.is_empty()));
        for f in info.directories.iter().chain(&info.classes).chain(&info.exclude_dirs) {
            assert!(!f.is_empty());
        }
    }
}
