use jar_sentinel::detector::{CheatDetector, ThreatResult};
use jar_sentinel::scan::{ScanMessage, ScanPhase, ScanSession, ScanStats, UnitOutcome};
use jar_sentinel::scanner::Scanner;

fn threat() -> ThreatResult {
    ThreatResult {
        path: "/m/a.jar".to_string(),
        name: "a.jar".to_string(),
        size: 2048,
        cheat_type: "X".to_string(),
        details: Vec::new(),
        match_score: 2,
    }
}

fn scanning(total: usize) -> ScanSession {
    let mut s = ScanSession::new();
    s.begin_discovery();
    let msgs = s.begin_scan(total);
    assert_eq!(msgs.len(), 1);
    assert!(matches!(msgs[0], ScanMessage::Stats(ScanStats { total: t, checked: 0, found: 0 }) if t == total));
    s
}

#[test]
fn cancelled_before_start_reports_no_threat() {
    let scanner = Scanner::new(CheatDetector::new());
    scanner.cancel();
    assert!(scanner.is_cancelled());
    let mut s = scanning(3);
    let mut events = Vec::new();
    for _ in 0..3 {
        let outcome = scanner.unit_outcome(scanner.is_cancelled(), "/m/a.jar", "a.jar", None);
        assert!(matches!(outcome, UnitOutcome::Skipped));
        events.extend(s.record(outcome));
    }
    events.extend(s.finish(scanner.is_cancelled()));
    assert!(!events.iter().any(|m| matches!(m, ScanMessage::ThreatFound(_))));
    assert_eq!(events.len(), 2);
    assert!(matches!(events[1], ScanMessage::Complete));
    assert_eq!(s.phase(), ScanPhase::Cancelled);
}

#[test]
fn stats_every_fifty_and_at_end() {
    let mut s = scanning(120);
    let mut progress = Vec::new();
    for i in 0..120 {
        let outcome = if i == 7 { UnitOutcome::Threat(threat()) } else { UnitOutcome::Clean };
        for m in s.record(outcome) {
            if let ScanMessage::Progress { checked, total } = m {
                assert_eq!(total, 120);
                progress.push(checked);
            }
        }
    }
    assert_eq!(progress, vec![50, 100, 120]);
    let end = s.finish(false);
    assert!(matches!(end[0], ScanMessage::Stats(ScanStats { total: 120, checked: 120, found: 1 })));
    assert!(matches!(end[1], ScanMessage::Complete));
    assert_eq!(s.phase(), ScanPhase::Completed);
    assert_eq!(s.stats(), ScanStats { total: 120, checked: 120, found: 1 });
}

#[test]
fn threat_outcome_emits_event_first() {
    let mut s = scanning(2);
    let msgs = s.record(UnitOutcome::Threat(threat()));
    assert_eq!(msgs.len(), 1);
    assert!(matches!(msgs[0], ScanMessage::ThreatFound(_)));
    let msgs = s.record(UnitOutcome::Clean);
    assert_eq!(msgs.len(), 2);
    assert!(matches!(msgs[0], ScanMessage::Progress { checked: 2, total: 2 }));
    assert!(matches!(msgs[1], ScanMessage::Stats(ScanStats { total: 2, checked: 2, found: 1 })));
}

#[test]
fn setup_failure_emits_one_error() {
    let mut s = ScanSession::new();
    s.begin_discovery();
    let msgs = s.fail("no such directory".to_string());
    assert_eq!(msgs.len(), 1);
    assert!(matches!(&msgs[0], ScanMessage::Error(e) if e == "no such directory"));
    assert_eq!(s.phase(), ScanPhase::Failed);
}

#[test]
fn unit_outcome_of_unreadable_and_matching_files() {
    let scanner = Scanner::new(CheatDetector::new());
    assert!(!scanner.is_cancelled());
    assert!(matches!(scanner.unit_outcome(false, "/p", "n", None), UnitOutcome::Clean));
    let snap = jar_sentinel::archive::ArchiveSnapshot::from_entry_names(
        &vec!["net/xolt/freecam/Freecam.class".to_string()],
        43008,
    );
    match scanner.unit_outcome(false, "/m/f.jar", "f.jar", Some(snap.clone())) {
        UnitOutcome::Threat(t) => assert_eq!(t.cheat_type, "Freecam"),
        _ => panic!("expected a threat"),
    }
    assert!(matches!(scanner.unit_outcome(true, "/m/f.jar", "f.jar", Some(snap)), UnitOutcome::Skipped));
    assert_eq!(scanner.detector().len(), 29);
}
