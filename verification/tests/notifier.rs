use sysmon::config::Settings;
use sysmon::notifier::{Alert, Notification, NotifierState, Readings};

const SEC: u64 = 1_000_000_000;
const MIN: u64 = 60 * SEC;

fn readings(cpu: bool, memory: bool, disk: bool) -> Readings {
    Readings { cpu_high: cpu, memory_low: memory, disk_low: disk }
}

#[test]
fn new_notifier_is_quiet_on_calm_readings() {
    let mut n = NotifierState::new();
    let s = Settings::default();
    assert!(n.check(&readings(false, false, false), &s, 0).is_empty());
    assert!(n.check(&readings(false, false, false), &s, 100 * MIN).is_empty());
}

#[test]
fn cpu_alert_waits_for_sustained_streak() {
    let mut n = NotifierState::new();
    let s = Settings::default(); // 10 s streak, 15 min cooldown
    let high = readings(true, false, false);
    assert!(n.check(&high, &s, 5 * SEC).is_empty());
    assert!(n.check(&high, &s, 14 * SEC).is_empty());
    assert!(n.check(&high, &s, 15 * SEC - 1).is_empty());
    assert_eq!(n.check(&high, &s, 15 * SEC), vec![Alert::CpuHigh]);
}

#[test]
fn cpu_streak_restarts_after_calm_reading() {
    let mut n = NotifierState::new();
    let s = Settings::default();
    let high = readings(true, false, false);
    assert!(n.check(&high, &s, 0).is_empty());
    assert!(n.check(&readings(false, false, false), &s, 9 * SEC).is_empty());
    assert!(n.check(&high, &s, 12 * SEC).is_empty());
    assert!(n.check(&high, &s, 21 * SEC).is_empty());
    assert_eq!(n.check(&high, &s, 22 * SEC), vec![Alert::CpuHigh]);
}

#[test]
fn cooldown_separates_alerts_of_one_kind() {
    let mut n = NotifierState::new();
    let s = Settings::default();
    let low = readings(false, true, false);
    assert_eq!(n.check(&low, &s, 0), vec![Alert::MemoryLow]);
    assert!(n.check(&low, &s, 15 * MIN - 1).is_empty());
    assert_eq!(n.check(&low, &s, 15 * MIN), vec![Alert::MemoryLow]);
    assert!(n.check(&low, &s, 16 * MIN).is_empty());
}

#[test]
fn kinds_have_separate_cooldowns_and_come_in_order() {
    let mut n = NotifierState::new();
    let s = Settings { cpu_sustained_secs: 0, ..Settings::default() };
    assert_eq!(n.check(&readings(false, false, true), &s, 0), vec![Alert::DiskLow]);
    assert_eq!(
        n.check(&readings(true, true, true), &s, MIN),
        vec![Alert::CpuHigh, Alert::MemoryLow]
    );
    assert_eq!(
        n.check(&readings(true, true, true), &s, 15 * MIN),
        vec![Alert::DiskLow]
    );
}

#[test]
fn disabled_kinds_stay_silent() {
    let mut n = NotifierState::new();
    let s = Settings {
        notify_cpu: false,
        notify_memory: false,
        notify_disk: false,
        cpu_sustained_secs: 0,
        ..Settings::default()
    };
    assert!(n.check(&readings(true, true, true), &s, 0).is_empty());
    assert!(n.check(&readings(true, true, true), &s, 100 * MIN).is_empty());
}

#[test]
fn clock_going_backwards_counts_as_no_time() {
    let mut n = NotifierState::new();
    let s = Settings::default();
    let low = readings(false, false, true);
    assert_eq!(n.check(&low, &s, 20 * MIN), vec![Alert::DiskLow]);
    assert!(n.check(&low, &s, 0).is_empty());
}

#[test]
fn alert_titles() {
    assert_eq!(Alert::CpuHigh.title(), "CPU Usage High");
    assert_eq!(Alert::MemoryLow.title(), "Memory Low");
    assert_eq!(Alert::DiskLow.title(), "Disk Space Low");
}

#[test]
fn notification_title_and_summary() {
    let n = Notification::new(Alert::DiskLow, "Free disk space: 3.2 GB".to_string());
    assert_eq!(n.title, "Disk Space Low");
    assert_eq!(n.body, "Free disk space: 3.2 GB");
    assert_eq!(n.summary(), "Disk Space Low: Free disk space: 3.2 GB");
}
