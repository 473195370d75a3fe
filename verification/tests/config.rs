use sysmon::config::Settings;

fn with(update: u64, sustained: u64, cooldown: u64) -> Settings {
    Settings {
        update_interval_secs: update,
        cpu_sustained_secs: sustained,
        notification_cooldown_mins: cooldown,
        ..Settings::default()
    }
}

#[test]
fn settings_default_values() {
    let s = Settings::default();
    assert_eq!(s.update_interval_secs, 3);
    assert_eq!(s.cpu_sustained_secs, 10);
    assert_eq!(s.notification_cooldown_mins, 15);
    assert!(s.notify_cpu);
    assert!(s.notify_memory);
    assert!(s.notify_disk);
    assert!(!s.autostart);
}

#[test]
fn settings_validated_clamps_low_values() {
    let v = with(0, 0, 0).validated();
    assert_eq!(v.update_interval_secs, 1);
    assert_eq!(v.cpu_sustained_secs, 1);
    assert_eq!(v.notification_cooldown_mins, 1);
}

#[test]
fn settings_validated_clamps_high_values() {
    let v = with(999, 999, 999).validated();
    assert_eq!(v.update_interval_secs, 60);
    assert_eq!(v.cpu_sustained_secs, 300);
    assert_eq!(v.notification_cooldown_mins, 120);
}

#[test]
fn settings_validated_keeps_bounds_and_inner_values() {
    let v = with(1, 300, 120).validated();
    assert_eq!(v, with(1, 300, 120));
    let v = with(60, 1, 1).validated();
    assert_eq!(v, with(60, 1, 1));
    let v = with(u64::MAX, u64::MAX, u64::MAX).validated();
    assert_eq!(v, with(60, 300, 120));
}

#[test]
fn settings_validated_preserves_valid_values() {
    let s = Settings::default();
    assert_eq!(s.validated(), s);
}

#[test]
fn settings_validated_is_idempotent() {
    let once = with(0, 999, 7).validated();
    assert_eq!(once.validated(), once);
}

#[test]
fn settings_validated_preserves_booleans() {
    let s = Settings {
        notify_cpu: false,
        notify_memory: false,
        notify_disk: false,
        autostart: true,
        ..Settings::default()
    };
    let v = s.validated();
    assert!(!v.notify_cpu);
    assert!(!v.notify_memory);
    assert!(!v.notify_disk);
    assert!(v.autostart);
}

#[test]
fn autostart_switch_only_on_change() {
    let off = Settings::default();
    let on = Settings { autostart: true, ..Settings::default() };
    assert_eq!(off.autostart_switch(&on), Some(true));
    assert_eq!(on.autostart_switch(&off), Some(false));
    assert_eq!(on.autostart_switch(&on), None);
    assert_eq!(off.autostart_switch(&off), None);
}

#[test]
fn clamp_behaves_like_ord_clamp() {
    for x in [0u64, 1, 5, 9, 10, 11, u64::MAX] {
        assert_eq!(sysmon::config::clamp(x, 1, 10), x.clamp(1, 10));
    }
}
