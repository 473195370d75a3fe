use sysmon::monitor::{
    choose_disk, count_lines, count_pid_entries, is_pid_name, is_system_root,
    primary_disk_space, top_by_memory, DiskSample,
};

fn disk(mount: &str, total: u64, available: u64) -> DiskSample {
    DiskSample { mount_point: mount.to_string(), total_space: total, available_space: available }
}

#[test]
fn root_disk_is_preferred() {
    let disks = vec![disk("/boot", 500, 400), disk("/", 100, 50), disk("/data", 900, 10)];
    assert_eq!(primary_disk_space(&disks), (100, 50));
    let disks = vec![disk("C:\\", 300, 30), disk("D:\\", 900, 10)];
    assert_eq!(primary_disk_space(&disks), (300, 30));
}

#[test]
fn largest_disk_when_no_root() {
    let disks = vec![disk("/a", 500, 1), disk("/b", 900, 2), disk("/c", 900, 3), disk("/d", 10, 4)];
    assert_eq!(primary_disk_space(&disks), (900, 3));
}

#[test]
fn no_disk_means_no_space() {
    assert_eq!(primary_disk_space(&Vec::new()), (0, 0));
}

#[test]
fn first_root_wins() {
    let disks = vec![disk("/x", 1, 1), disk("/y", 2, 2), disk("/z", 3, 3)];
    assert_eq!(choose_disk(&vec![false, true, true], &disks), (2, 2));
    assert_eq!(choose_disk(&vec![false, false, false], &disks), (3, 3));
}

#[test]
fn system_root_mount_points() {
    assert!(is_system_root("/"));
    assert!(is_system_root("C:\\"));
    assert!(!is_system_root("/home"));
    assert!(!is_system_root(""));
    assert!(!is_system_root("/mnt/c"));
    assert!(!is_system_root("C:"));
    assert!(!is_system_root("D:\\"));
}

#[test]
fn non_root_first_disk_is_not_reported_as_root() {
    let disks = vec![disk("/home", 100, 1), disk("/srv", 700, 2), disk("/", 300, 3)];
    assert_eq!(primary_disk_space(&disks), (300, 3));
}

#[test]
fn top_memory_process_is_last_of_largest() {
    assert_eq!(top_by_memory(&vec![]), None);
    assert_eq!(top_by_memory(&vec![7]), Some(0));
    assert_eq!(top_by_memory(&vec![3, 9, 2, 9, 1]), Some(3));
    assert_eq!(top_by_memory(&vec![9, 3]), Some(0));
}

#[test]
fn pid_names() {
    assert!(is_pid_name("1234"));
    assert!(is_pid_name(""));
    assert!(!is_pid_name("self"));
    assert!(!is_pid_name("12a"));
    assert!(!is_pid_name("\u{0663}"));
}

#[test]
fn pid_entries_are_counted() {
    let names = vec![
        Some("1".to_string()),
        Some("self".to_string()),
        None,
        Some("42".to_string()),
        Some("sys".to_string()),
    ];
    assert_eq!(count_pid_entries(&names), 2);
    assert_eq!(count_pid_entries(&vec![]), 0);
}

#[test]
fn lines_are_counted_like_str_lines() {
    for text in ["", "\n", "a", "a\n", "a\nb", "a\r\nb\r\n", "\n\n", "  1\n  2\n  3\n"] {
        assert_eq!(count_lines(text), text.lines().count(), "{text:?}");
    }
}
