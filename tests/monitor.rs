use disk_warn::message::{alert_message, ALERT_TITLE};
use disk_warn::monitor::{check_disk_usage, MonitorState};
use disk_warn::ratio::Ratio;
use disk_warn::usage::{disk_usage, MountUsage, ReadError};

fn ratio(part: u64, whole: u64) -> Ratio {
    Ratio { part, whole }
}

fn mount(on: &str, avail: u64, total: u64) -> MountUsage {
    MountUsage { mounted_on: on.to_string(), avail, total }
}

fn same(a: Ratio, b: Ratio) -> bool {
    a.part == b.part && a.whole == b.whole
}

#[test]
fn fresh_state_holds_a_full_ratio() {
    let s = MonitorState::new();
    assert_eq!(s.previous.part, 1);
    assert_eq!(s.previous.whole, 1);
}

#[test]
fn failed_read_keeps_previous() {
    let mut s = MonitorState::new();
    let t = ratio(1, 10);
    assert!(check_disk_usage(&mut s, t, Ok(ratio(9, 100))).is_some());
    let alert = check_disk_usage(&mut s, t, Err(ReadError::MountNotFound));
    assert!(alert.is_none());
    assert!(same(s.previous, ratio(9, 100)));
    let alert = check_disk_usage(&mut s, t, Err(ReadError::Unavailable));
    assert!(alert.is_none());
    assert!(same(s.previous, ratio(9, 100)));
}

#[test]
fn successful_read_always_updates_previous() {
    let mut s = MonitorState::new();
    let t = ratio(1, 10);
    // Above the threshold: no alert, still recorded.
    assert!(check_disk_usage(&mut s, t, Ok(ratio(50, 100))).is_none());
    assert!(same(s.previous, ratio(50, 100)));
    // First drop below: alert on the current ratio.
    let alert = check_disk_usage(&mut s, t, Ok(ratio(9, 100))).unwrap();
    assert!(same(alert, ratio(9, 100)));
    // Unchanged: no alert, recorded.
    assert!(check_disk_usage(&mut s, t, Ok(ratio(95, 1000))).is_none());
    assert!(same(s.previous, ratio(95, 1000)));
    // A whole point lower: alert.
    assert!(check_disk_usage(&mut s, t, Ok(ratio(8, 100))).is_some());
    // Rising but still low: no alert, recorded.
    assert!(check_disk_usage(&mut s, t, Ok(ratio(9, 100))).is_none());
    assert!(same(s.previous, ratio(9, 100)));
}

#[test]
fn alert_rearms_after_recovery() {
    let mut s = MonitorState::new();
    let t = ratio(1, 10);
    assert!(check_disk_usage(&mut s, t, Ok(ratio(9, 100))).is_some());
    assert!(check_disk_usage(&mut s, t, Ok(ratio(20, 100))).is_none());
    assert!(check_disk_usage(&mut s, t, Ok(ratio(9, 100))).is_some());
}

#[test]
fn finds_root_mount() {
    let mounts = vec![
        mount("/boot", 1, 2),
        mount("/", 25, 100),
        mount("/home", 3, 4),
    ];
    let r = disk_usage(&mounts, &"/".to_string()).unwrap();
    assert!(same(r, ratio(25, 100)));
}

#[test]
fn first_matching_mount_wins() {
    let mounts = vec![mount("/", 1, 4), mount("/", 3, 4)];
    let r = disk_usage(&mounts, &"/".to_string()).unwrap();
    assert!(same(r, ratio(1, 4)));
}

#[test]
fn missing_mount_is_an_error() {
    let mounts = vec![mount("/boot", 1, 2)];
    assert_eq!(
        disk_usage(&mounts, &"/".to_string()).unwrap_err(),
        ReadError::MountNotFound
    );
    assert_eq!(
        disk_usage(&Vec::new(), &"/".to_string()).unwrap_err(),
        ReadError::MountNotFound
    );
}

#[test]
fn empty_filesystem_is_an_error() {
    let mounts = vec![mount("/", 0, 0)];
    assert_eq!(
        disk_usage(&mounts, &"/".to_string()).unwrap_err(),
        ReadError::NoCapacity
    );
}

#[test]
fn more_available_than_total_is_an_error() {
    let mounts = vec![mount("/", 5, 4)];
    assert_eq!(
        disk_usage(&mounts, &"/".to_string()).unwrap_err(),
        ReadError::InconsistentSizes
    );
}

#[test]
fn alert_body_has_two_decimals() {
    assert_eq!(alert_message(ratio(923, 10000)), "Only 9.23% left!");
    assert_eq!(alert_message(ratio(9, 100)), "Only 9.00% left!");
    assert_eq!(alert_message(ratio(1, 3)), "Only 33.33% left!");
    assert_eq!(alert_message(ratio(2, 3)), "Only 66.67% left!");
    assert_eq!(alert_message(ratio(1, 1)), "Only 100.00% left!");
    assert_eq!(alert_message(ratio(0, 9)), "Only 0.00% left!");
    assert_eq!(alert_message(ratio(5, 100000)), "Only 0.01% left!");
}

#[test]
fn alert_title_is_fixed() {
    assert_eq!(ALERT_TITLE, "Low disk space");
}
