use dapr::durabletask::time::{now, timestamp_from_local};
use dapr::durabletask::worker::{format_worker_name, get_default_worker_name};

#[test]
fn worker_name_parts() {
    assert_eq!(format_worker_name(Some("host"), 42, "id"), "host,42,id");
    assert_eq!(format_worker_name(None, 0, "x"), "unknown,0,x");
}

#[test]
fn default_worker_name_has_host_pid_and_uuid() {
    let name = get_default_worker_name(1234);
    let pieces: Vec<&str> = name.rsplitn(3, ',').collect();
    assert_eq!(pieces.len(), 3);
    assert_eq!(pieces[0].len(), 36);
    assert_eq!(pieces[1], "1234");
    let other = get_default_worker_name(1234);
    assert_ne!(name, other);
}

#[test]
fn now_has_whole_seconds_after_2020() {
    let t = now();
    assert_eq!(t.nanos, 0);
    assert!(t.seconds > 1_577_836_800);
}

#[test]
fn now_reads_the_local_wall_clock_as_utc() {
    let before = chrono::Local::now().naive_local().and_utc().timestamp();
    let t = now();
    let after = chrono::Local::now().naive_local().and_utc().timestamp();
    assert!(before <= t.seconds && t.seconds <= after, "{before} {} {after}", t.seconds);
}

fn fields(year: i64, month: u8, day: u8, hour: u8, minute: u8, second: u8) -> dapr::durabletask::time::LocalDateTime {
    dapr::durabletask::time::LocalDateTime { year, month, day, hour, minute, second }
}

#[test]
fn calendar_fields_become_unix_seconds() {
    let t = timestamp_from_local(&fields(1970, 1, 1, 0, 0, 0)).unwrap();
    assert_eq!((t.seconds, t.nanos), (0, 0));
    let t = timestamp_from_local(&fields(2000, 3, 1, 0, 0, 0)).unwrap();
    assert_eq!(t.seconds, 11017 * 86400);
    let t = timestamp_from_local(&fields(2024, 2, 29, 12, 30, 15)).unwrap();
    assert_eq!(t.seconds, 1_709_209_815);
    let t = timestamp_from_local(&fields(1969, 12, 31, 23, 59, 59)).unwrap();
    assert_eq!(t.seconds, -1);
}

#[test]
fn impossible_calendar_fields_give_none() {
    assert!(timestamp_from_local(&fields(2023, 2, 29, 0, 0, 0)).is_none());
    assert!(timestamp_from_local(&fields(2024, 13, 1, 0, 0, 0)).is_none());
    assert!(timestamp_from_local(&fields(2024, 1, 1, 24, 0, 0)).is_none());
    assert!(timestamp_from_local(&fields(300_000_000_000, 1, 1, 0, 0, 0)).is_none());
}
