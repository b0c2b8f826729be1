use check_journal::statefile::Statefile;
use check_journal::utils::{Chrono, UtcTime, RFC2822_END};

#[test]
fn load_with_stored_cursor() {
    let (sf, create) = Statefile::load("/tmp/state", Some("s=abc;i=1".to_owned()));
    assert!(!create);
    assert_eq!(sf.get_cursor(), "s=abc;i=1");
    assert_eq!(sf.get_filename(), "/tmp/state");
    assert_eq!(sf.get_state().cursor, "s=abc;i=1");
}

#[test]
fn load_without_file_starts_empty_and_asks_for_the_file() {
    let (sf, create) = Statefile::load("/tmp/state", None);
    assert!(create);
    assert_eq!(sf.get_cursor(), "");
    assert_eq!(sf.get_filename(), "/tmp/state");
}

#[test]
fn update_cursor_replaces_the_cursor() {
    let (mut sf, _) = Statefile::load("/tmp/state", Some("old".to_owned()));
    sf.update_cursor("new");
    assert_eq!(sf.get_cursor(), "new");
    assert_eq!(sf.get_filename(), "/tmp/state");
    sf.update_cursor("");
    assert_eq!(sf.get_cursor(), "");
}

#[test]
fn default_statefile_is_blank() {
    let sf = Statefile::default();
    assert_eq!(sf.get_cursor(), "");
    assert_eq!(sf.get_filename(), "");
}

#[test]
fn rfc2822_of_known_instants() {
    let epoch = UtcTime { seconds: 0, nanos: 0 };
    assert_eq!(Chrono::to_rfc2822(epoch).unwrap(), "Thu, 1 Jan 1970 00:00:00 +0000");
    let later = UtcTime { seconds: 1057056757, nanos: 999_999_999 };
    assert_eq!(Chrono::to_rfc2822(later).unwrap(), "Tue, 1 Jul 2003 10:52:37 +0000");
    let last = UtcTime { seconds: RFC2822_END - 1, nanos: 0 };
    assert_eq!(Chrono::to_rfc2822(last).unwrap(), "Fri, 31 Dec 9999 23:59:59 +0000");
}

#[test]
fn rfc2822_refuses_what_it_cannot_write() {
    assert!(Chrono::to_rfc2822(UtcTime { seconds: RFC2822_END, nanos: 0 }).is_none());
    assert!(Chrono::to_rfc2822(UtcTime { seconds: -1, nanos: 0 }).is_none());
    assert!(Chrono::to_rfc2822(UtcTime { seconds: 59, nanos: 1_000_000_000 }).is_none());
    assert!(Chrono::to_rfc2822(UtcTime { seconds: i64::MAX, nanos: 0 }).is_none());
}

#[test]
fn the_clock_can_be_written() {
    let now = Chrono::get_utc_time();
    assert!(now.seconds > 1_600_000_000);
    assert!(now.nanos < 2_000_000_000);
    let text = Chrono::get_utc_timestamp_as_rfc2822().expect("a clock in this era");
    assert!(text.ends_with(" +0000"));
    assert!(text.len() >= 29);
}
