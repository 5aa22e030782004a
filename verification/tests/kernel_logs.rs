use kernel_log::lines::count_lines;
use kernel_log::lines::extract_first_line;
use kernel_log::logs::KernelLogs;
use kernel_log::logs::ScrollDirection;

fn sample_logs() -> KernelLogs {
    KernelLogs::new(
        String::from("Linux 6.1.0 x86_64"),
        String::from("#1 SMP PREEMPT_DYNAMIC"),
        String::from("GNU/Linux x86_64 x86_64"),
    )
}

#[test]
fn test_kernel_logs() {
    let mut kernel_logs = sample_logs();
    assert_eq!(
        true,
        kernel_logs.update(String::from(
            "[  12.0] usb 1-1: new high-speed USB device\n[   0.0] Linux version 6.1.0"
        ))
    );
    assert_ne!(0, count_lines(&kernel_logs.output));
}

#[test]
fn test_identity_sequence_one_shot() {
    let mut logs = sample_logs();
    assert_eq!(
        Some(String::from("Linux 6.1.0 x86_64")),
        logs.next_uname()
    );
    assert_eq!(
        Some(String::from("#1 SMP PREEMPT_DYNAMIC")),
        logs.next_uname()
    );
    assert_eq!(
        Some(String::from("GNU/Linux x86_64 x86_64")),
        logs.next_uname()
    );
    assert_eq!(None, logs.next_uname());
    assert_eq!(None, logs.next_uname());
}

#[test]
fn test_new_starts_empty() {
    let logs = sample_logs();
    assert_eq!("", logs.output);
    assert_eq!("", logs.last_line);
    assert_eq!("", logs.version);
    assert_eq!(0, logs.scroll_offset);
}

#[test]
fn test_first_update_populates_and_reports_change() {
    let mut logs = sample_logs();
    let changed = logs.update(String::from("[  3.2] second entry\n[  1.1] first entry\n"));
    assert!(changed);
    assert!(!logs.output.is_empty());
    assert_ne!(0, count_lines(&logs.output));
}

#[test]
fn test_repeat_update_reports_no_change() {
    let mut logs = sample_logs();
    let text = "[  3.2] second entry\n[  1.1] first entry";
    assert_eq!(true, logs.update(String::from(text)));
    assert_eq!(false, logs.update(String::from(text)));
    assert_eq!("[  3.2] second entry", logs.last_line);
    assert_eq!(false, logs.update(String::from(text)));
    assert_eq!("[  3.2] second entry", logs.last_line);
}

#[test]
fn test_update_detects_new_first_line() {
    let mut logs = sample_logs();
    assert_eq!(true, logs.update(String::from("[  1.1] first entry")));
    assert_eq!(
        true,
        logs.update(String::from("[  3.2] second entry\n[  1.1] first entry"))
    );
    assert_eq!("[  3.2] second entry", logs.last_line);
    assert_eq!(
        "[  3.2] second entry\n[  1.1] first entry",
        logs.output
    );
}

#[test]
fn test_up_scroll_clamped_at_zero() {
    let mut logs = sample_logs();
    logs.update(String::from("line one\nline two\nline three"));
    for _ in 0..10 {
        logs.scroll(ScrollDirection::Up);
        assert_eq!(0, logs.scroll_offset);
    }
}

#[test]
fn test_up_scroll_threshold() {
    let mut logs = sample_logs();
    logs.update(String::from("a\nb\nc\nd\ne"));
    logs.scroll_offset = 3;
    logs.scroll(ScrollDirection::Up);
    assert_eq!(0, logs.scroll_offset);
    logs.scroll_offset = 2;
    logs.scroll(ScrollDirection::Up);
    assert_eq!(2, logs.scroll_offset);
    logs.scroll_offset = 1;
    logs.scroll(ScrollDirection::Up);
    assert_eq!(1, logs.scroll_offset);
    logs.scroll_offset = 5;
    logs.scroll(ScrollDirection::Up);
    assert_eq!(2, logs.scroll_offset);
}

#[test]
fn test_down_scroll_cycle_five_lines() {
    let mut logs = sample_logs();
    logs.update(String::from("a\nb\nc\nd\ne"));
    assert_eq!(5, count_lines(&logs.output));
    let expected: [u16; 11] = [3, 6, 9, 2, 5, 8, 1, 4, 7, 0, 3];
    for offset in expected {
        logs.scroll(ScrollDirection::Down);
        assert_eq!(offset, logs.scroll_offset);
        assert!(logs.scroll_offset < 10);
    }
}

#[test]
fn test_down_scroll_empty_noop() {
    let mut logs = sample_logs();
    assert_eq!("", logs.output);
    for _ in 0..5 {
        logs.scroll(ScrollDirection::Down);
        assert_eq!(0, logs.scroll_offset);
    }
}

#[test]
fn test_scroll_scenario_four_lines() {
    let mut logs = sample_logs();
    logs.update(String::from("a\nb\nc\nd"));
    assert_eq!(4, count_lines(&logs.output));
    logs.scroll(ScrollDirection::Down);
    assert_eq!(3, logs.scroll_offset);
    logs.scroll(ScrollDirection::Down);
    assert_eq!(6, logs.scroll_offset);
    logs.scroll(ScrollDirection::Down);
    assert_eq!(1, logs.scroll_offset);
    logs.scroll(ScrollDirection::Up);
    assert_eq!(1, logs.scroll_offset);
}

#[test]
fn test_horizontal_scroll_is_noop() {
    let mut logs = sample_logs();
    logs.update(String::from("a\nb\nc"));
    logs.scroll(ScrollDirection::Down);
    assert_eq!(3, logs.scroll_offset);
    logs.scroll(ScrollDirection::Left);
    assert_eq!(3, logs.scroll_offset);
    logs.scroll(ScrollDirection::Right);
    assert_eq!(3, logs.scroll_offset);
    assert_eq!("a\nb\nc", logs.output);
}

#[test]
fn test_extract_first_line() {
    assert_eq!("hello", extract_first_line("hello\nworld"));
    assert_eq!("no newline here", extract_first_line("no newline here"));
    assert_eq!("", extract_first_line(""));
    assert_eq!("", extract_first_line("\nstarts empty"));
    assert_eq!("trailing", extract_first_line("trailing\n"));
}

#[test]
fn test_count_lines() {
    assert_eq!(0, count_lines(""));
    assert_eq!(1, count_lines("a"));
    assert_eq!(1, count_lines("\n"));
    assert_eq!(1, count_lines("a\n"));
    assert_eq!(2, count_lines("a\nb"));
    assert_eq!(2, count_lines("a\nb\n"));
    assert_eq!(3, count_lines("a\n\nb\n"));
}
