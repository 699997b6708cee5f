use duc::cmd::{Command, Outcome, Probe};
use duc::options::{Options, OptionsFormat};
use duc::render::{format_file_size, push_decimal, write_report, ReportEntry};
use duc::size::{count_file_size, Entry};

fn options(format: Option<OptionsFormat>) -> Options {
    Options { format, help: None }
}

fn tree() -> Entry {
    Entry::Directory(vec![
        Entry::File(100),
        Entry::Unreadable,
        Entry::Directory(vec![Entry::File(20), Entry::Directory(vec![Entry::File(3)])]),
        Entry::Directory(Vec::new()),
        Entry::File(4000),
    ])
}

#[test]
fn test_count_file_size() {
    let found = Entry::Directory(vec![Entry::File(11445)]);
    let res = count_file_size("../src", &found);
    println!("the result = {}", res);
    assert_eq!(res, 11445);
}

#[test]
fn file_size_is_its_length() {
    assert_eq!(count_file_size("a", &Entry::File(0)), 0);
    assert_eq!(count_file_size("a", &Entry::File(100)), 100);
    assert_eq!(count_file_size("a", &Entry::File(u64::MAX)), u64::MAX);
}

#[test]
fn directory_size_is_the_sum_of_its_children() {
    let whole = count_file_size("d", &tree());
    assert_eq!(whole, 4123);
    let mut sum = 0;
    if let Entry::Directory(children) = tree() {
        for child in &children {
            sum += count_file_size("d/c", child);
        }
    }
    assert_eq!(sum, whole);
}

#[test]
fn unreadable_and_empty_count_nothing() {
    assert_eq!(count_file_size("x", &Entry::Unreadable), 0);
    assert_eq!(count_file_size("x", &Entry::Directory(Vec::new())), 0);
    assert_eq!(count_file_size("x", &Entry::Directory(vec![Entry::Unreadable, Entry::Unreadable])), 0);
}

#[test]
fn empty_path_counts_nothing() {
    assert_eq!(count_file_size("", &Entry::File(77)), 0);
    assert_eq!(count_file_size("", &tree()), 0);
    assert_eq!(count_file_size("", &Entry::Unreadable), 0);
}

#[test]
fn checked_size_tells_what_does_not_fit() {
    assert_eq!(tree().checked_size(), Some(4123));
    assert_eq!(Entry::Directory(vec![Entry::File(u64::MAX), Entry::File(0)]).checked_size(), Some(u64::MAX));
    assert_eq!(Entry::Directory(vec![Entry::File(u64::MAX), Entry::File(1)]).checked_size(), None);
    let deep = Entry::Directory(vec![
        Entry::Directory(vec![Entry::File(u64::MAX), Entry::File(5)]),
        Entry::File(1),
    ]);
    assert_eq!(deep.checked_size(), None);
}

#[test]
fn format_bytes_is_the_count_and_b() {
    let bytes = options(Some(OptionsFormat::Bytes));
    assert_eq!(format_file_size(bytes, 0), "0b");
    assert_eq!(format_file_size(bytes, 7), "7b");
    assert_eq!(format_file_size(bytes, 10), "10b");
    assert_eq!(format_file_size(bytes, 1234567890), "1234567890b");
    assert_eq!(format_file_size(bytes, u64::MAX), "18446744073709551615b");
}

#[test]
fn format_binary_divides_by_1024() {
    let binary = options(Some(OptionsFormat::Binary));
    assert_eq!(format_file_size(binary, 0), "0KiB");
    assert_eq!(format_file_size(binary, 1023), "0KiB");
    assert_eq!(format_file_size(binary, 1024), "1KiB");
    assert_eq!(format_file_size(binary, 2047), "1KiB");
    assert_eq!(format_file_size(binary, 2048), "2KiB");
}

#[test]
fn format_every_unit() {
    let n: u64 = 5_000_000_000;
    assert_eq!(format_file_size(options(Some(OptionsFormat::Bytes)), n), "5000000000b");
    assert_eq!(format_file_size(options(Some(OptionsFormat::Metric)), n), "5000000KB");
    assert_eq!(format_file_size(options(Some(OptionsFormat::Binary)), n), "4882812KiB");
    assert_eq!(format_file_size(options(Some(OptionsFormat::MB)), n), "5000MB");
    assert_eq!(format_file_size(options(Some(OptionsFormat::Mib)), n), "4768MiB");
    assert_eq!(format_file_size(options(Some(OptionsFormat::GB)), n), "5GB");
    assert_eq!(format_file_size(options(Some(OptionsFormat::Gib)), n), "4GiB");
    assert_eq!(format_file_size(options(Some(OptionsFormat::Metric)), 999), "0KB");
    assert_eq!(format_file_size(options(Some(OptionsFormat::Metric)), 1000), "1KB");
    assert_eq!(format_file_size(options(Some(OptionsFormat::GB)), 999_999_999), "0GB");
    assert_eq!(format_file_size(options(Some(OptionsFormat::Gib)), 1 << 30), "1GiB");
    assert_eq!(format_file_size(options(Some(OptionsFormat::Mib)), (1 << 20) - 1), "0MiB");
}

#[test]
fn format_without_a_unit_is_the_bare_count() {
    assert_eq!(format_file_size(options(None), 2048), "2048");
    assert_eq!(format_file_size(options(None), 0), "0");
}

#[test]
fn format_agrees_with_the_standard_rendering() {
    let bytes = options(Some(OptionsFormat::Bytes));
    for n in [0u64, 9, 10, 11, 99, 100, 101, 909, 1000, 65535, 4294967296, u64::MAX - 1] {
        assert_eq!(format_file_size(bytes, n), format!("{}b", n));
    }
}

#[test]
fn push_decimal_appends() {
    let mut text = String::from("n=");
    push_decimal(&mut text, 4096);
    assert_eq!(text, "n=4096");
    push_decimal(&mut text, 0);
    assert_eq!(text, "n=40960");
}

#[test]
fn report_has_one_line_for_each_entry() {
    let entries = vec![
        ReportEntry { path: "b".to_string(), size: "2KiB".to_string() },
        ReportEntry { path: "a/b".to_string(), size: "0KiB".to_string() },
    ];
    assert_eq!(write_report(&entries), "b\t2KiB\na/b\t0KiB\n");
    assert_eq!(write_report(&Vec::new()), "");
}

fn command(tokens: &[&str]) -> Command {
    let tokens: Vec<String> = tokens.iter().map(|t| t.to_string()).collect();
    Command::parse(&tokens).unwrap()
}

#[test]
fn run_reports_two_files_in_input_order() {
    let probes = vec![Probe::Found(Entry::File(100)), Probe::Found(Entry::File(50))];
    let outcome = command(&["aggregate", "a", "b"]).run(&probes);
    assert_eq!(outcome.exit_status(), 0);
    assert_eq!(outcome.error_line(), None);
    match outcome {
        Outcome::Report(entries) => {
            assert_eq!(entries.len(), 2);
            assert_eq!(entries[0].path, "a");
            assert_eq!(entries[0].size, "0KiB");
            assert_eq!(entries[1].path, "b");
            assert_eq!(entries[1].size, "0KiB");
            assert_eq!(write_report(&entries), "a\t0KiB\nb\t0KiB\n");
        }
        other => panic!("a report was due, not {:?}", other),
    }
}

#[test]
fn run_uses_the_unit_chosen() {
    let probes = vec![Probe::Found(Entry::File(100)), Probe::Found(tree())];
    match command(&["-f", "bytes", "a", "d"]).run(&probes) {
        Outcome::Report(entries) => {
            assert_eq!(write_report(&entries), "a\t100b\nd\t4123b\n");
        }
        other => panic!("a report was due, not {:?}", other),
    }
    let probes = vec![Probe::Found(Entry::File(4096)), Probe::Found(tree())];
    match command(&["a", "d"]).run(&probes) {
        Outcome::Report(entries) => {
            assert_eq!(write_report(&entries), "a\t4KiB\nd\t4KiB\n");
        }
        other => panic!("a report was due, not {:?}", other),
    }
}

#[test]
fn run_stops_at_the_first_unreadable_path() {
    let probes = vec![
        Probe::Found(Entry::File(100)),
        Probe::Failed("NotFound".to_string()),
        Probe::Failed("Other".to_string()),
    ];
    let outcome = command(&["a", "gone", "lost"]).run(&probes);
    assert_eq!(outcome.exit_status(), 1);
    assert_eq!(outcome.error_line(), Some("the file gone error: NotFound".to_string()));
    match outcome {
        Outcome::PathUnreadable { path, cause } => {
            assert_eq!(path, "gone");
            assert_eq!(cause, "NotFound");
        }
        other => panic!("a failure was due, not {:?}", other),
    }
    let probes = vec![Probe::Found(Entry::File(100)), Probe::Failed("NotFound".to_string())];
    let outcome = command(&["a", "gone", "lost"]).run(&probes);
    assert_eq!(outcome.error_line(), Some("the file gone error: NotFound".to_string()));
}

#[test]
fn run_shows_help_before_anything_else() {
    let none: Vec<Probe> = Vec::new();
    let outcome = command(&["-h", "a"]).run(&none);
    assert!(matches!(outcome, Outcome::Help));
    assert_eq!(outcome.exit_status(), 0);
    assert!(matches!(command(&["help"]).run(&none), Outcome::Help));
    let probes = vec![Probe::Failed("NotFound".to_string())];
    assert!(matches!(command(&["--help", "aggregate", "gone"]).run(&probes), Outcome::Help));
}
