use concatenator::failure::FailureKind;
use concatenator::model::Phase;
use concatenator::run::{Action, Event, Run};
use std::collections::BTreeMap;

const USAGE_OF_CAT: &str = "Usage: cat <FileA> [FileB [FileC [...]]]\n       cat [-o <OutFile>] <FileA> [FileB ...]\n    -o <FILE>      --  Output concatenation to a file\n    -h             --  Display this help message\n";

/// A file system and the two output streams, in memory.
struct Disk {
    files: BTreeMap<String, Vec<u8>>,
    unreadable: BTreeMap<String, String>,
    open_error: Option<String>,
    write_error: Option<String>,
    stdout: Vec<u8>,
    stderr: String,
    checked: Vec<String>,
    read: Vec<String>,
    writes: usize,
}

fn disk(files: &[(&str, &[u8])]) -> Disk {
    let mut map = BTreeMap::new();
    for (path, bytes) in files.iter() {
        map.insert(path.to_string(), bytes.to_vec());
    }
    Disk {
        files: map,
        unreadable: BTreeMap::new(),
        open_error: None,
        write_error: None,
        stdout: Vec::new(),
        stderr: String::new(),
        checked: Vec::new(),
        read: Vec::new(),
        writes: 0,
    }
}

fn strings(args: &[&str]) -> Vec<String> {
    args.iter().map(|a| a.to_string()).collect()
}

/// Runs the machine to its end against the disk. Returns the final state and
/// whether the run ended with success.
fn drive(args: &[&str], disk: &mut Disk) -> (Run, bool) {
    let mut run = Run::start(String::from("cat"), strings(args));
    let mut budget = 2 * args.len() + 2;
    loop {
        let event = match run.action() {
            Action::CheckFile(path) => {
                disk.checked.push(path.to_string());
                Event::FileChecked(disk.files.contains_key(path))
            }
            Action::ReadFile(path) => {
                disk.read.push(path.to_string());
                match disk.unreadable.get(path) {
                    Some(error) => Event::ReadFailed(error.clone()),
                    None => Event::FileRead(disk.files[path].clone()),
                }
            }
            Action::Write { target, bytes } => {
                disk.writes += 1;
                match (target, &disk.open_error, &disk.write_error) {
                    (Some(_), Some(error), _) => Event::OpenFailed(error.clone()),
                    (_, _, Some(error)) => Event::WriteFailed(error.clone()),
                    (Some(path), None, None) => {
                        disk.files.insert(path.to_string(), bytes.to_vec());
                        Event::Written
                    }
                    (None, _, None) => {
                        disk.stdout.extend_from_slice(bytes);
                        Event::Written
                    }
                }
            }
            Action::ShowUsage(text) => {
                disk.stdout.extend_from_slice(text.as_bytes());
                return (run, true);
            }
            Action::Fail(text) => {
                disk.stderr.push_str(&text);
                return (run, false);
            }
            Action::Finish => return (run, true),
        };
        assert!(budget > 0, "the run did not end");
        budget -= 1;
        assert!(run.step(event));
    }
}

#[test]
fn one_file_goes_to_stdout() {
    let mut d = disk(&[("a.txt", b"hello\n")]);
    let (run, ok) = drive(&["a.txt"], &mut d);
    assert!(ok);
    assert_eq!(run.phase(), Phase::Done);
    assert_eq!(d.stdout, b"hello\n".to_vec());
    assert_eq!(d.stderr, "");
    assert_eq!(d.writes, 1);
}

#[test]
fn files_are_concatenated_in_the_order_given() {
    let mut d = disk(&[("a", b"one "), ("b", b"two "), ("c", b"three")]);
    let (_, ok) = drive(&["c", "a", "b", "a"], &mut d);
    assert!(ok);
    assert_eq!(d.stdout, b"threeone two one ".to_vec());
    assert_eq!(d.read, strings(&["c", "a", "b", "a"]));
    assert_eq!(d.writes, 1);
}

#[test]
fn bytes_pass_unchanged() {
    let all: Vec<u8> = (0u8..=255u8).collect();
    let mut d = disk(&[("bin", &all), ("empty", b""), ("nl", b"\r\n\0")]);
    let (_, ok) = drive(&["bin", "empty", "nl", "bin"], &mut d);
    assert!(ok);
    let mut expected = all.clone();
    expected.extend_from_slice(b"\r\n\0");
    expected.extend_from_slice(&all);
    assert_eq!(d.stdout, expected);
}

#[test]
fn empty_files_give_empty_output() {
    let mut d = disk(&[("e1", b""), ("e2", b"")]);
    let (run, ok) = drive(&["e1", "e2"], &mut d);
    assert!(ok);
    assert_eq!(run.phase(), Phase::Done);
    assert_eq!(d.stdout, Vec::<u8>::new());
    assert_eq!(d.writes, 1);
}

#[test]
fn output_flag_sends_bytes_to_the_file() {
    let mut d = disk(&[("a", b"AA"), ("b", b"BB")]);
    let (run, ok) = drive(&["-o", "out", "a", "b"], &mut d);
    assert!(ok);
    assert_eq!(run.phase(), Phase::Done);
    assert_eq!(d.files["out"], b"AABB".to_vec());
    assert_eq!(d.stdout, Vec::<u8>::new());
    assert_eq!(d.stderr, "");
    assert_eq!(run.output_path(), Some("out"));
    assert_eq!(run.input_paths(), &strings(&["a", "b"]));
    assert_eq!(run.buffer(), &b"AABB"[..]);
}

#[test]
fn output_flag_may_stand_between_or_behind_the_files() {
    let mut d = disk(&[("a", b"1"), ("b", b"2")]);
    let (_, ok) = drive(&["a", "-o", "mid", "b"], &mut d);
    assert!(ok);
    assert_eq!(d.files["mid"], b"12".to_vec());
    let (_, ok) = drive(&["a", "b", "-o", "end"], &mut d);
    assert!(ok);
    assert_eq!(d.files["end"], b"12".to_vec());
    assert_eq!(d.stdout, Vec::<u8>::new());
    assert_eq!(d.checked, strings(&["a", "b", "a", "b"]));
}

#[test]
fn output_file_is_overwritten() {
    let mut d = disk(&[("a", b"new"), ("out", b"old contents that are longer")]);
    let (_, ok) = drive(&["-o", "out", "a"], &mut d);
    assert!(ok);
    assert_eq!(d.files["out"], b"new".to_vec());
}

#[test]
fn output_path_is_not_checked_as_an_input() {
    let mut d = disk(&[("a", b"x")]);
    let (_, ok) = drive(&["-o", "does/not/exist/yet", "a"], &mut d);
    assert!(ok);
    assert_eq!(d.checked, strings(&["a"]));
}

#[test]
fn last_output_flag_wins() {
    let mut d = disk(&[("a", b"x")]);
    let (run, ok) = drive(&["-o", "first", "a", "-o", "second"], &mut d);
    assert!(ok);
    assert_eq!(run.output_path(), Some("second"));
    assert_eq!(d.files["second"], b"x".to_vec());
    assert!(!d.files.contains_key("first"));
}

#[test]
fn token_after_output_flag_is_a_path_even_if_it_looks_like_a_flag() {
    let mut d = disk(&[("a", b"x")]);
    let (run, ok) = drive(&["-o", "-o", "a"], &mut d);
    assert!(ok);
    assert_eq!(run.output_path(), Some("-o"));
    assert_eq!(d.files["-o"], b"x".to_vec());

    let mut d = disk(&[("a", b"x")]);
    let (run, ok) = drive(&["-o", "-h", "a"], &mut d);
    assert!(ok);
    assert_eq!(run.phase(), Phase::Done);
    assert_eq!(d.files["-h"], b"x".to_vec());
    assert_eq!(d.stdout, Vec::<u8>::new());
}

#[test]
fn no_arguments_fail_with_usage() {
    let mut d = disk(&[]);
    let (run, ok) = drive(&[], &mut d);
    assert!(!ok);
    assert_eq!(run.phase(), Phase::Failed);
    assert_eq!(run.failure(), Some(&FailureKind::NoInputFiles));
    assert_eq!(
        d.stderr,
        format!("[ERROR] At least one file must be provided!\n{}", USAGE_OF_CAT)
    );
    assert_eq!(d.stdout, Vec::<u8>::new());
    assert_eq!(d.writes, 0);
}

#[test]
fn output_flag_alone_names_no_input() {
    let mut d = disk(&[]);
    let (run, ok) = drive(&["-o", "out"], &mut d);
    assert!(!ok);
    assert_eq!(run.failure(), Some(&FailureKind::NoInputFiles));
    assert_eq!(
        d.stderr,
        format!("[ERROR] At least one file must be provided!\n{}", USAGE_OF_CAT)
    );
    assert!(!d.files.contains_key("out"));
    assert_eq!(d.writes, 0);
}

#[test]
fn help_flag_shows_usage_and_succeeds() {
    for flag in ["-h", "--help", "/?"].iter() {
        let mut d = disk(&[]);
        let (run, ok) = drive(&[flag], &mut d);
        assert!(ok);
        assert_eq!(run.phase(), Phase::HelpDisplayed);
        assert_eq!(run.failure(), None);
        assert_eq!(d.stdout, USAGE_OF_CAT.as_bytes().to_vec());
        assert_eq!(d.stderr, "");
        assert!(d.checked.is_empty());
        assert!(d.read.is_empty());
        assert_eq!(d.writes, 0);
    }
}

#[test]
fn help_flag_wins_over_what_follows() {
    let mut d = disk(&[("a", b"x")]);
    let (run, ok) = drive(&["a", "-o", "out", "-h", "missing", "-o"], &mut d);
    assert!(ok);
    assert_eq!(run.phase(), Phase::HelpDisplayed);
    assert_eq!(d.stdout, USAGE_OF_CAT.as_bytes().to_vec());
    assert_eq!(d.checked, strings(&["a"]));
    assert!(d.read.is_empty());
    assert_eq!(d.writes, 0);
    assert!(!d.files.contains_key("out"));
}

#[test]
fn invalid_path_before_help_flag_fails() {
    let mut d = disk(&[]);
    let (run, ok) = drive(&["missing", "-h"], &mut d);
    assert!(!ok);
    assert_eq!(
        run.failure(),
        Some(&FailureKind::InvalidInputPath { path: String::from("missing") })
    );
    assert_eq!(d.stdout, Vec::<u8>::new());
}

#[test]
fn trailing_output_flag_fails_without_usage() {
    let mut d = disk(&[("a", b"x")]);
    let (run, ok) = drive(&["a", "-o"], &mut d);
    assert!(!ok);
    assert_eq!(run.failure(), Some(&FailureKind::MissingOutputArgument));
    assert_eq!(d.stderr, "[ERROR] Was expecting an output path after `-o` but got nothing\n");
    assert_eq!(d.stdout, Vec::<u8>::new());
    assert!(d.read.is_empty());
    assert_eq!(d.writes, 0);
}

#[test]
fn lone_output_flag_fails_for_its_path_first() {
    let mut d = disk(&[]);
    let (run, ok) = drive(&["-o"], &mut d);
    assert!(!ok);
    assert_eq!(run.failure(), Some(&FailureKind::MissingOutputArgument));
    assert_eq!(d.stderr, "[ERROR] Was expecting an output path after `-o` but got nothing\n");
}

#[test]
fn missing_file_fails_and_names_the_path() {
    let mut d = disk(&[("a", b"x")]);
    let (run, ok) = drive(&["-o", "out", "a", "no/such/file", "a"], &mut d);
    assert!(!ok);
    assert_eq!(run.phase(), Phase::Failed);
    assert_eq!(
        run.failure(),
        Some(&FailureKind::InvalidInputPath { path: String::from("no/such/file") })
    );
    assert_eq!(d.stderr, "[ERROR] Non-file passed in: no/such/file\n");
    assert!(d.stderr.contains("no/such/file"));
    assert!(!d.stderr.contains("Usage"));
    assert!(!d.files.contains_key("out"));
    assert_eq!(d.writes, 0);
    assert!(d.read.is_empty());
}

#[test]
fn parsing_stops_at_the_first_invalid_path() {
    let mut d = disk(&[("a", b"x")]);
    let (run, ok) = drive(&["a", "bad1", "bad2", "a"], &mut d);
    assert!(!ok);
    assert_eq!(
        run.failure(),
        Some(&FailureKind::InvalidInputPath { path: String::from("bad1") })
    );
    assert_eq!(d.checked, strings(&["a", "bad1"]));
}

#[test]
fn all_paths_are_checked_before_any_is_read() {
    let mut run = Run::start(String::from("cat"), strings(&["a", "b"]));
    assert_eq!(run.action(), Action::CheckFile("a"));
    assert!(run.step(Event::FileChecked(true)));
    assert_eq!(run.phase(), Phase::Parsing);
    assert_eq!(run.action(), Action::CheckFile("b"));
    assert!(run.step(Event::FileChecked(true)));
    assert_eq!(run.phase(), Phase::Reading);
    assert_eq!(run.action(), Action::ReadFile("a"));
    assert!(run.step(Event::FileRead(b"1".to_vec())));
    assert_eq!(run.action(), Action::ReadFile("b"));
    assert!(run.step(Event::FileRead(b"2".to_vec())));
    assert_eq!(run.phase(), Phase::Writing);
    assert_eq!(run.action(), Action::Write { target: None, bytes: &b"12"[..] });
    assert!(run.step(Event::Written));
    assert_eq!(run.phase(), Phase::Done);
    assert_eq!(run.action(), Action::Finish);
    assert!(run.is_over());
}

#[test]
fn read_error_fails_and_nothing_is_written() {
    let mut d = disk(&[("a", b"x"), ("locked", b"y"), ("c", b"z")]);
    d.unreadable.insert(String::from("locked"), String::from("Permission denied (os error 13)"));
    let (run, ok) = drive(&["-o", "out", "a", "locked", "c"], &mut d);
    assert!(!ok);
    assert_eq!(
        run.failure(),
        Some(&FailureKind::ReadFailure {
            path: String::from("locked"),
            error: String::from("Permission denied (os error 13)"),
        })
    );
    assert_eq!(d.stderr, "[ERROR] Failed to read file `locked`: Permission denied (os error 13)\n");
    assert_eq!(d.read, strings(&["a", "locked"]));
    assert_eq!(d.writes, 0);
    assert!(!d.files.contains_key("out"));
}

#[test]
fn open_error_fails_and_names_the_output_path() {
    let mut d = disk(&[("a", b"x")]);
    d.open_error = Some(String::from("Is a directory (os error 21)"));
    let (run, ok) = drive(&["a", "-o", "/tmp"], &mut d);
    assert!(!ok);
    assert_eq!(
        run.failure(),
        Some(&FailureKind::OutputOpenFailure {
            path: String::from("/tmp"),
            error: String::from("Is a directory (os error 21)"),
        })
    );
    assert_eq!(d.stderr, "[ERROR] Failed to open file `/tmp`: Is a directory (os error 21)\n");
}

#[test]
fn write_error_fails() {
    let mut d = disk(&[("a", b"x")]);
    d.write_error = Some(String::from("Broken pipe (os error 32)"));
    let (run, ok) = drive(&["a"], &mut d);
    assert!(!ok);
    assert_eq!(
        run.failure(),
        Some(&FailureKind::WriteFailure { error: String::from("Broken pipe (os error 32)") })
    );
    assert_eq!(d.stderr, "[ERROR] Failed to write to output: Broken pipe (os error 32)\n");
    assert_eq!(d.writes, 1);
}

#[test]
fn write_error_to_a_file_is_a_write_failure() {
    let mut d = disk(&[("a", b"x")]);
    d.write_error = Some(String::from("No space left on device (os error 28)"));
    let (run, ok) = drive(&["-o", "out", "a"], &mut d);
    assert!(!ok);
    assert_eq!(
        run.failure(),
        Some(&FailureKind::WriteFailure {
            error: String::from("No space left on device (os error 28)"),
        })
    );
}

#[test]
fn events_that_answer_nothing_are_refused() {
    let mut run = Run::start(String::from("cat"), strings(&["-o", "out", "a"]));
    assert_eq!(run.action(), Action::CheckFile("a"));
    assert!(!run.step(Event::FileRead(b"x".to_vec())));
    assert!(!run.step(Event::Written));
    assert!(!run.step(Event::OpenFailed(String::from("e"))));
    assert_eq!(run.phase(), Phase::Parsing);
    assert_eq!(run.action(), Action::CheckFile("a"));
    assert!(run.step(Event::FileChecked(true)));
    assert!(!run.step(Event::FileChecked(true)));
    assert!(!run.step(Event::WriteFailed(String::from("e"))));
    assert_eq!(run.action(), Action::ReadFile("a"));
    assert!(run.step(Event::FileRead(b"x".to_vec())));
    assert!(!run.step(Event::FileRead(b"y".to_vec())));
    assert!(!run.step(Event::ReadFailed(String::from("e"))));
    assert_eq!(run.action(), Action::Write { target: Some("out"), bytes: &b"x"[..] });
}

#[test]
fn open_failure_answers_only_a_write_to_a_file() {
    let mut run = Run::start(String::from("cat"), strings(&["a"]));
    assert!(run.step(Event::FileChecked(true)));
    assert!(run.step(Event::FileRead(b"x".to_vec())));
    assert_eq!(run.action(), Action::Write { target: None, bytes: &b"x"[..] });
    assert!(!run.step(Event::OpenFailed(String::from("e"))));
    assert_eq!(run.phase(), Phase::Writing);
    assert_eq!(run.failure(), None);
}

#[test]
fn a_run_that_is_over_takes_no_event() {
    let mut run = Run::start(String::from("cat"), strings(&["-h"]));
    assert!(run.is_over());
    assert!(!run.step(Event::FileChecked(true)));
    assert!(!run.step(Event::Written));
    assert_eq!(run.phase(), Phase::HelpDisplayed);

    let mut run = Run::start(String::from("cat"), strings(&["a"]));
    assert!(!run.is_over());
    assert!(run.step(Event::FileChecked(false)));
    assert!(run.is_over());
    assert!(!run.step(Event::FileChecked(true)));
    assert_eq!(run.phase(), Phase::Failed);
    assert_eq!(run.action(), Action::Fail(String::from("[ERROR] Non-file passed in: a\n")));
}

#[test]
fn repeated_run_writes_the_same_bytes() {
    let mut d = disk(&[("a", b"first "), ("b", b"second"), ("out", b"stale")]);
    let (_, ok) = drive(&["-o", "out", "a", "b"], &mut d);
    assert!(ok);
    let once = d.files["out"].clone();
    assert_eq!(once, b"first second".to_vec());
    let (_, ok) = drive(&["-o", "out", "a", "b"], &mut d);
    assert!(ok);
    assert_eq!(d.files["out"], once);
    let (_, ok) = drive(&["-o", "out", "a", "b"], &mut d);
    assert!(ok);
    assert_eq!(d.files["out"], once);
    assert_eq!(d.stdout, Vec::<u8>::new());
}

#[test]
fn output_that_is_also_the_only_input_keeps_its_bytes() {
    let mut d = disk(&[("same", b"kept")]);
    let (_, ok) = drive(&["-o", "same", "same"], &mut d);
    assert!(ok);
    assert_eq!(d.files["same"], b"kept".to_vec());
    let (_, ok) = drive(&["-o", "same", "same"], &mut d);
    assert!(ok);
    assert_eq!(d.files["same"], b"kept".to_vec());
}

#[test]
fn program_name_is_used_in_the_usage_text() {
    let run = Run::start(String::from("/usr/local/bin/join"), strings(&["--help"]));
    match run.action() {
        Action::ShowUsage(text) => {
            assert!(text.starts_with("Usage: /usr/local/bin/join <FileA>"));
            assert_eq!(text.lines().count(), 4);
        }
        other => panic!("expected the usage text, got {:?}", other),
    }
}
