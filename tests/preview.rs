use partial_commander::app::App;
use partial_commander::cwd::{cwd_host, key_presses, KeyPress, SHIFT_KEY};
use partial_commander::listing::{Entry, EntryKind, Scan};
use partial_commander::location::Location;
use partial_commander::sniff::{preview_text, FileSample, PREVIEW_LINES, SNIFF_LEN};

fn text_sample(n: usize) -> FileSample {
    let mut head = Vec::new();
    let mut lines = Vec::new();
    for i in 0..n {
        let line = format!("line {}", i);
        head.extend_from_slice(line.as_bytes());
        head.push(b'\n');
        lines.push(Some(line));
    }
    head.truncate(SNIFF_LEN);
    FileSample { head, lines }
}

#[test]
fn text_preview_keeps_first_twenty_lines() {
    let sample = text_sample(25);
    let shown = preview_text(&sample).unwrap();
    assert_eq!(shown.len(), 20);
    assert_eq!(PREVIEW_LINES, 20);
    for (i, line) in shown.iter().enumerate() {
        assert_eq!(line, &format!("line {}", i));
    }
}

#[test]
fn short_text_preview_is_whole_file() {
    let shown = preview_text(&text_sample(3)).unwrap();
    assert_eq!(shown, vec!["line 0".to_string(), "line 1".to_string(), "line 2".to_string()]);
}

#[test]
fn undecodable_lines_are_skipped() {
    let sample = FileSample {
        head: b"ok\nmore\nfine\n".to_vec(),
        lines: vec![Some("ok".to_string()), None, Some("fine".to_string())],
    };
    assert_eq!(preview_text(&sample).unwrap(), vec!["ok".to_string(), "fine".to_string()]);
}

#[test]
fn null_byte_means_no_preview() {
    let mut head = b"abc".to_vec();
    head.push(0);
    head.extend_from_slice(b"def");
    let sample = FileSample { head, lines: vec![Some("abc".to_string())] };
    assert!(preview_text(&sample).is_none());
}

#[test]
fn null_byte_after_sniff_window_is_ignored() {
    let mut head = vec![b'a'; 600];
    head[550] = 0;
    let sample = FileSample { head, lines: vec![Some("aaa".to_string())] };
    assert_eq!(preview_text(&sample).unwrap(), vec!["aaa".to_string()]);
}

#[test]
fn magic_numbers_and_byte_order_marks() {
    let pdf = FileSample { head: b"%PDF-1.4\n".to_vec(), lines: vec![Some("%PDF-1.4".to_string())] };
    assert!(preview_text(&pdf).is_none());
    let png = FileSample { head: b"\x89PNG\r\n".to_vec(), lines: vec![] };
    assert!(preview_text(&png).is_none());
    let utf16 = FileSample { head: vec![0xFF, 0xFE, b'h', 0, b'i', 0], lines: vec![Some("hi".to_string())] };
    assert_eq!(preview_text(&utf16).unwrap(), vec!["hi".to_string()]);
    let empty = FileSample { head: vec![], lines: vec![] };
    assert_eq!(preview_text(&empty).unwrap(), Vec::<String>::new());
}

#[test]
fn read_child_file_resolves_shown_child() {
    let app = App::new(Location::new("/".to_string(), "/".to_string(), vec!["a".to_string()]), false);
    let cwd = Scan::Entries(vec![
        Entry::new("b".to_string(), EntryKind::Directory),
        Entry::new("c.txt".to_string(), EntryKind::File),
    ]);
    let sample = text_sample(2);
    assert_eq!(
        app.read_child_file(1, &cwd, &Some(sample)).unwrap(),
        vec!["line 0".to_string(), "line 1".to_string()]
    );
    assert!(app.read_child_file(1, &cwd, &None).is_none());
    assert!(app.read_child_file(2, &cwd, &Some(text_sample(2))).is_none());
}

#[test]
fn host_command_for_location() {
    let l = Location::new("/".to_string(), "/".to_string(), vec!["home".to_string(), "me".to_string()]);
    assert_eq!(cwd_host(&l), "pushd /home/me\n");
}

#[test]
fn key_presses_with_and_without_shift() {
    assert_eq!(
        key_presses(0x0141),
        vec![
            KeyPress { key: SHIFT_KEY, up: false },
            KeyPress { key: 0x41, up: false },
            KeyPress { key: 0x41, up: true },
            KeyPress { key: SHIFT_KEY, up: true },
        ]
    );
    assert_eq!(key_presses(0x0041), vec![KeyPress { key: 0x41, up: false }, KeyPress { key: 0x41, up: true }]);
    assert_eq!(key_presses(0x0241), vec![KeyPress { key: 0x41, up: false }, KeyPress { key: 0x41, up: true }]);
}
