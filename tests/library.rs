use guess_encoding::accumulator::{verdict_for, Accumulator};
use guess_encoding::paths::{expand_paths, is_stdin_sentinel, split_lines};
use guess_encoding::run::Run;
use guess_encoding::verdict::Verdict;

/// Russian text in windows-1251: the letters А..я sit at 0xC0..0xFF.
fn cp1251(text: &str) -> Vec<u8> {
    text.chars()
        .map(|c| {
            let code = c as u32;
            if (0x410..=0x44F).contains(&code) {
                (code - 0x410 + 0xC0) as u8
            } else {
                assert!(code < 0x80);
                code as u8
            }
        })
        .collect()
}

fn cyrillic_sample() -> Vec<u8> {
    cp1251(
        "Съешь же ещё этих мягких французских булок, да выпей чаю. \
         Широкая электрификация южных губерний даст мощный толчок подъёму сельского хозяйства. \
         В чащах юга жил бы цитрус? Да, но фальшивый экземпляр!"
            .replace('ё', "е")
            .as_str(),
    )
}

fn strings(v: &[&str]) -> Vec<String> {
    v.iter().map(|s| s.to_string()).collect()
}

#[test]
fn ascii_file_is_reported_as_ascii() {
    let v = verdict_for(b"hello");
    assert_eq!(v.name, "ASCII");
    assert!(v.confident);
    assert_eq!(v.line(Some("a.txt")), "ASCII\ta.txt");
}

#[test]
fn empty_file_is_ascii() {
    let v = verdict_for(b"");
    assert_eq!(v.name, "ASCII");
    assert!(v.confident);
    assert_eq!(v.line(None), "ASCII");
}

#[test]
fn all_seven_bit_bytes_are_ascii() {
    let bytes: Vec<u8> = (0u8..0x80).collect();
    let v = verdict_for(&bytes);
    assert_eq!(v.line(None), "ASCII");
}

#[test]
fn utf8_text_is_guessed_as_utf8() {
    let v = verdict_for("héllo wörld, ça va très bien".as_bytes());
    assert_eq!(v.name, "UTF-8");
    assert!(v.confident);
    assert_eq!(v.line(Some("u.txt")), "UTF-8\tu.txt");
}

#[test]
fn cyrillic_text_is_not_ascii() {
    let v = verdict_for(&cyrillic_sample());
    assert_ne!(v.name, "ASCII");
    assert_eq!(v.name, "windows-1251");
}

#[test]
fn feed_reports_non_ascii_so_far() {
    let mut acc = Accumulator::new();
    assert!(!acc.feed(b"plain "));
    assert!(acc.feed(&[0xC0, 0xE1]));
    assert!(acc.feed(b" more plain"));
    assert_ne!(acc.finish().name, "ASCII");
}

#[test]
fn cyrillic_verdict_survives_chunking() {
    let bytes = cyrillic_sample();
    let whole = verdict_for(&bytes);
    for at in [0usize, 1, 7, bytes.len() / 2, bytes.len() - 1, bytes.len()] {
        let mut acc = Accumulator::new();
        acc.feed(&bytes[..at]);
        acc.feed(&bytes[at..]);
        let split = acc.finish();
        assert_eq!(split.name, whole.name);
        assert_eq!(split.confident, whole.confident);
    }
}

#[test]
fn split_just_before_the_first_non_ascii_byte() {
    let mut bytes = b"Text: ".to_vec();
    bytes.extend(cyrillic_sample());
    let first = bytes.iter().position(|b| *b >= 0x80).unwrap();
    assert!(first >= 3);
    let whole = verdict_for(&bytes);
    let mut acc = Accumulator::new();
    acc.feed(&bytes[..first - 1]);
    acc.feed(&bytes[first - 1..]);
    let split = acc.finish();
    assert_eq!(split.name, "windows-1251");
    assert_eq!(split.name, whole.name);
    assert_eq!(split.confident, whole.confident);
}

#[test]
fn where_buffers_meet_can_change_the_guess() {
    let bytes = b"a12\xBA ".to_vec();
    let whole = verdict_for(&bytes);
    let mut acc = Accumulator::new();
    acc.feed(&bytes[..2]);
    acc.feed(&bytes[2..]);
    let split = acc.finish();
    assert_eq!(whole.name, "windows-1252");
    assert_eq!(split.name, "ISO-8859-4");
}

#[test]
fn unsure_verdict_gets_question_mark() {
    let v = Verdict { name: "Shift_JIS".to_string(), confident: false };
    assert_eq!(v.line(Some("x.txt")), "?Shift_JIS\tx.txt");
    assert_eq!(v.line(None), "?Shift_JIS");
    let sure = Verdict { name: "Shift_JIS".to_string(), confident: true };
    assert_eq!(sure.line(None), "Shift_JIS");
}

#[test]
fn sentinel_is_a_lone_dash() {
    assert!(is_stdin_sentinel("-"));
    assert!(!is_stdin_sentinel("--"));
    assert!(!is_stdin_sentinel(""));
    assert!(!is_stdin_sentinel("a-"));
    assert!(!is_stdin_sentinel("—"));
}

#[test]
fn lines_are_split_on_line_feeds() {
    assert_eq!(split_lines("a.txt\nb.txt\n"), strings(&["a.txt", "b.txt"]));
    assert_eq!(split_lines("a.txt\nb.txt"), strings(&["a.txt", "b.txt"]));
    assert_eq!(split_lines("a\r\nb\r\n"), strings(&["a", "b"]));
    assert_eq!(split_lines("a\n\nb"), strings(&["a", "", "b"]));
    assert_eq!(split_lines("\n"), strings(&[""]));
    assert_eq!(split_lines("x\r"), strings(&["x\r"]));
    assert_eq!(split_lines("é/ü.txt\n-\n"), strings(&["é/ü.txt", "-"]));
    assert!(split_lines("").is_empty());
}

#[test]
fn expansion_keeps_order_and_duplicates() {
    let files = strings(&["d1", "d2"]);
    let lists = vec![strings(&["l1", "d1"]), vec![], strings(&["-", "l3"])];
    assert_eq!(expand_paths(files, lists), strings(&["d1", "d2", "l1", "d1", "-", "l3"]));
}

#[test]
fn nothing_given_means_nothing_to_do() {
    let out: Vec<String> = expand_paths(Vec::new(), Vec::new());
    assert!(out.is_empty());
    assert_eq!(Run::new(true).finish(), None);
    assert_eq!(Run::new(false).finish(), None);
}

#[test]
fn sentinel_in_a_list_stands_in_place() {
    let lists = vec![split_lines("first\n-\nlast\n")];
    let out = expand_paths(strings(&["direct"]), lists);
    assert_eq!(out, strings(&["direct", "first", "-", "last"]));
    let at: Vec<bool> = out.iter().map(|p| is_stdin_sentinel(p)).collect();
    assert_eq!(at, vec![false, false, true, false]);
}

#[test]
fn per_file_mode_prints_a_line_per_target() {
    let b = cyrillic_sample();
    let mut run = Run::new(false);
    let first = run.step("a.txt", b"hello").unwrap();
    let second = run.step("b.bin", &b).unwrap();
    let third = run.step("a.txt", b"hello").unwrap();
    assert_eq!(run.finish(), None);
    assert_eq!(first, "ASCII\ta.txt");
    assert!(second == "windows-1251\tb.bin" || second == "?windows-1251\tb.bin");
    assert_eq!(third, "ASCII\ta.txt");
}

#[test]
fn combined_mode_prints_one_line() {
    let b = cyrillic_sample();
    let mut run = Run::new(true);
    assert_eq!(run.step("a.txt", b"hello"), None);
    assert_eq!(run.step("b.bin", &b), None);
    let line = run.finish().unwrap();
    assert!(!line.contains("ASCII"));
    assert!(!line.contains('\t'));
    assert!(line == "windows-1251" || line == "?windows-1251");
}

#[test]
fn combined_mode_of_ascii_files_is_ascii() {
    let mut run = Run::new(true);
    assert_eq!(run.step("a.txt", b"hello "), None);
    assert_eq!(run.step("c.txt", b"world"), None);
    assert_eq!(run.finish(), Some("ASCII".to_string()));
}

#[test]
fn combined_mode_matches_the_concatenation() {
    let b = cyrillic_sample();
    let (x, y) = b.split_at(40);
    let mut run = Run::new(true);
    run.step("x", x);
    run.step("y", y);
    let whole = verdict_for(&b);
    assert_eq!(run.finish(), Some(whole.line(None)));
}
