use content_searcher::pattern::Pattern;
use content_searcher::pipeline::RunTotals;
use content_searcher::scan::scan_content;
use content_searcher::scan::scan_read_result;
use content_searcher::scan::FileMatch;
use content_searcher::text::split_lines;

fn scan(pattern: &str, content: &[u8]) -> Option<FileMatch> {
    let p = Pattern::compile(pattern).unwrap();
    scan_content(&p, String::from("probe"), &content.to_vec())
}

#[test]
fn one_context_per_matching_line() {
    // four lines, three of them matching: the count follows the lines, not
    // the occurrences (the repeated "foo foo" line counts once)
    let fm = scan("foo", b"foo a\nnope\nfoo foo\nb foo").unwrap();
    assert_eq!(fm.match_count, 3);
    assert_eq!(fm.matches.len(), 3);
}

#[test]
fn no_matching_line_yields_nothing() {
    assert!(scan("foo", b"bar\nbaz").is_none());
    assert!(scan("foo", b"").is_none());
}

#[test]
fn matching_lines_reported_in_line_order() {
    let fm = scan("[0-9]+", b"id 12\nwords only\nid 345 and 6").unwrap();
    assert_eq!(fm.match_count, 2);
    assert_eq!(fm.matches[0].text, b"12".to_vec());
    assert_eq!(fm.matches[1].text, b"345".to_vec());
    // only the first occurrence of a line is reported
    let inner = &fm.matches[1];
    assert_eq!(&inner.text[inner.start..inner.end], b"345");
}

#[test]
fn two_matching_lines_with_contexts_and_offsets() {
    let fm = scan("foo", b"foo bar\nbaz foo qux").unwrap();
    assert_eq!(fm.path, "probe");
    assert_eq!(fm.match_count, 2);
    assert_eq!(fm.matches[0].text, b"foo".to_vec());
    assert_eq!(fm.matches[0].start, 0);
    assert_eq!(fm.matches[0].end, 3);
    assert_eq!(fm.matches[1].text, b"foo".to_vec());
    assert_eq!(fm.matches[1].start, 0);
    assert_eq!(fm.matches[1].end, 3);
}

#[test]
fn no_match_on_unmatched_file() {
    assert!(scan("foo", b"nothing here").is_none());
}

#[test]
fn failed_read_is_excluded() {
    let p = Pattern::compile("foo").unwrap();
    assert!(scan_read_result(&p, String::from("b.bin"), None).is_none());
}

#[test]
fn read_content_is_scanned() {
    let p = Pattern::compile("foo").unwrap();
    let fm = scan_read_result(&p, String::from("a.txt"), Some(b"foo".to_vec())).unwrap();
    assert_eq!(fm.path, "a.txt");
    assert_eq!(fm.match_count, 1);
}

#[test]
fn carriage_returns_do_not_join_lines() {
    let fm = scan("ab$", b"ab\r\nab\ncd").unwrap();
    assert_eq!(fm.match_count, 2);
    assert_eq!(fm.matches[0].text, b"ab".to_vec());
}

#[test]
fn scanning_twice_yields_identical_results() {
    let content = b"alpha beta\ngamma\nbeta beta".to_vec();
    let p = Pattern::compile("beta").unwrap();
    let a = scan_content(&p, String::from("f"), &content).unwrap();
    let b = scan_content(&p, String::from("f"), &content).unwrap();
    assert_eq!(a.match_count, b.match_count);
    assert_eq!(a.matches.len(), b.matches.len());
    for (x, y) in a.matches.iter().zip(b.matches.iter()) {
        assert_eq!(x.text, y.text);
        assert_eq!(x.start, y.start);
        assert_eq!(x.end, y.end);
    }
}

#[test]
fn invalid_pattern_is_rejected() {
    assert!(Pattern::compile("(").is_none());
    assert!(Pattern::compile("foo").is_some());
}

#[test]
fn scenario_directory_with_mixed_files() {
    // three files: a matching text file, an unreadable binary, a text file
    // without matches; only the first is reported
    let p = Pattern::compile("foo").unwrap();
    let mut totals = RunTotals::new();

    let a = scan_read_result(&p, String::from("a.txt"), Some(b"foo bar\nbaz foo qux".to_vec()));
    let b = scan_read_result(&p, String::from("b.bin"), None);
    let c = scan_read_result(&p, String::from("c.txt"), Some(b"nothing here".to_vec()));

    let a = a.unwrap();
    assert_eq!(a.path, "a.txt");
    assert_eq!(a.match_count, 2);
    for m in &a.matches {
        assert_eq!(&m.text[m.start..m.end], b"foo");
    }
    assert!(b.is_none());
    assert!(c.is_none());

    totals.record(a);
    assert_eq!(totals.total_matches, 2);
    assert_eq!(totals.files_with_matches, 1);
    assert_eq!(totals.detected_files, vec![String::from("a.txt")]);
}

#[test]
fn split_lines_matches_std_lines() {
    let cases: Vec<&[u8]> = vec![
        b"",
        b"a",
        b"a\n",
        b"a\nb",
        b"a\r\nb\n",
        b"\n\n",
        b"end\r",
    ];
    for content in cases {
        let got = split_lines(&content.to_vec());
        let expect: Vec<Vec<u8>> = std::str::from_utf8(content)
            .unwrap()
            .lines()
            .map(|l| l.as_bytes().to_vec())
            .collect();
        assert_eq!(got, expect);
    }
}
