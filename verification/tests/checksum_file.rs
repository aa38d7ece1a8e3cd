use checksum_backup::checksum_error::ChecksumError;
use checksum_backup::checksum_file::{check_file, ChecksumFile, FileInfo};
use checksum_backup::record_text::parse_line;

fn pairs(list: &ChecksumFile) -> Vec<(String, String)> {
    list.files.iter().map(|f: &FileInfo| (f.path.clone(), f.sha256.clone())).collect()
}

fn pair(path: &str, digest: &str) -> (String, String) {
    (String::from(path), String::from(digest))
}

#[test]
fn checksum_error_new() {
    let error = ChecksumError::new();
    assert_eq!(0, error.file_names.len());
}

#[test]
fn checksum_file_new() {
    let checksums = ChecksumFile::new();
    assert_eq!(0, checksums.files.len());
}

#[test]
fn add() {
    let mut checksums = ChecksumFile::new();
    checksums.add("foo", "1234");
    checksums.add("bar", "abcd");
    assert_eq!(2, checksums.files.len());

    assert_eq!("foo", checksums.files.get(0).unwrap().path);
    assert_eq!("1234", checksums.files.get(0).unwrap().sha256);

    assert_eq!("bar", checksums.files.get(1).unwrap().path);
    assert_eq!("abcd", checksums.files.get(1).unwrap().sha256);
}

#[test]
fn read_checksums() {
    let checksums = ChecksumFile::from_file(&vec![String::from("SHA256 (foo) = 1234")]);
    assert_eq!(1, checksums.files.len());

    let file = checksums.files.get(0).unwrap();
    assert_eq!("foo", file.path);
    assert_eq!("1234", file.sha256);
}

#[test]
fn read_checksums_from_text() {
    let checksums = ChecksumFile::from_text("SHA256 (foo) = 1234");
    assert_eq!(pairs(&checksums), vec![pair("foo", "1234")]);
    let checksums = ChecksumFile::from_text("SHA256 (foo().txt) = 1234");
    assert_eq!(pairs(&checksums), vec![pair("foo().txt", "1234")]);
}

#[test]
fn read_checksums_with_parentheses() {
    let checksums = ChecksumFile::from_file(&vec![String::from("SHA256 (foo().txt) = 1234")]);
    assert_eq!(1, checksums.files.len());

    let file = checksums.files.get(0).unwrap();
    assert_eq!("foo().txt", file.path);
    assert_eq!("1234", file.sha256);
}

#[test]
fn add_keeps_repeated_paths_and_text_as_given() {
    let mut checksums = ChecksumFile::new();
    checksums.add("./a//b", "ABcd");
    checksums.add("./a//b", "ABcd");
    checksums.add("", "not hex");
    assert_eq!(
        pairs(&checksums),
        vec![pair("./a//b", "ABcd"), pair("./a//b", "ABcd"), pair("", "not hex")]
    );
}

#[test]
fn save_writes_one_line_per_record() {
    let mut checksums = ChecksumFile::new();
    assert_eq!(checksums.save(), "");
    checksums.add("foo", "1234");
    assert_eq!(checksums.save(), "SHA256 (foo) = 1234\n");
    checksums.add("sub/b.txt", "abcdef");
    assert_eq!(checksums.save(), "SHA256 (foo) = 1234\nSHA256 (sub/b.txt) = abcdef\n");
}

#[test]
fn save_then_parse_gives_the_records_back() {
    let mut checksums = ChecksumFile::new();
    checksums.add("a.txt", "00ff");
    checksums.add("sub/b.txt", "ABCDEF0123456789");
    checksums.add("odd) = 12", "34");
    checksums.add("with (parens) and spaces", "e3b0c44298fc1c149afbf4c8996fb92427ae41e4649b934ca495991b7852b855");
    checksums.add("tr\u{e8}s \u{1f600}", "1");
    checksums.add("cr\rinside", "2");
    let text = checksums.save();
    let read = ChecksumFile::from_text(&text);
    assert_eq!(pairs(&read), pairs(&checksums));
}

#[test]
fn records_that_no_line_can_hold_do_not_come_back() {
    let mut checksums = ChecksumFile::new();
    checksums.add("", "12");
    checksums.add("a", "xyz");
    checksums.add("b\nc", "12");
    checksums.add("d", "");
    let read = ChecksumFile::from_text(&checksums.save());
    assert_eq!(pairs(&read), Vec::<(String, String)>::new());
}

#[test]
fn parse_skips_lines_that_are_no_records() {
    let text = "\n# a comment\nSHA256 (a.txt) = 12ab\nSHA256 (b.txt) = \nSHA256 () = 12\nsha256 (c.txt) = 12\nSHA256 (d.txt) = 12 \n SHA256 (e.txt) = 12\nSHA256 (f.txt) = 12g\nSHA256 (g.txt)  = 12\nMD5 (h.txt) = 12\n\nSHA256 (sub/i.txt) = CDEF\n";
    let read = ChecksumFile::from_text(text);
    assert_eq!(pairs(&read), vec![pair("a.txt", "12ab"), pair("sub/i.txt", "CDEF")]);
}

#[test]
fn parse_takes_the_path_up_to_the_last_separator() {
    let read = ChecksumFile::from_text("SHA256 (a) = 12) = 34\n");
    assert_eq!(pairs(&read), vec![pair("a) = 12", "34")]);
    let read = ChecksumFile::from_text("SHA256 (SHA256 (x) = 1) = 2\n");
    assert_eq!(pairs(&read), vec![pair("SHA256 (x) = 1", "2")]);
}

#[test]
fn parse_line_ends() {
    let read = ChecksumFile::from_text("SHA256 (a) = 12\r\nSHA256 (b) = 34\r\n");
    assert_eq!(pairs(&read), vec![pair("a", "12"), pair("b", "34")]);
    // without a line feed the carriage return stays, and the line is no record
    let read = ChecksumFile::from_text("SHA256 (a) = 12\r\nSHA256 (b) = 34\r");
    assert_eq!(pairs(&read), vec![pair("a", "12")]);
    // the last line needs no line feed
    let read = ChecksumFile::from_text("SHA256 (a) = 12\nSHA256 (b) = 34");
    assert_eq!(pairs(&read), vec![pair("a", "12"), pair("b", "34")]);
    // only one carriage return is taken off
    let read = ChecksumFile::from_text("SHA256 (a) = 12\r\r\n");
    assert_eq!(pairs(&read), Vec::<(String, String)>::new());
    let read = ChecksumFile::from_text("");
    assert_eq!(pairs(&read), Vec::<(String, String)>::new());
}

#[test]
fn parse_line_alone() {
    assert_eq!(parse_line("SHA256 (foo) = 1234"), Some(pair("foo", "1234")));
    assert_eq!(parse_line("SHA256 (foo().txt) = 1234"), Some(pair("foo().txt", "1234")));
    assert_eq!(parse_line("SHA256 (f) = aAfF09"), Some(pair("f", "aAfF09")));
    assert_eq!(parse_line("SHA256 (f\ng) = 12"), None);
    assert_eq!(parse_line("SHA256 (f) = 12\n"), None);
    assert_eq!(parse_line("SHA256 (f) = "), None);
    assert_eq!(parse_line("SHA256 () = 12"), None);
    assert_eq!(parse_line("SHA256 (f) =12"), None);
    assert_eq!(parse_line("SHA256(f) = 12"), None);
    assert_eq!(parse_line("xSHA256 (f) = 12"), None);
    assert_eq!(parse_line("12"), None);
    assert_eq!(parse_line(""), None);
    assert_eq!(parse_line("SHA256 (\u{e9}) = 12"), Some(pair("\u{e9}", "12")));
}

#[test]
fn check_file_compares_letter_for_letter() {
    let recorded = String::from("12ab");
    assert_eq!(check_file("foo", &recorded, &Some(String::from("12ab"))), Ok(()));
    assert_eq!(check_file("foo", &recorded, &Some(String::from("12AB"))), Err(String::from("foo")));
    assert_eq!(check_file("foo", &recorded, &Some(String::from("12ac"))), Err(String::from("foo")));
    assert_eq!(check_file("sub/foo", &recorded, &None), Err(String::from("sub/foo")));
}

fn two_files() -> ChecksumFile {
    let mut checksums = ChecksumFile::new();
    checksums.add("a.txt", "aa11");
    checksums.add("sub/b.txt", "bb22");
    checksums.add("c.txt", "cc33");
    checksums
}

fn digests(values: &[Option<&str>]) -> Vec<Option<String>> {
    values.iter().map(|v| v.map(String::from)).collect()
}

#[test]
fn check_succeeds_on_an_unchanged_tree_each_time() {
    let checksums = two_files();
    let found = digests(&[Some("aa11"), Some("bb22"), Some("cc33")]);
    assert!(checksums.check(&found).is_ok());
    assert!(checksums.check(&found).is_ok());
    assert!(ChecksumFile::new().check(&Vec::new()).is_ok());
}

#[test]
fn check_reports_the_one_changed_file() {
    let checksums = two_files();
    let found = digests(&[Some("aa11"), Some("0000"), Some("cc33")]);
    let error = checksums.check(&found).unwrap_err();
    assert_eq!(error.file_names, vec![String::from("sub/b.txt")]);
}

#[test]
fn check_reports_every_changed_file_in_order() {
    let checksums = two_files();
    let found = digests(&[Some("ffff"), Some("bb22"), None]);
    let error = checksums.check(&found).unwrap_err();
    assert_eq!(error.file_names, vec![String::from("a.txt"), String::from("c.txt")]);
}

#[test]
fn check_counts_a_record_without_a_digest_as_unread() {
    let checksums = two_files();
    let found = digests(&[Some("aa11")]);
    let error = checksums.check(&found).unwrap_err();
    assert_eq!(error.file_names, vec![String::from("sub/b.txt"), String::from("c.txt")]);
    let found = digests(&[Some("aa11"), Some("bb22"), Some("cc33"), Some("dd44")]);
    assert!(checksums.check(&found).is_ok());
}

#[test]
fn check_reports_a_path_once_for_each_of_its_records() {
    let mut checksums = ChecksumFile::new();
    checksums.add("a.txt", "aa11");
    checksums.add("a.txt", "aa11");
    let error = checksums.check(&digests(&[None, None])).unwrap_err();
    assert_eq!(error.file_names, vec![String::from("a.txt"), String::from("a.txt")]);
}

#[test]
fn from_file_reads_each_line_as_it_is() {
    let lines = vec![
        String::from("SHA256 (a.txt) = 12ab"),
        String::from(""),
        String::from("SHA256 (b.txt) = 34\r"),
        String::from("# SHA256 (c.txt) = 56"),
        String::from("SHA256 (sub/d.txt) = 78"),
    ];
    let read = ChecksumFile::from_file(&lines);
    assert_eq!(pairs(&read), vec![pair("a.txt", "12ab"), pair("sub/d.txt", "78")]);
    assert_eq!(pairs(&ChecksumFile::from_file(&Vec::new())), Vec::<(String, String)>::new());
}

/// What the pattern of a record line gives for a line.
fn by_pattern(line: &str) -> Option<(String, String)> {
    let pattern = regex::Regex::new(r"^SHA256 \((.+)\) = ([0-9a-fA-F]+)$").unwrap();
    pattern
        .captures(line)
        .map(|found| (String::from(found.get(1).unwrap().as_str()), String::from(found.get(2).unwrap().as_str())))
}

#[test]
fn parse_line_reads_what_the_pattern_matches() {
    let lines = [
        "SHA256 (foo) = 1234",
        "SHA256 (foo().txt) = 1234",
        "SHA256 (a) = 12) = 34",
        "SHA256 (a) = 12) = 3g",
        "SHA256 (a) = ) = ",
        "SHA256 () = 12) = 34",
        "SHA256 ()) = 12",
        "SHA256 ( ) = 12",
        "SHA256 () = 12",
        "SHA256 (a) = ",
        "SHA256 (a) = 12 ",
        "SHA256 (a) = 12\r",
        "SHA256 (a) = 12\n",
        "SHA256 (a\nb) = 12",
        "SHA256 (a\rb) = 12",
        "\nSHA256 (a) = 12",
        "SHA256 (a)  = 12",
        "SHA256 (a) =  12",
        "SHA256  (a) = 12",
        "SHA256(a) = 12",
        "sha256 (a) = 12",
        "SHA256 (a) = 0123456789abcdefABCDEF",
        "SHA256 (a) = 0x12",
        "SHA256 (a) = \u{ff11}\u{ff12}",
        "SHA256 (\u{e9}t\u{e9} \u{1f600}) = 12",
        "SHA256 (SHA256 (a) = 12) = 34",
        "SHA256 (a) = 12SHA256 (b) = 34",
        "SHA256 =",
        "SHA256 () = ",
        "SHA256 (",
        ") = 12",
        "12",
        " ",
        "",
    ];
    for line in lines {
        assert_eq!(parse_line(line), by_pattern(line), "on the line {:?}", line);
    }
}
