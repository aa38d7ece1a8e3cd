//! The textual form of a checksum list: one line per record,
//! `SHA256 (<path>) = <hex digest>`.

use vstd::prelude::*;

verus! {

/// A record as contracts see it: a relative path and the digest of the file's content.
pub struct Record {
    pub path: Seq<char>,
    pub digest: Seq<char>,
}

/// A hexadecimal digit, in either case.
pub open spec fn is_hex_digit(c: char) -> bool {
    ('0' <= c && c <= '9') || ('a' <= c && c <= 'f') || ('A' <= c && c <= 'F')
}

/// A digest as it may stand in a line: one hexadecimal digit or more.
pub open spec fn is_hex(s: Seq<char>) -> bool {
    &&& s.len() > 0
    &&& forall|i: int| 0 <= i < s.len() ==> is_hex_digit(#[trigger] s[i])
}

/// Whether a text holds a line feed.
pub open spec fn has_newline(s: Seq<char>) -> bool {
    exists|i: int| 0 <= i < s.len() && #[trigger] s[i] == '\n'
}

/// What stands before the path in a line.
pub open spec fn line_head() -> Seq<char> {
    seq!['S', 'H', 'A', '2', '5', '6', ' ', '(']
}

/// What stands between the path and the digest.
pub open spec fn line_mid() -> Seq<char> {
    seq![')', ' ', '=', ' ']
}

/// The line that stands for a record, without its line end.
pub open spec fn record_line(r: Record) -> Seq<char> {
    line_head() + r.path + line_mid() + r.digest
}

/// A record that a line can stand for: its path is not empty and holds no
/// line feed, and its digest is hexadecimal.
pub open spec fn is_writable(r: Record) -> bool {
    &&& r.path.len() > 0
    &&& !has_newline(r.path)
    &&& is_hex(r.digest)
}

/// `line` is the line of the record `r`.
pub open spec fn is_record_line(line: Seq<char>, r: Record) -> bool {
    is_writable(r) && line == record_line(r)
}

/// The record that a line stands for, if it stands for one. There is at most
/// one (`lemma_record_line_unique`): the digest is the line's longest
/// hexadecimal end, so a path may itself hold `) = `.
pub open spec fn parsed_line(line: Seq<char>) -> Option<Record> {
    if exists|r: Record| is_record_line(line, r) {
        Some(choose|r: Record| is_record_line(line, r))
    } else {
        None
    }
}

/// Where the digest of a record line starts: `k` when the line is hexadecimal
/// from `k` on and not just before `k`.
pub open spec fn is_digest_start(line: Seq<char>, k: int) -> bool {
    &&& 0 <= k <= line.len()
    &&& forall|i: int| k <= i < line.len() ==> is_hex_digit(#[trigger] line[i])
    &&& (k == 0 || !is_hex_digit(line[k - 1]))
}

/// A record line falls into its four parts at the start of its hexadecimal end.
pub proof fn lemma_record_line_parts(line: Seq<char>, r: Record, k: int)
    requires
        is_record_line(line, r),
        is_digest_start(line, k),
    ensures
        k == line.len() - r.digest.len(),
        k >= 13,
        k < line.len(),
        line.subrange(0, 8) == line_head(),
        r.path == line.subrange(8, k - 4),
        line.subrange(k - 4, k) == line_mid(),
        r.digest == line.subrange(k, line.len() as int),
{
    let n = line.len() as int;
    let m = r.digest.len() as int;
    let q = r.path.len() as int;
    assert(n == 8 + q + 4 + m);
    assert(line[n - m - 1] == ' ');
    assert forall|i: int| n - m <= i < n implies is_hex_digit(#[trigger] line[i]) by {
        assert(line[i] == r.digest[i - (n - m)]);
    }
    if k < n - m {
        assert(is_hex_digit(line[n - m - 1]));
    }
    if k > n - m {
        assert(is_hex_digit(line[k - 1]));
    }
    assert(line.subrange(0, 8) =~= line_head());
    assert(r.path =~= line.subrange(8, k - 4));
    assert(line.subrange(k - 4, k) =~= line_mid());
    assert(r.digest =~= line.subrange(k, n));
}

/// Where the longest hexadecimal end of a line starts.
pub open spec fn digest_start(line: Seq<char>) -> int
    decreases line.len(),
{
    if line.len() > 0 && is_hex_digit(line.last()) {
        digest_start(line.drop_last())
    } else {
        line.len() as int
    }
}

/// Every line has a start of its hexadecimal end, at the line's end if the
/// line does not end in a hexadecimal digit.
pub proof fn lemma_digest_start(line: Seq<char>)
    ensures
        is_digest_start(line, digest_start(line)),
    decreases line.len(),
{
    if line.len() > 0 && is_hex_digit(line.last()) {
        let shorter = line.drop_last();
        lemma_digest_start(shorter);
        let k = digest_start(shorter);
        assert forall|i: int| k <= i < line.len() implies is_hex_digit(#[trigger] line[i]) by {
            if i < shorter.len() {
                assert(line[i] == shorter[i]);
            }
        }
        if k > 0 {
            assert(line[k - 1] == shorter[k - 1]);
        }
    }
}

/// A line stands for one record at most.
pub proof fn lemma_record_line_unique(line: Seq<char>, a: Record, b: Record)
    requires
        is_record_line(line, a),
        is_record_line(line, b),
    ensures
        a == b,
{
    lemma_digest_start(line);
    lemma_record_line_parts(line, a, digest_start(line));
    lemma_record_line_parts(line, b, digest_start(line));
}

/// The line of a writable record stands for that record.
pub proof fn lemma_parsed_record_line(r: Record)
    requires
        is_writable(r),
    ensures
        parsed_line(record_line(r)) == Some(r),
{
    let line = record_line(r);
    assert(is_record_line(line, r));
    let c = choose|c: Record| is_record_line(line, c);
    lemma_record_line_unique(line, c, r);
}

/// Where the first line of a text ends: the place of its first line feed, or
/// the text's length where it holds none.
pub open spec fn first_newline(text: Seq<char>) -> int
    decreases text.len(),
{
    if text.len() == 0 || text[0] == '\n' {
        0
    } else {
        1 + first_newline(text.drop_first())
    }
}

/// A line as it is read: without the carriage return that stood before its
/// line feed.
pub open spec fn without_cr(line: Seq<char>) -> Seq<char> {
    if line.len() > 0 && line.last() == '\r' {
        line.drop_last()
    } else {
        line
    }
}

/// The lines of a text. A line ends at a line feed; a carriage return just
/// before that line feed is no part of the line. What follows the last line
/// feed is a line if it is not empty, and keeps a carriage return at its end.
pub open spec fn lines_of(text: Seq<char>) -> Seq<Seq<char>>
    decreases text.len(),
{
    let e = first_newline(text);
    if text.len() == 0 {
        Seq::empty()
    } else if 0 <= e < text.len() {
        seq![without_cr(text.subrange(0, e))] + lines_of(text.subrange(e + 1, text.len() as int))
    } else {
        seq![text]
    }
}

/// The records that lines stand for, in the lines' order. A line that stands
/// for none is passed over.
pub open spec fn records_of_lines(lines: Seq<Seq<char>>) -> Seq<Record>
    decreases lines.len(),
{
    if lines.len() == 0 {
        Seq::empty()
    } else {
        match parsed_line(lines[0]) {
            Some(r) => seq![r] + records_of_lines(lines.drop_first()),
            None => records_of_lines(lines.drop_first()),
        }
    }
}

/// The records that a text holds.
pub open spec fn records_of_text(text: Seq<char>) -> Seq<Record> {
    records_of_lines(lines_of(text))
}

/// The text of a list of records: each record's line, in order, each ended
/// by a line feed.
pub open spec fn text_of_records(records: Seq<Record>) -> Seq<char>
    decreases records.len(),
{
    if records.len() == 0 {
        Seq::empty()
    } else {
        text_of_records(records.drop_last()) + record_line(records.last()) + seq!['\n']
    }
}

/// The first line ends at `e` when no line feed stands before `e` and one
/// stands at `e`, or the text ends there.
pub proof fn lemma_first_newline(text: Seq<char>, e: int)
    requires
        0 <= e <= text.len(),
        forall|i: int| 0 <= i < e ==> #[trigger] text[i] != '\n',
        e == text.len() || text[e] == '\n',
    ensures
        first_newline(text) == e,
    decreases text.len(),
{
    if text.len() == 0 || text[0] == '\n' {
    } else {
        let rest = text.drop_first();
        assert forall|i: int| 0 <= i < e - 1 implies #[trigger] rest[i] != '\n' by {
            assert(rest[i] == text[i + 1]);
        }
        lemma_first_newline(rest, e - 1);
    }
}

/// The records of a text are those of its first line, then those of the rest.
pub proof fn lemma_records_of_text_step(text: Seq<char>, e: int)
    requires
        0 <= e < text.len(),
        forall|i: int| 0 <= i < e ==> #[trigger] text[i] != '\n',
        text[e] == '\n',
    ensures
        records_of_text(text) == (match parsed_line(without_cr(text.subrange(0, e))) {
            Some(r) => seq![r],
            None => Seq::<Record>::empty(),
        }) + records_of_text(text.subrange(e + 1, text.len() as int)),
{
    lemma_first_newline(text, e);
    let first = without_cr(text.subrange(0, e));
    let rest = lines_of(text.subrange(e + 1, text.len() as int));
    let lines = seq![first] + rest;
    assert(lines_of(text) == lines);
    assert(lines[0] == first);
    assert(lines.drop_first() =~= rest);
    match parsed_line(first) {
        Some(r) => {},
        None => {
            assert(Seq::<Record>::empty() + records_of_lines(rest) =~= records_of_lines(rest));
        },
    }
}

/// The records of a text without a line feed are those of its one line.
pub proof fn lemma_records_of_text_end(text: Seq<char>)
    requires
        forall|i: int| 0 <= i < text.len() ==> #[trigger] text[i] != '\n',
    ensures
        records_of_text(text) == (if text.len() == 0 {
            Seq::<Record>::empty()
        } else {
            match parsed_line(text) {
                Some(r) => seq![r],
                None => Seq::<Record>::empty(),
            }
        }),
{
    lemma_first_newline(text, text.len() as int);
    if text.len() > 0 {
        let lines = seq![text];
        assert(lines_of(text) == lines);
        assert(lines[0] == text);
        assert(lines.drop_first() =~= Seq::<Seq<char>>::empty());
        assert(records_of_lines(lines.drop_first()) =~= Seq::<Record>::empty());
        match parsed_line(text) {
            Some(r) => {
                assert(seq![r] + Seq::<Record>::empty() =~= seq![r]);
            },
            None => {},
        }
    } else {
        assert(lines_of(text) =~= Seq::<Seq<char>>::empty());
    }
}

/// Where the first line ends, no line feed stands before.
pub proof fn lemma_first_newline_is_first(text: Seq<char>)
    ensures
        0 <= first_newline(text) <= text.len(),
        forall|i: int| 0 <= i < first_newline(text) ==> #[trigger] text[i] != '\n',
        first_newline(text) == text.len() || text[first_newline(text)] == '\n',
    decreases text.len(),
{
    if text.len() == 0 || text[0] == '\n' {
    } else {
        let rest = text.drop_first();
        lemma_first_newline_is_first(rest);
        assert forall|i: int| 0 <= i < first_newline(text) implies #[trigger] text[i] != '\n' by {
            if i > 0 {
                assert(text[i] == rest[i - 1]);
            }
        }
    }
}

/// A text that ends its last line can be read part by part: the records of
/// `a + b` are those of `a`, then those of `b`.
pub proof fn lemma_records_of_text_concat(a: Seq<char>, b: Seq<char>)
    requires
        a.len() == 0 || a.last() == '\n',
    ensures
        records_of_text(a + b) == records_of_text(a) + records_of_text(b),
    decreases a.len(),
{
    if a.len() == 0 {
        assert(a + b =~= b);
        assert(lines_of(a) =~= Seq::<Seq<char>>::empty());
        assert(Seq::<Record>::empty() + records_of_text(b) =~= records_of_text(b));
    } else {
        lemma_first_newline_is_first(a);
        let e = first_newline(a);
        let whole = a + b;
        assert(e < a.len());
        assert forall|i: int| 0 <= i < e implies #[trigger] whole[i] != '\n' by {
            assert(whole[i] == a[i]);
        }
        assert(whole[e] == a[e]);
        lemma_records_of_text_step(a, e);
        lemma_records_of_text_step(whole, e);
        let a_rest = a.subrange(e + 1, a.len() as int);
        assert(whole.subrange(0, e) =~= a.subrange(0, e));
        assert(whole.subrange(e + 1, whole.len() as int) =~= a_rest + b);
        if a_rest.len() > 0 {
            assert(a_rest.last() == a.last());
        }
        lemma_records_of_text_concat(a_rest, b);
        let first = match parsed_line(without_cr(a.subrange(0, e))) {
            Some(r) => seq![r],
            None => Seq::<Record>::empty(),
        };
        assert(first + (records_of_text(a_rest) + records_of_text(b)) =~= (first + records_of_text(
            a_rest,
        )) + records_of_text(b));
    }
}

/// The text of a list of records ends its last line.
pub proof fn lemma_text_of_records_ends(records: Seq<Record>)
    ensures
        text_of_records(records).len() == 0 || text_of_records(records).last() == '\n',
{
}

/// The line of a writable record holds no line feed and does not end in a
/// carriage return.
pub proof fn lemma_record_line_is_one_line(r: Record)
    requires
        is_writable(r),
    ensures
        !has_newline(record_line(r)),
        without_cr(record_line(r)) == record_line(r),
{
    let line = record_line(r);
    let q = r.path.len() as int;
    assert forall|i: int| 0 <= i < line.len() implies #[trigger] line[i] != '\n' by {
        if i < 8 {
            assert(line[i] == line_head()[i]);
        } else if i < 8 + q {
            assert(line[i] == r.path[i - 8]);
        } else if i < 12 + q {
            assert(line[i] == line_mid()[i - 8 - q]);
        } else {
            assert(line[i] == r.digest[i - 12 - q]);
        }
    }
    assert(line.last() == r.digest.last());
    assert(is_hex_digit(r.digest[r.digest.len() - 1]));
}

/// Every record that is read from a text is writable.
pub proof fn lemma_records_of_lines_writable(lines: Seq<Seq<char>>, i: int)
    requires
        0 <= i < records_of_lines(lines).len(),
    ensures
        is_writable(records_of_lines(lines)[i]),
    decreases lines.len(),
{
    if lines.len() > 0 {
        let rest = records_of_lines(lines.drop_first());
        match parsed_line(lines[0]) {
            Some(r) => {
                assert(is_record_line(lines[0], r));
                if i > 0 {
                    lemma_records_of_lines_writable(lines.drop_first(), i - 1);
                    assert((seq![r] + rest)[i] == rest[i - 1]);
                }
            },
            None => {
                lemma_records_of_lines_writable(lines.drop_first(), i);
            },
        }
    }
}

/// Writing then reading gives the list back. A list of writable records,
/// written out as text and read again, is the same list: the same records in
/// the same order.
pub proof fn lemma_write_then_read(records: Seq<Record>)
    requires
        forall|i: int| 0 <= i < records.len() ==> is_writable(#[trigger] records[i]),
    ensures
        records_of_text(text_of_records(records)) == records,
    decreases records.len(),
{
    if records.len() == 0 {
        assert(lines_of(Seq::<char>::empty()) =~= Seq::<Seq<char>>::empty());
        assert(records_of_text(text_of_records(records)) =~= records);
    } else {
        let before = records.drop_last();
        let r = records.last();
        let line = record_line(r);
        let ended = line + seq!['\n'];
        assert forall|i: int| 0 <= i < before.len() implies is_writable(#[trigger] before[i]) by {
            assert(before[i] == records[i]);
        }
        lemma_write_then_read(before);
        lemma_text_of_records_ends(before);
        assert(text_of_records(records) =~= text_of_records(before) + ended);
        lemma_records_of_text_concat(text_of_records(before), ended);
        lemma_record_line_is_one_line(r);
        assert forall|i: int| 0 <= i < line.len() implies #[trigger] ended[i] != '\n' by {
            assert(ended[i] == line[i]);
        }
        assert(ended[line.len() as int] == '\n');
        lemma_records_of_text_step(ended, line.len() as int);
        assert(ended.subrange(0, line.len() as int) =~= line);
        assert(ended.subrange(line.len() as int + 1, ended.len() as int) =~= Seq::<char>::empty());
        assert(lines_of(Seq::<char>::empty()) =~= Seq::<Seq<char>>::empty());
        lemma_parsed_record_line(r);
        assert(records_of_text(ended) =~= seq![r]);
        assert(before + seq![r] =~= records);
    }
}

/// Only writable records come back. A list that holds a record that is not
/// writable is not what reading its text gives.
pub proof fn lemma_read_gives_writable(records: Seq<Record>, i: int)
    requires
        0 <= i < records.len(),
        !is_writable(records[i]),
    ensures
        records_of_text(text_of_records(records)) != records,
{
    let read = records_of_text(text_of_records(records));
    if read == records {
        lemma_records_of_lines_writable(lines_of(text_of_records(records)), i);
    }
}

/// A line that stands for no record leaves no trace: the records of lines
/// with such a line among them are those of the lines without it.
pub proof fn lemma_other_lines_are_skipped(before: Seq<Seq<char>>, line: Seq<char>, after: Seq<Seq<char>>)
    requires
        parsed_line(line) is None,
    ensures
        records_of_lines(before + seq![line] + after) == records_of_lines(before + after),
    decreases before.len(),
{
    let with = before + seq![line] + after;
    if before.len() == 0 {
        assert(with.drop_first() =~= after);
        assert(before + after =~= after);
        assert(with[0] == line);
    } else {
        assert(with[0] == before[0]);
        assert((before + after)[0] == before[0]);
        assert(with.drop_first() =~= before.drop_first() + seq![line] + after);
        assert((before + after).drop_first() =~= before.drop_first() + after);
        lemma_other_lines_are_skipped(before.drop_first(), line, after);
    }
}

/// `String::push` of std: the character is added at the string's end.
pub assume_specification[ String::push ](s: &mut String, c: char)
    ensures
        final(s)@ == old(s)@.push(c),
;

/// Whether a character is a hexadecimal digit.
pub fn hex_digit(c: char) -> (b: bool)
    ensures
        b == is_hex_digit(c),
{
    ('0' <= c && c <= '9') || ('a' <= c && c <= 'f') || ('A' <= c && c <= 'F')
}

/// The characters of a string.
pub fn chars_of(s: &str) -> (chars: Vec<char>)
    ensures
        chars@ == s@,
{
    let mut chars: Vec<char> = Vec::new();
    let it = s.chars();
    for c in iter: it
        invariant
            chars@ == iter.seq().take(iter.index@),
    {
        chars.push(c);
    }
    chars
}

/// The string of the characters from `from` up to `to`.
pub(crate) fn string_of(chars: &Vec<char>, from: usize, to: usize) -> (s: String)
    requires
        from <= to <= chars.len(),
    ensures
        s@ == chars@.subrange(from as int, to as int),
{
    let mut s = String::new();
    let mut i: usize = from;
    while i < to
        invariant
            from <= i <= to <= chars.len(),
            s@ == chars@.subrange(from as int, i as int),
        decreases to - i,
    {
        s.push(chars[i]);
        i += 1;
        assert(chars@.subrange(from as int, i as int) =~= chars@.subrange(from as int, i - 1).push(
            chars@[i - 1],
        ));
    }
    s
}

/// A line falls into head, path, middle and digest, the digest starting at `k`.
pub open spec fn splits_at(line: Seq<char>, k: int) -> bool {
    &&& 13 <= k < line.len()
    &&& line.subrange(0, 8) == line_head()
    &&& line.subrange(k - 4, k) == line_mid()
    &&& !has_newline(line.subrange(8, k - 4))
}

/// What a line stands for is decided at the start of its hexadecimal end.
pub proof fn lemma_parsed_line_at(line: Seq<char>, k: int)
    requires
        is_digest_start(line, k),
    ensures
        splits_at(line, k) ==> parsed_line(line) == Some(
            Record { path: line.subrange(8, k - 4), digest: line.subrange(k, line.len() as int) },
        ),
        !splits_at(line, k) ==> parsed_line(line) is None,
{
    if splits_at(line, k) {
        let r = Record {
            path: line.subrange(8, k - 4),
            digest: line.subrange(k, line.len() as int),
        };
        assert(line =~= line.subrange(0, 8) + r.path + line.subrange(k - 4, k) + r.digest);
        assert(is_record_line(line, r));
        let c = choose|c: Record| is_record_line(line, c);
        lemma_record_line_unique(line, c, r);
    } else {
        assert forall|r: Record| !is_record_line(line, r) by {
            if is_record_line(line, r) {
                lemma_record_line_parts(line, r, k);
            }
        }
    }
}

/// Where the hexadecimal end of the characters from `from` up to `to` starts.
fn find_digest_start(chars: &Vec<char>, from: usize, to: usize) -> (k: usize)
    requires
        from <= to <= chars.len(),
    ensures
        from <= k <= to,
        is_digest_start(chars@.subrange(from as int, to as int), k - from),
{
    let ghost line = chars@.subrange(from as int, to as int);
    let mut k: usize = to;
    while k > from && hex_digit(chars[k - 1])
        invariant
            from <= k <= to <= chars.len(),
            line == chars@.subrange(from as int, to as int),
            forall|i: int| k - from <= i < line.len() ==> is_hex_digit(#[trigger] line[i]),
        decreases k,
    {
        k -= 1;
    }
    assert(k > from ==> line[k - from - 1] == chars@[k - 1]);
    k
}

/// Whether `word` stands in `chars` at `at`.
fn stands_at(chars: &Vec<char>, at: usize, word: &Vec<char>) -> (b: bool)
    requires
        at + word.len() <= chars.len(),
    ensures
        b == (chars@.subrange(at as int, at + word.len()) == word@),
{
    let ghost part = chars@.subrange(at as int, at + word.len());
    let mut i: usize = 0;
    while i < word.len()
        invariant
            i <= word.len(),
            at + word.len() <= chars.len(),
            part == chars@.subrange(at as int, at + word.len()),
            forall|j: int| 0 <= j < i ==> part[j] == word@[j],
        decreases word.len() - i,
    {
        if chars[at + i] != word[i] {
            assert(part[i as int] != word@[i as int]);
            return false;
        }
        i += 1;
    }
    assert(part =~= word@);
    true
}

/// Whether a line feed stands among the characters from `from` up to `to`.
fn holds_newline(chars: &Vec<char>, from: usize, to: usize) -> (b: bool)
    requires
        from <= to <= chars.len(),
    ensures
        b == has_newline(chars@.subrange(from as int, to as int)),
{
    let ghost part = chars@.subrange(from as int, to as int);
    let mut i: usize = from;
    while i < to
        invariant
            from <= i <= to <= chars.len(),
            part == chars@.subrange(from as int, to as int),
            forall|j: int| 0 <= j < i - from ==> #[trigger] part[j] != '\n',
        decreases to - i,
    {
        if chars[i] == '\n' {
            assert(part[i - from] == '\n');
            return true;
        }
        i += 1;
    }
    false
}

/// The parts of a line that is itself a part of a longer text.
proof fn lemma_parts_in_text(chars: Seq<char>, from: int, to: int, k: int)
    requires
        0 <= from,
        from + 13 <= k,
        k < to <= chars.len(),
    ensures
        ({
            let line = chars.subrange(from, to);
            &&& line.subrange(0, 8) == chars.subrange(from, from + 8)
            &&& line.subrange(k - from - 4, k - from) == chars.subrange(k - 4, k)
            &&& line.subrange(8, k - from - 4) == chars.subrange(from + 8, k - 4)
            &&& line.subrange(k - from, line.len() as int) == chars.subrange(k, to)
        }),
{
    let line = chars.subrange(from, to);
    assert(line.subrange(0, 8) =~= chars.subrange(from, from + 8));
    assert(line.subrange(k - from - 4, k - from) =~= chars.subrange(k - 4, k));
    assert(line.subrange(8, k - from - 4) =~= chars.subrange(from + 8, k - 4));
    assert(line.subrange(k - from, line.len() as int) =~= chars.subrange(k, to));
}

/// The characters that stand before the path.
fn head_chars() -> (word: Vec<char>)
    ensures
        word@ == line_head(),
{
    let word = chars_of("SHA256 (");
    proof {
        reveal_strlit("SHA256 (");
        assert(word@ =~= line_head());
    }
    word
}

/// The characters that stand between the path and the digest.
fn mid_chars() -> (word: Vec<char>)
    ensures
        word@ == line_mid(),
{
    let word = chars_of(") = ");
    proof {
        reveal_strlit(") = ");
        assert(word@ =~= line_mid());
    }
    word
}

/// Whether the characters from `from` up to `to`, with a hexadecimal end
/// that starts at `k`, fall into the parts of a record line.
fn splits(chars: &Vec<char>, from: usize, to: usize, k: usize) -> (b: bool)
    requires
        from <= k <= to <= chars.len(),
    ensures
        b == splits_at(chars@.subrange(from as int, to as int), k - from),
{
    if k >= to || k - from < 13 {
        return false;
    }
    proof {
        lemma_parts_in_text(chars@, from as int, to as int, k as int);
    }
    let head = head_chars();
    let mid = mid_chars();
    stands_at(chars, from, &head) && stands_at(chars, k - 4, &mid) && !holds_newline(
        chars,
        from + 8,
        k - 4,
    )
}

/// Reads the characters from `from` up to `to` as one line.
pub(crate) fn parse_chars(chars: &Vec<char>, from: usize, to: usize) -> (found: Option<
    (String, String),
>)
    requires
        from <= to <= chars.len(),
    ensures
        match found {
            Some((path, digest)) => parsed_line(chars@.subrange(from as int, to as int)) == Some(
                Record { path: path@, digest: digest@ },
            ),
            None => parsed_line(chars@.subrange(from as int, to as int)) is None,
        },
{
    let k = find_digest_start(chars, from, to);
    proof {
        lemma_parsed_line_at(chars@.subrange(from as int, to as int), k - from);
    }
    if !splits(chars, from, to, k) {
        return None;
    }
    proof {
        lemma_parts_in_text(chars@, from as int, to as int, k as int);
    }
    let path = string_of(chars, from + 8, k - 4);
    let digest = string_of(chars, k, to);
    Some((path, digest))
}

/// Reads one line of a checksum list. The line stands for a record when it
/// is `SHA256 (`, a path, `) = ` and a hexadecimal digest, and nothing else;
/// the digest is the longest hexadecimal end of the line.
pub fn parse_line(line: &str) -> (found: Option<(String, String)>)
    ensures
        match found {
            Some((path, digest)) => parsed_line(line@) == Some(
                Record { path: path@, digest: digest@ },
            ),
            None => parsed_line(line@) is None,
        },
{
    let chars = chars_of(line);
    assert(chars@.subrange(0, chars@.len() as int) =~= line@);
    parse_chars(&chars, 0, chars.len())
}

/// Adds the line of a record, and its line feed, to a text.
pub fn write_line(text: &mut String, path: &str, digest: &str)
    ensures
        final(text)@ == old(text)@ + record_line(Record { path: path@, digest: digest@ }) + seq![
            '\n',
        ],
{
    proof {
        reveal_strlit("SHA256 (");
        reveal_strlit(") = ");
        reveal_strlit("\n");
        assert("SHA256 ("@ =~= line_head());
        assert(") = "@ =~= line_mid());
        assert("\n"@ =~= seq!['\n']);
    }
    text.append("SHA256 (");
    text.append(path);
    text.append(") = ");
    text.append(digest);
    text.append("\n");
    assert(final(text)@ =~= old(text)@ + record_line(Record { path: path@, digest: digest@ })
        + seq!['\n']);
}

} // verus!
