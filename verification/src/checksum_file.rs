//! The checksum list: records of a relative path and a digest, in the order
//! in which the files were found.

use vstd::prelude::*;
use crate::checksum_error::ChecksumError;
use crate::checksum_error::texts;
use crate::record_text::Record;
use crate::record_text::chars_of;
use crate::record_text::is_writable;
use crate::record_text::lemma_records_of_text_end;
use crate::record_text::lemma_records_of_text_step;
use crate::record_text::lemma_write_then_read;
use crate::record_text::parse_chars;
use crate::record_text::parse_line;
use crate::record_text::records_of_lines;
use crate::record_text::parsed_line;
use crate::record_text::records_of_text;
use crate::record_text::text_of_records;
use crate::record_text::without_cr;
use crate::record_text::write_line;

verus! {

/// One record: the path of a file, relative to the root of the tree, and the
/// digest of its content in hexadecimal.
#[derive(Debug)]
pub struct FileInfo {
    pub path: String,
    pub sha256: String,
}

impl View for FileInfo {
    type V = Record;

    open spec fn view(&self) -> Record {
        Record { path: self.path@, digest: self.sha256@ }
    }
}

/// The records of a tree, in the order in which its files were found.
pub struct ChecksumFile {
    pub files: Vec<FileInfo>,
}

impl View for ChecksumFile {
    type V = Seq<Record>;

    open spec fn view(&self) -> Seq<Record> {
        Seq::new(self.files@.len(), |i: int| self.files@[i]@)
    }
}

/// The text of a string that may be missing.
pub open spec fn text_of(value: Option<String>) -> Option<Seq<char>> {
    match value {
        Some(s) => Some(s@),
        None => None,
    }
}

/// What came of digesting each file, as contracts see it: the digest, or
/// nothing where the file could not be read.
pub open spec fn outcomes(digests: Seq<Option<String>>) -> Seq<Option<Seq<char>>> {
    Seq::new(digests.len(), |i: int| text_of(digests[i]))
}

/// The record at `i` is confirmed: its file was digested, and the digest is,
/// letter for letter, the recorded one.
pub open spec fn confirmed(records: Seq<Record>, found: Seq<Option<Seq<char>>>, i: int) -> bool {
    0 <= i < records.len() && i < found.len() && found[i] == Some(records[i].digest)
}

/// The paths of the records that are not confirmed, in the records' order.
pub open spec fn mismatches(records: Seq<Record>, found: Seq<Option<Seq<char>>>) -> Seq<
    Seq<char>,
>
    decreases records.len(),
{
    if records.len() == 0 {
        Seq::empty()
    } else {
        let before = mismatches(records.drop_last(), found);
        if confirmed(records, found, records.len() - 1) {
            before
        } else {
            before.push(records.last().path)
        }
    }
}

/// Every record that is not confirmed is reported.
pub proof fn lemma_each_mismatch_reported(
    records: Seq<Record>,
    found: Seq<Option<Seq<char>>>,
    i: int,
)
    requires
        0 <= i < records.len(),
        !confirmed(records, found, i),
    ensures
        mismatches(records, found).contains(records[i].path),
    decreases records.len(),
{
    let before = mismatches(records.drop_last(), found);
    let last = records.len() - 1;
    if i == last {
        assert(before.push(records.last().path).last() == records[i].path);
    } else {
        assert(records.drop_last()[i] == records[i]);
        assert(confirmed(records.drop_last(), found, i) == confirmed(records, found, i));
        lemma_each_mismatch_reported(records.drop_last(), found, i);
        let k = choose|k: int| 0 <= k < before.len() && before[k] == records[i].path;
        if !confirmed(records, found, last) {
            assert(before.push(records.last().path)[k] == records[i].path);
        }
    }
}

/// Nothing else is reported: each path in the report is that of a record
/// that is not confirmed.
pub proof fn lemma_only_mismatches_reported(
    records: Seq<Record>,
    found: Seq<Option<Seq<char>>>,
    k: int,
) -> (i: int)
    requires
        0 <= k < mismatches(records, found).len(),
    ensures
        0 <= i < records.len(),
        !confirmed(records, found, i),
        records[i].path == mismatches(records, found)[k],
    decreases records.len(),
{
    let before = mismatches(records.drop_last(), found);
    let last = records.len() - 1;
    if !confirmed(records, found, last) && k == before.len() {
        last
    } else {
        let i = lemma_only_mismatches_reported(records.drop_last(), found, k);
        assert(records.drop_last()[i] == records[i]);
        assert(confirmed(records.drop_last(), found, i) == confirmed(records, found, i));
        i
    }
}

/// The verification succeeds exactly when every record is confirmed. So it
/// succeeds again when nothing has changed, and a list verifies against the
/// digests it was made from.
pub proof fn lemma_no_mismatch_iff_all_confirmed(
    records: Seq<Record>,
    found: Seq<Option<Seq<char>>>,
)
    ensures
        mismatches(records, found).len() == 0 <==> (forall|i: int|
            0 <= i < records.len() ==> confirmed(records, found, i)),
{
    if mismatches(records, found).len() == 0 {
        assert forall|i: int| 0 <= i < records.len() implies confirmed(records, found, i) by {
            if !confirmed(records, found, i) {
                lemma_each_mismatch_reported(records, found, i);
            }
        }
    } else {
        let i = lemma_only_mismatches_reported(records, found, 0);
    }
}

/// Where one record alone is not confirmed, the report is that record's
/// path and nothing more.
pub proof fn lemma_single_mismatch(records: Seq<Record>, found: Seq<Option<Seq<char>>>, j: int)
    requires
        0 <= j < records.len(),
        forall|i: int| 0 <= i < records.len() ==> (confirmed(records, found, i) <==> i != j),
    ensures
        mismatches(records, found) == seq![records[j].path],
    decreases records.len(),
{
    let shorter = records.drop_last();
    let last = records.len() - 1;
    assert forall|i: int| 0 <= i < shorter.len() implies confirmed(shorter, found, i) == confirmed(
        records,
        found,
        i,
    ) by {
        assert(shorter[i] == records[i]);
    }
    if j == last {
        lemma_no_mismatch_iff_all_confirmed(shorter, found);
        assert(mismatches(records, found) =~= seq![records[j].path]);
    } else {
        lemma_single_mismatch(shorter, found, j);
        assert(shorter[j] == records[j]);
    }
}

/// The digests that a list records, as outcomes of digesting: each file was
/// read and gave its recorded digest.
pub open spec fn recorded_digests(records: Seq<Record>) -> Seq<Option<Seq<char>>> {
    Seq::new(records.len(), |i: int| Some(records[i].digest))
}

/// A list verifies against the digests that it records: a tree whose files
/// still have the content that was recorded passes.
pub proof fn lemma_recorded_digests_verify(records: Seq<Record>)
    ensures
        mismatches(records, recorded_digests(records)).len() == 0,
{
    lemma_no_mismatch_iff_all_confirmed(records, recorded_digests(records));
}

/// A list that was written out and read again still verifies against the
/// digests it was made from, as long as its records are writable: a fresh
/// backup passes its own check.
pub proof fn lemma_written_list_verifies(records: Seq<Record>)
    requires
        forall|i: int| 0 <= i < records.len() ==> is_writable(#[trigger] records[i]),
    ensures
        mismatches(
            records_of_text(text_of_records(records)),
            recorded_digests(records),
        ).len() == 0,
{
    lemma_write_then_read(records);
    lemma_recorded_digests_verify(records);
}

/// Judges one file: `Ok` when it was digested and the digest is the recorded
/// one, else the file's name as the error.
pub fn check_file(name: &str, sha256: &String, digest: &Option<String>) -> (result: Result<
    (),
    String,
>)
    ensures
        result is Ok <==> (digest matches Some(d) && d@ == sha256@),
        result matches Err(mismatch) ==> mismatch@ == name@,
{
    match digest {
        Some(d) => {
            if *d == *sha256 {
                Ok(())
            } else {
                Err(String::from_str(name))
            }
        },
        None => Err(String::from_str(name)),
    }
}

impl ChecksumFile {
    /// A list without records.
    pub fn new() -> (list: Self)
        ensures
            list@ == Seq::<Record>::empty(),
            list.files@.len() == 0,
    {
        let list = ChecksumFile { files: Vec::new() };
        assert(list@ =~= Seq::<Record>::empty());
        list
    }

    /// Adds a record at the end. Neither the path nor the digest is tested
    /// or changed, and a path may be added twice.
    pub fn add(&mut self, path: &str, sha256: &str)
        ensures
            final(self)@ == old(self)@.push(Record { path: path@, digest: sha256@ }),
    {
        self.files.push(FileInfo { path: String::from_str(path), sha256: String::from_str(sha256) });
        assert(self@ =~= old(self)@.push(Record { path: path@, digest: sha256@ }));
    }

    /// Reads a list from the content of a checksum file. Each line that
    /// stands for a record gives that record, in the lines' order; every
    /// other line is passed over.
    pub fn from_text(text: &str) -> (list: Self)
        ensures
            list@ == records_of_text(text@),
    {
        let chars = chars_of(text);
        let n = chars.len();
        let mut list = ChecksumFile::new();
        let mut start: usize = 0;
        assert(text@.subrange(0, n as int) =~= text@);
        assert(list@ + records_of_text(text@) =~= records_of_text(text@));
        while start < n
            invariant
                start <= n,
                n == chars.len(),
                chars@ == text@,
                records_of_text(text@) == list@ + records_of_text(
                    text@.subrange(start as int, n as int),
                ),
            decreases n - start,
        {
            let ghost rest = text@.subrange(start as int, n as int);
            let ghost before = list@;
            let mut end: usize = start;
            while end < n && chars[end] != '\n'
                invariant
                    start <= end <= n,
                    n == chars.len(),
                    chars@ == text@,
                    rest == text@.subrange(start as int, n as int),
                    forall|i: int| 0 <= i < end - start ==> #[trigger] rest[i] != '\n',
                decreases n - end,
            {
                end += 1;
            }
            let ended = end < n;
            let stop: usize = if ended && end > start && chars[end - 1] == '\r' {
                end - 1
            } else {
                end
            };
            let ghost line = chars@.subrange(start as int, stop as int);
            let next: usize = if ended {
                end + 1
            } else {
                end
            };
            proof {
                let whole = rest.subrange(0, end - start);
                assert(whole =~= chars@.subrange(start as int, end as int));
                if ended {
                    assert(rest[end - start] == '\n');
                    lemma_records_of_text_step(rest, end - start);
                    assert(rest.subrange(end - start + 1, rest.len() as int) =~= text@.subrange(
                        next as int,
                        n as int,
                    ));
                    if end > start {
                        assert(whole.last() == chars@[end - 1]);
                    }
                    assert(without_cr(whole) =~= line);
                } else {
                    lemma_records_of_text_end(rest);
                    lemma_records_of_text_end(text@.subrange(next as int, n as int));
                    assert(rest =~= line);
                }
            }
            if let Some((path, sha256)) = parse_chars(&chars, start, stop) {
                list.files.push(FileInfo { path, sha256 });
                assert(list@ =~= before + seq![Record { path: path@, digest: sha256@ }]);
                assert(list@ + records_of_text(text@.subrange(next as int, n as int)) =~= before + (
                seq![Record { path: path@, digest: sha256@ }] + records_of_text(
                    text@.subrange(next as int, n as int),
                )));
            } else {
                assert(Seq::<Record>::empty() + records_of_text(
                    text@.subrange(next as int, n as int),
                ) =~= records_of_text(text@.subrange(next as int, n as int)));
            }
            start = next;
        }
        proof {
            lemma_records_of_text_end(text@.subrange(n as int, n as int));
            assert(list@ + Seq::<Record>::empty() =~= list@);
        }
        list
    }

    /// Reads a list from the lines of a checksum file, each without its
    /// line end. Each line that stands for a record gives that record, in
    /// the lines' order; every other line is passed over.
    pub fn from_file(lines: &Vec<String>) -> (list: Self)
        ensures
            list@ == records_of_lines(texts(lines@)),
    {
        let ghost all = texts(lines@);
        let mut list = ChecksumFile::new();
        let mut i: usize = 0;
        assert(all.subrange(0, all.len() as int) =~= all);
        assert(list@ + records_of_lines(all) =~= records_of_lines(all));
        while i < lines.len()
            invariant
                i <= lines.len(),
                all == texts(lines@),
                records_of_lines(all) == list@ + records_of_lines(
                    all.subrange(i as int, all.len() as int),
                ),
            decreases lines.len() - i,
        {
            let ghost before = list@;
            let ghost rest = all.subrange(i as int, all.len() as int);
            let ghost after = all.subrange(i + 1, all.len() as int);
            assert(rest[0] == lines@[i as int]@);
            assert(rest.drop_first() =~= after);
            if let Some((path, sha256)) = parse_line(lines[i].as_str()) {
                list.files.push(FileInfo { path, sha256 });
                assert(list@ =~= before + seq![Record { path: path@, digest: sha256@ }]);
                assert(list@ + records_of_lines(after) =~= before + (seq![
                    Record { path: path@, digest: sha256@ },
                ] + records_of_lines(after)));
            }
            i += 1;
        }
        assert(list@ + Seq::<Record>::empty() =~= list@);
        list
    }

    /// Writes the list out: the text that a checksum file of this list
    /// holds, one line for each record, in order.
    pub fn save(&self) -> (text: String)
        ensures
            text@ == text_of_records(self@),
    {
        let mut text = String::new();
        let mut i: usize = 0;
        assert(self@.take(0) =~= Seq::<Record>::empty());
        while i < self.files.len()
            invariant
                i <= self.files.len(),
                text@ == text_of_records(self@.take(i as int)),
            decreases self.files.len() - i,
        {
            let entry = &self.files[i];
            write_line(&mut text, entry.path.as_str(), entry.sha256.as_str());
            i += 1;
            proof {
                let now = self@.take(i as int);
                assert(now.drop_last() =~= self@.take(i - 1));
                assert(now.last() == entry@);
            }
        }
        assert(self@.take(i as int) =~= self@);
        text
    }

    /// Verifies the list against what came of digesting each record's file:
    /// `digests[i]` belongs to the record at `i`, and a record without an
    /// entry counts as a file that could not be read. Every record is
    /// judged; the error names each one that is not confirmed.
    pub fn check(&self, digests: &Vec<Option<String>>) -> (result: Result<(), ChecksumError>)
        ensures
            result is Ok <==> mismatches(self@, outcomes(digests@)).len() == 0,
            result matches Err(error) ==> error@ == mismatches(self@, outcomes(digests@)),
    {
        let mut error = ChecksumError::new();
        let none: Option<String> = None;
        let mut i: usize = 0;
        assert(self@.take(0) =~= Seq::<Record>::empty());
        while i < self.files.len()
            invariant
                i <= self.files.len(),
                none is None,
                error@ == mismatches(self@.take(i as int), outcomes(digests@)),
            decreases self.files.len() - i,
        {
            let file = &self.files[i];
            let digest = if i < digests.len() {
                &digests[i]
            } else {
                &none
            };
            let ghost before = error@;
            let result = check_file(file.path.as_str(), &file.sha256, digest);
            if let Err(mismatch) = result {
                error.file_names.push(mismatch);
                assert(error@ =~= before.push(file.path@));
            }
            i += 1;
            proof {
                let now = self@.take(i as int);
                assert(now.drop_last() =~= self@.take(i - 1));
                assert(now.last() == file@);
            }
        }
        assert(self@.take(i as int) =~= self@);
        if error.file_names.len() == 0 {
            Ok(())
        } else {
            Err(error)
        }
    }
}

} // verus!
