//! The row rules of the training manifest: which rows of a dataset table are
//! kept, what a kept row becomes, and how the skipped ones are counted.
//!
//! Reading the table, looking for the audio file and writing the lines are the
//! caller's; the rules take and give plain text.

use vstd::prelude::*;

verus! {

/// Whether `c` is white space to `str::trim`: whether it has Unicode's
/// White_Space property. Which characters have it is left to std.
pub uninterp spec fn is_whitespace(c: char) -> bool;

/// The number of white-space characters that `s` begins with.
pub open spec fn leading_space(s: Seq<char>) -> nat
    decreases s.len(),
{
    if s.len() > 0 && is_whitespace(s[0]) {
        1 + leading_space(s.drop_first())
    } else {
        0
    }
}

/// The number of white-space characters that `s` ends with.
pub open spec fn trailing_space(s: Seq<char>) -> nat
    decreases s.len(),
{
    if s.len() > 0 && is_whitespace(s.last()) {
        1 + trailing_space(s.drop_last())
    } else {
        0
    }
}

/// `s` without the white space it begins and ends with.
pub open spec fn trimmed(s: Seq<char>) -> Seq<char> {
    let rest = s.skip(leading_space(s) as int);
    rest.take(rest.len() - trailing_space(rest))
}

/// Every character of `s` is white space.
pub open spec fn is_blank(s: Seq<char>) -> bool {
    forall|i: int| 0 <= i < s.len() ==> is_whitespace(#[trigger] s[i])
}

/// `c` is one of the decimal digits `0` to `9`.
pub open spec fn is_digit(c: char) -> bool {
    '0' <= c <= '9'
}

/// Every character of `s` is a decimal digit.
pub open spec fn all_digits(s: Seq<char>) -> bool {
    forall|i: int| 0 <= i < s.len() ==> is_digit(#[trigger] s[i])
}

/// The number that the digits of `s` write in base ten.
pub open spec fn decimal_value(s: Seq<char>) -> nat
    decreases s.len(),
{
    if s.len() == 0 {
        0
    } else {
        (10 * decimal_value(s.drop_last()) + (s.last() as u32 - '0' as u32)) as nat
    }
}

/// The number that `s` writes, if it writes one that fits 32 bits: an
/// optional `+`, then one or more decimal digits and nothing else.
pub open spec fn parsed_u32(s: Seq<char>) -> Option<u32> {
    let digits = if s.len() > 0 && s[0] == '+' {
        s.drop_first()
    } else {
        s
    };
    if digits.len() > 0 && all_digits(digits) && decimal_value(digits) <= u32::MAX {
        Some(decimal_value(digits) as u32)
    } else {
        None
    }
}

/// `str::trim`: the slice of `s` that is left when the white space at both
/// ends is taken off, so that it neither begins nor ends with white space.
/// Not proved here: it is std's own statement of `trim`. The second clause
/// says nothing that the first does not: see `lemma_trimmed_ends`.
#[verifier::external_body]
fn trim_text(s: &str) -> (r: &str)
    ensures
        r@ == trimmed(s@),
        r@.len() > 0 ==> !is_whitespace(r@.first()) && !is_whitespace(r@.last()),
{
    s.trim()
}

/// `str::parse::<u32>`: the number that `s` writes in base ten, or nothing
/// where `s` is not an optional `+` and digits, or the number is too large.
/// Not proved here: it is std's own statement of the parse.
#[verifier::external_body]
fn parse_u32(s: &str) -> (r: Option<u32>)
    ensures
        r == parsed_u32(s@),
{
    s.parse::<u32>().ok()
}

/// `leading_space` counts exactly the white space that `s` begins with.
pub proof fn lemma_leading_space(s: Seq<char>)
    ensures
        leading_space(s) <= s.len(),
        forall|i: int| 0 <= i < leading_space(s) ==> is_whitespace(#[trigger] s[i]),
        leading_space(s) < s.len() ==> !is_whitespace(s[leading_space(s) as int]),
    decreases s.len(),
{
    if s.len() > 0 && is_whitespace(s[0]) {
        let rest = s.drop_first();
        lemma_leading_space(rest);
        assert forall|i: int| 0 <= i < leading_space(s) implies is_whitespace(#[trigger] s[i]) by {
            if i > 0 {
                assert(s[i] == rest[i - 1]);
            }
        }
        if leading_space(s) < s.len() {
            assert(s[leading_space(s) as int] == rest[leading_space(rest) as int]);
        }
    }
}

/// `trailing_space` counts exactly the white space that `s` ends with.
pub proof fn lemma_trailing_space(s: Seq<char>)
    ensures
        trailing_space(s) <= s.len(),
        forall|i: int| s.len() - trailing_space(s) <= i < s.len() ==> is_whitespace(#[trigger] s[i]),
        trailing_space(s) < s.len() ==> !is_whitespace(s[s.len() - trailing_space(s) - 1]),
    decreases s.len(),
{
    if s.len() > 0 && is_whitespace(s.last()) {
        let rest = s.drop_last();
        lemma_trailing_space(rest);
        assert forall|i: int| s.len() - trailing_space(s) <= i < s.len() implies is_whitespace(
            #[trigger] s[i],
        ) by {
            if i < s.len() - 1 {
                assert(s[i] == rest[i]);
            }
        }
        if trailing_space(s) < s.len() {
            assert(s[s.len() - trailing_space(s) - 1] == rest[rest.len() - trailing_space(rest)
                - 1]);
        }
    }
}

/// What is left of a text after trimming neither begins nor ends with white space.
pub proof fn lemma_trimmed_ends(s: Seq<char>)
    ensures
        trimmed(s).len() > 0 ==> !is_whitespace(trimmed(s).first()) && !is_whitespace(
            trimmed(s).last(),
        ),
{
    let rest = s.skip(leading_space(s) as int);
    lemma_leading_space(s);
    lemma_trailing_space(rest);
}

/// Trimming leaves nothing exactly of the texts that are blank.
pub proof fn lemma_blank_trims_to_nothing(s: Seq<char>)
    ensures
        trimmed(s).len() == 0 <==> is_blank(s),
{
    let rest = s.skip(leading_space(s) as int);
    lemma_leading_space(s);
    lemma_trailing_space(rest);
    if trimmed(s).len() == 0 {
        assert forall|i: int| 0 <= i < s.len() implies is_whitespace(#[trigger] s[i]) by {
            if i >= leading_space(s) {
                assert(s[i] == rest[i - leading_space(s)]);
            }
        }
    }
    if is_blank(s) {
        if leading_space(s) < s.len() {
            assert(is_whitespace(s[leading_space(s) as int]));
        }
    }
}

/// One row of the dataset table, as far as the rules read it.
#[derive(Debug, PartialEq, Eq)]
pub struct TableRow {
    /// The transcript as the table holds it.
    pub prompt: String,
    /// The path of the row's audio file, as resolved by the caller.
    pub audio_path: String,
    /// Whether a file exists at that path.
    pub audio_exists: bool,
    /// The duration field as the table holds it.
    pub duration_ms: String,
}

/// One line of the manifest.
#[derive(Debug, PartialEq, Eq)]
pub struct ManifestLine {
    /// The path of the audio file.
    pub audio_path: String,
    /// The transcript, without surrounding white space; never empty.
    pub text: String,
    /// The clip's duration in milliseconds, where the table tells it.
    pub duration_ms: Option<u32>,
}

/// What becomes of one row of the table.
#[derive(Debug, PartialEq, Eq)]
pub enum RowOutcome {
    /// The row is written as this line.
    Kept(ManifestLine),
    /// The row is left out: its transcript is blank.
    EmptyPrompt,
    /// The row is left out: its audio file does not exist.
    MissingAudio,
}

/// The counts that a run over the table reports at its end.
#[derive(Clone, Copy, Debug, PartialEq, Eq, Structural)]
pub struct Tally {
    pub kept: usize,
    pub skipped_missing_audio: usize,
    pub skipped_empty_prompt: usize,
}

/// A row as a mathematical value.
pub struct RowText {
    pub prompt: Seq<char>,
    pub audio_path: Seq<char>,
    pub audio_exists: bool,
    pub duration_ms: Seq<char>,
}

/// A line as a mathematical value.
pub struct LineText {
    pub audio_path: Seq<char>,
    pub text: Seq<char>,
    pub duration_ms: Option<u32>,
}

/// An outcome as a mathematical value.
pub enum Outcome {
    Kept(LineText),
    EmptyPrompt,
    MissingAudio,
}

impl View for TableRow {
    type V = RowText;

    open spec fn view(&self) -> RowText {
        RowText {
            prompt: self.prompt@,
            audio_path: self.audio_path@,
            audio_exists: self.audio_exists,
            duration_ms: self.duration_ms@,
        }
    }
}

impl View for ManifestLine {
    type V = LineText;

    open spec fn view(&self) -> LineText {
        LineText {
            audio_path: self.audio_path@,
            text: self.text@,
            duration_ms: self.duration_ms,
        }
    }
}

impl View for RowOutcome {
    type V = Outcome;

    open spec fn view(&self) -> Outcome {
        match *self {
            RowOutcome::Kept(line) => Outcome::Kept(line@),
            RowOutcome::EmptyPrompt => Outcome::EmptyPrompt,
            RowOutcome::MissingAudio => Outcome::MissingAudio,
        }
    }
}

/// The row rules. A row with a blank transcript is left out, whether or not
/// its audio exists. Otherwise a row whose audio file is missing is left out.
/// Any other row is kept, with its transcript trimmed and its duration parsed
/// from the trimmed field.
pub open spec fn row_outcome(row: RowText) -> Outcome {
    if trimmed(row.prompt).len() == 0 {
        Outcome::EmptyPrompt
    } else if !row.audio_exists {
        Outcome::MissingAudio
    } else {
        Outcome::Kept(
            LineText {
                audio_path: row.audio_path,
                text: trimmed(row.prompt),
                duration_ms: parsed_u32(trimmed(row.duration_ms)),
            },
        )
    }
}

/// The lines of the kept rows among the first `n` rows, in the rows' order.
pub open spec fn kept_lines(rows: Seq<TableRow>, n: int) -> Seq<LineText>
    decreases n,
{
    if n <= 0 {
        Seq::empty()
    } else {
        match row_outcome(rows[n - 1]@) {
            Outcome::Kept(line) => kept_lines(rows, n - 1).push(line),
            _ => kept_lines(rows, n - 1),
        }
    }
}

/// The number of rows among the first `n` that the rules leave out for a
/// blank transcript.
pub open spec fn blank_rows(rows: Seq<TableRow>, n: int) -> int
    decreases n,
{
    if n <= 0 {
        0
    } else if row_outcome(rows[n - 1]@) is EmptyPrompt {
        blank_rows(rows, n - 1) + 1
    } else {
        blank_rows(rows, n - 1)
    }
}

/// The number of rows among the first `n` that the rules leave out for a
/// missing audio file.
pub open spec fn unheard_rows(rows: Seq<TableRow>, n: int) -> int
    decreases n,
{
    if n <= 0 {
        0
    } else if row_outcome(rows[n - 1]@) is MissingAudio {
        unheard_rows(rows, n - 1) + 1
    } else {
        unheard_rows(rows, n - 1)
    }
}

/// The views of the lines, in order.
pub open spec fn line_texts(lines: Seq<ManifestLine>) -> Seq<LineText> {
    lines.map_values(|line: ManifestLine| line@)
}

/// A field of the table without its surrounding white space.
pub fn field_text(field: &str) -> (text: &str)
    ensures
        text@ == trimmed(field@),
{
    trim_text(field)
}

/// The duration that a field of the table tells, if it tells one.
pub fn parse_duration(field: &str) -> (duration: Option<u32>)
    ensures
        duration == parsed_u32(trimmed(field@)),
{
    parse_u32(trim_text(field))
}

/// Applies the row rules to one row.
pub fn decide_row(row: &TableRow) -> (r: RowOutcome)
    ensures
        r@ == row_outcome(row@),
{
    let text = trim_text(row.prompt.as_str());
    if text.unicode_len() == 0 {
        return RowOutcome::EmptyPrompt;
    }
    if !row.audio_exists {
        return RowOutcome::MissingAudio;
    }
    let duration_ms = parse_duration(row.duration_ms.as_str());
    RowOutcome::Kept(
        ManifestLine { audio_path: row.audio_path.clone(), text: text.to_owned(), duration_ms },
    )
}

impl Tally {
    /// The tally of a run that has seen no row.
    pub fn new() -> (t: Tally)
        ensures
            t == (Tally { kept: 0, skipped_missing_audio: 0, skipped_empty_prompt: 0 }),
    {
        Tally { kept: 0, skipped_missing_audio: 0, skipped_empty_prompt: 0 }
    }

    /// The tally after one more row with this outcome.
    pub open spec fn counted(self, outcome: Outcome) -> Tally {
        match outcome {
            Outcome::Kept(_) => Tally { kept: (self.kept + 1) as usize, ..self },
            Outcome::EmptyPrompt => Tally {
                skipped_empty_prompt: (self.skipped_empty_prompt + 1) as usize,
                ..self
            },
            Outcome::MissingAudio => Tally {
                skipped_missing_audio: (self.skipped_missing_audio + 1) as usize,
                ..self
            },
        }
    }

    /// The number of rows seen.
    pub open spec fn rows(self) -> int {
        self.kept + self.skipped_missing_audio + self.skipped_empty_prompt
    }

    /// Counts one row under its outcome.
    pub fn record(&mut self, outcome: &RowOutcome)
        requires
            old(self).rows() < usize::MAX,
        ensures
            *final(self) == old(self).counted(outcome@),
            final(self).rows() == old(self).rows() + 1,
    {
        match outcome {
            RowOutcome::Kept(_) => {
                self.kept = self.kept + 1;
            },
            RowOutcome::EmptyPrompt => {
                self.skipped_empty_prompt = self.skipped_empty_prompt + 1;
            },
            RowOutcome::MissingAudio => {
                self.skipped_missing_audio = self.skipped_missing_audio + 1;
            },
        }
    }
}

/// Every row is either kept or counted under exactly one reason.
pub proof fn lemma_rows_accounted(rows: Seq<TableRow>, n: int)
    requires
        0 <= n <= rows.len(),
    ensures
        kept_lines(rows, n).len() + blank_rows(rows, n) + unheard_rows(rows, n) == n,
        blank_rows(rows, n) >= 0,
        unheard_rows(rows, n) >= 0,
    decreases n,
{
    if n > 0 {
        lemma_rows_accounted(rows, n - 1);
    }
}

/// Turns the rows of the table into the lines of the manifest.
///
/// The lines are those of the kept rows, in the rows' order. The tally counts
/// each row once: as kept, as left out for a blank transcript, or as left out
/// for a missing audio file.
pub fn convert(rows: &[TableRow]) -> (r: (Vec<ManifestLine>, Tally))
    ensures
        line_texts(r.0@) == kept_lines(rows@, rows@.len() as int),
        r.1.kept == r.0@.len(),
        r.1.skipped_empty_prompt == blank_rows(rows@, rows@.len() as int),
        r.1.skipped_missing_audio == unheard_rows(rows@, rows@.len() as int),
        r.1.rows() == rows@.len(),
{
    let mut lines: Vec<ManifestLine> = Vec::new();
    let mut tally = Tally::new();
    let mut i: usize = 0;
    while i < rows.len()
        invariant
            i <= rows@.len(),
            line_texts(lines@) == kept_lines(rows@, i as int),
            tally.kept == lines@.len(),
            tally.skipped_empty_prompt == blank_rows(rows@, i as int),
            tally.skipped_missing_audio == unheard_rows(rows@, i as int),
            tally.rows() == i,
        decreases rows@.len() - i,
    {
        let outcome = decide_row(&rows[i]);
        tally.record(&outcome);
        if let RowOutcome::Kept(line) = outcome {
            let ghost before = lines@;
            lines.push(line);
            assert(line_texts(lines@) =~= line_texts(before).push(line@));
        }
        i += 1;
    }
    (lines, tally)
}

} // verus!
