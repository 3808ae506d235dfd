use shout_core::manifest::{
    convert, decide_row, field_text, parse_duration, ManifestLine, RowOutcome, TableRow, Tally,
};

fn row(prompt: &str, audio_path: &str, audio_exists: bool, duration_ms: &str) -> TableRow {
    TableRow {
        prompt: prompt.to_string(),
        audio_path: audio_path.to_string(),
        audio_exists,
        duration_ms: duration_ms.to_string(),
    }
}

fn line(audio_path: &str, text: &str, duration_ms: Option<u32>) -> ManifestLine {
    ManifestLine { audio_path: audio_path.to_string(), text: text.to_string(), duration_ms }
}

#[test]
fn fields_lose_their_surrounding_white_space() {
    assert_eq!(field_text("  clip-1.mp3\t"), "clip-1.mp3");
    assert_eq!(field_text("\u{a0}guten  Tag\u{2003}\n"), "guten  Tag");
    assert_eq!(field_text("plain"), "plain");
    assert_eq!(field_text(" \t\r\n"), "");
    assert_eq!(field_text(""), "");
}

#[test]
fn durations_are_decimal_numbers_of_32_bits() {
    assert_eq!(parse_duration("1234"), Some(1234));
    assert_eq!(parse_duration(" 42 "), Some(42));
    assert_eq!(parse_duration("+7"), Some(7));
    assert_eq!(parse_duration("007"), Some(7));
    assert_eq!(parse_duration("0"), Some(0));
    assert_eq!(parse_duration("4294967295"), Some(u32::MAX));
}

#[test]
fn anything_else_is_no_duration() {
    assert_eq!(parse_duration(""), None);
    assert_eq!(parse_duration("   "), None);
    assert_eq!(parse_duration("+"), None);
    assert_eq!(parse_duration("-1"), None);
    assert_eq!(parse_duration("12a"), None);
    assert_eq!(parse_duration("1 2"), None);
    assert_eq!(parse_duration("1_000"), None);
    assert_eq!(parse_duration("3.5"), None);
    assert_eq!(parse_duration("4294967296"), None);
    assert_eq!(parse_duration("\u{663}"), None);
}

#[test]
fn a_row_with_a_missing_audio_file_is_left_out() {
    let outcome = decide_row(&row("Hallo Welt", "audios/a.mp3", false, "1500"));
    assert_eq!(outcome, RowOutcome::MissingAudio);
    let mut tally = Tally::new();
    tally.record(&outcome);
    assert_eq!(tally, Tally { kept: 0, skipped_missing_audio: 1, skipped_empty_prompt: 0 });
}

#[test]
fn a_row_with_a_blank_transcript_is_left_out() {
    for prompt in ["", " ", "\t \n", "\u{3000}"] {
        let outcome = decide_row(&row(prompt, "audios/a.mp3", true, "1500"));
        assert_eq!(outcome, RowOutcome::EmptyPrompt);
        let mut tally = Tally::new();
        tally.record(&outcome);
        assert_eq!(tally, Tally { kept: 0, skipped_missing_audio: 0, skipped_empty_prompt: 1 });
    }
}

#[test]
fn a_blank_transcript_counts_before_a_missing_file() {
    let outcome = decide_row(&row("  ", "audios/a.mp3", false, "1500"));
    assert_eq!(outcome, RowOutcome::EmptyPrompt);
}

#[test]
fn a_kept_row_is_trimmed_and_parsed() {
    let outcome = decide_row(&row("  Guten Morgen \n", "audios/b.mp3", true, " 2750 "));
    assert_eq!(outcome, RowOutcome::Kept(line("audios/b.mp3", "Guten Morgen", Some(2750))));
    let outcome = decide_row(&row("Ja", "audios/c.mp3", true, "n/a"));
    assert_eq!(outcome, RowOutcome::Kept(line("audios/c.mp3", "Ja", None)));
    let mut tally = Tally::new();
    tally.record(&outcome);
    assert_eq!(tally, Tally { kept: 1, skipped_missing_audio: 0, skipped_empty_prompt: 0 });
}

#[test]
fn a_table_becomes_its_kept_lines_in_order() {
    let rows = vec![
        row("eins", "audios/1.mp3", true, "1000"),
        row("   ", "audios/2.mp3", true, "2000"),
        row("drei", "audios/3.mp3", false, "3000"),
        row(" vier ", "audios/4.mp3", true, ""),
        row("", "audios/5.mp3", false, "5000"),
        row("sechs", "audios/6.mp3", true, "+6000"),
    ];
    let (lines, tally) = convert(&rows);
    assert_eq!(
        lines,
        vec![
            line("audios/1.mp3", "eins", Some(1000)),
            line("audios/4.mp3", "vier", None),
            line("audios/6.mp3", "sechs", Some(6000)),
        ]
    );
    assert_eq!(tally, Tally { kept: 3, skipped_missing_audio: 1, skipped_empty_prompt: 2 });
}

#[test]
fn an_empty_table_gives_an_empty_manifest() {
    let (lines, tally) = convert(&[]);
    assert!(lines.is_empty());
    assert_eq!(tally, Tally::new());
    assert_eq!(tally, Tally { kept: 0, skipped_missing_audio: 0, skipped_empty_prompt: 0 });
}
