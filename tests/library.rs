use book_searcher::budget::{budget_from_probe, compute_budget, effective_cpu_count};
use book_searcher::document::map_record;
use book_searcher::pipeline::{BuildAction, BuildEvent, BuildState, Phase};
use book_searcher::record::{decode_row, parse_u64, Book, DecodeError};
use book_searcher::rows::LineCounter;

const GIB: u64 = 1024 * 1024 * 1024;
const MIB: u64 = 1024 * 1024;

fn row(cells: &[&str]) -> Vec<String> {
    cells.iter().map(|c| c.to_string()).collect()
}

fn good_row(id: &str, publisher: &str, filesize: &str) -> Vec<String> {
    row(&[
        id, "Dune", "Frank Herbert", publisher, "epub", filesize, "English", "1965", "412",
        "9780441013593", "bafykbzacedune",
    ])
}

fn count_lines(chunks: &[&[u8]]) -> u64 {
    let mut c = LineCounter::new();
    for chunk in chunks {
        c.feed(chunk);
    }
    c.finish()
}

#[test]
fn budget_small_machine_keeps_headroom() {
    let b = compute_budget(GIB, 4);
    assert_eq!(b.thread_count, 4);
    assert_eq!(b.arena_bytes, GIB - 100 * MIB);
    assert_eq!(b.arena_bytes, 968_884_224);
}

#[test]
fn budget_just_under_two_chunks() {
    let m = 2 * GIB - 1;
    let b = compute_budget(m, 2);
    assert_eq!(b.arena_bytes, m - 100 * MIB);
    assert_eq!(b.thread_count, 2);
}

#[test]
fn budget_large_machine_uses_multiplicative_formula() {
    let b = compute_budget(4 * GIB, 16);
    assert_eq!(b.thread_count, 8);
    assert_eq!(b.arena_bytes, 4 * GIB * 3);
    assert_eq!(b.arena_bytes, 12_884_901_888);
}

#[test]
fn budget_is_clamped_per_thread() {
    let b = compute_budget(16 * GIB, 2);
    assert_eq!(b.thread_count, 2);
    assert_eq!(b.arena_bytes, 2 * 4_293_967_294);
}

#[test]
fn budget_clamp_does_not_overflow_on_huge_memory() {
    let b = compute_budget(u64::MAX, 64);
    assert_eq!(b.thread_count, 8);
    assert_eq!(b.arena_bytes, 8 * 4_293_967_294);
}

#[test]
fn budget_below_headroom_falls_back_to_engine_minimum() {
    let b = compute_budget(50 * MIB, 4);
    assert_eq!(b.arena_bytes, 4 * 15_000_000);
    assert_eq!(b.thread_count, 4);
    let b = compute_budget(100 * MIB - 1, 2);
    assert_eq!(b.arena_bytes, 2 * 15_000_000);
}

#[test]
fn budget_at_exactly_headroom_is_zero() {
    let b = compute_budget(100 * MIB, 2);
    assert_eq!(b.arena_bytes, 0);
    assert_eq!(b.thread_count, 2);
}

#[test]
fn budget_just_above_headroom_uses_formula() {
    let b = compute_budget(100 * MIB + 1, 2);
    assert_eq!(b.arena_bytes, 1);
}

#[test]
fn budget_with_unreadable_memory_is_positive() {
    let b = compute_budget(0, effective_cpu_count(0));
    assert_eq!(b.thread_count, 1);
    assert_eq!(b.arena_bytes, 15_000_000);
    let b = compute_budget(0, 12);
    assert_eq!(b.thread_count, 8);
    assert_eq!(b.arena_bytes, 8 * 15_000_000);
}

#[test]
fn budget_with_no_cpus_has_no_threads() {
    let b = compute_budget(8 * GIB, 0);
    assert_eq!(b.thread_count, 0);
    assert_eq!(b.arena_bytes, 0);
    let b = compute_budget(8 * GIB, effective_cpu_count(0));
    assert_eq!(b.thread_count, 1);
    assert_eq!(b.arena_bytes, 4_293_967_294);
}

#[test]
fn cpu_fallback_is_at_least_one() {
    assert_eq!(effective_cpu_count(0), 1);
    assert_eq!(effective_cpu_count(6), 6);
}

#[test]
fn parse_decimal_fields() {
    assert_eq!(parse_u64("123"), Some(123));
    assert_eq!(parse_u64("+7"), Some(7));
    assert_eq!(parse_u64("0"), Some(0));
    assert_eq!(parse_u64("18446744073709551615"), Some(u64::MAX));
}

#[test]
fn parse_hex_fields() {
    assert_eq!(parse_u64("0x1F"), Some(31));
    assert_eq!(parse_u64("0xff"), Some(255));
    assert_eq!(parse_u64("0x+10"), Some(16));
    assert_eq!(parse_u64("0x"), None);
    assert_eq!(parse_u64("0xg"), None);
}

#[test]
fn parse_rejects_malformed_numbers() {
    assert_eq!(parse_u64(""), None);
    assert_eq!(parse_u64("+"), None);
    assert_eq!(parse_u64("-1"), None);
    assert_eq!(parse_u64(" 5"), None);
    assert_eq!(parse_u64("12a"), None);
    assert_eq!(parse_u64("ab"), None);
    assert_eq!(parse_u64("18446744073709551616"), None);
}

#[test]
fn decode_well_formed_row() {
    let b = decode_row(&good_row("42", "Chilton", "1048576")).unwrap();
    assert_eq!(b.id, 42);
    assert_eq!(b.title, "Dune");
    assert_eq!(b.author, "Frank Herbert");
    assert_eq!(b.publisher, "Chilton");
    assert_eq!(b.extension, "epub");
    assert_eq!(b.filesize, 1_048_576);
    assert_eq!(b.language, "English");
    assert_eq!(b.year, 1965);
    assert_eq!(b.pages, 412);
    assert_eq!(b.isbn, "9780441013593");
    assert_eq!(b.ipfs_cid, "bafykbzacedune");
}

#[test]
fn decode_rejects_short_rows() {
    let r = decode_row(&row(&["1", "x", "y"]));
    assert_eq!(r.unwrap_err(), DecodeError::TooFewFields { found: 3 });
    assert_eq!(decode_row(&Vec::new()).unwrap_err(), DecodeError::TooFewFields { found: 0 });
    let mut r = good_row("1", "P", "10");
    r.pop();
    assert_eq!(decode_row(&r).unwrap_err(), DecodeError::TooFewFields { found: 10 });
}

#[test]
fn decode_reports_first_bad_number_column() {
    assert_eq!(
        decode_row(&good_row("x", "P", "big")).unwrap_err(),
        DecodeError::BadNumber { column: 0 }
    );
    assert_eq!(
        decode_row(&good_row("1", "P", "big")).unwrap_err(),
        DecodeError::BadNumber { column: 5 }
    );
    let mut r = good_row("1", "P", "10");
    r[7] = "MCMLXV".to_string();
    assert_eq!(decode_row(&r).unwrap_err(), DecodeError::BadNumber { column: 7 });
    let mut r = good_row("1", "P", "10");
    r[8] = "".to_string();
    assert_eq!(decode_row(&r).unwrap_err(), DecodeError::BadNumber { column: 8 });
}

fn book(publisher: &str) -> Book {
    decode_row(&good_row("7", publisher, "99")).unwrap()
}

#[test]
fn publisher_flag_follows_publisher_text() {
    let d = map_record(book("Chilton"));
    assert!(d.publisher_exist);
    assert_eq!(d.publisher, "Chilton");
    let d = map_record(book(""));
    assert!(!d.publisher_exist);
    assert_eq!(d.publisher, "");
    assert_eq!(d.id, 7);
    assert_eq!(d.filesize, 99);
    assert_eq!(d.title, "Dune");
}

fn start(rows: u64) -> BuildState {
    let mut s = BuildState::new();
    assert_eq!(s.step(BuildEvent::Started), BuildAction::CountRows);
    assert_eq!(s.step(BuildEvent::Counted { rows }), BuildAction::OpenWriter);
    assert_eq!(s.phase, Phase::Opening);
    assert_eq!(s.step(BuildEvent::WriterOpened), BuildAction::NextRow);
    s
}

fn finish(s: &mut BuildState) {
    assert_eq!(s.step(BuildEvent::StreamEnded), BuildAction::Commit);
    assert_eq!(s.step(BuildEvent::Committed), BuildAction::WaitForMerges);
    assert_eq!(s.step(BuildEvent::MergesDone), BuildAction::Finish);
}

#[test]
fn three_rows_with_one_bad_filesize() {
    let rows = vec![
        good_row("1", "A", "100"),
        good_row("2", "B", "not-a-number"),
        good_row("3", "", "300"),
    ];
    let mut s = start(3);
    let mut added = Vec::new();
    for r in &rows {
        match decode_row(r) {
            Ok(b) => {
                added.push(map_record(b));
                s.step(BuildEvent::DocumentAdded);
            }
            Err(_) => {
                s.step(BuildEvent::RowRejected);
            }
        }
    }
    finish(&mut s);
    assert_eq!(added.len(), 2);
    assert_eq!(s.documents_added, 2);
    assert_eq!(s.errors_reported, 1);
    assert_eq!(s.rows_consumed, 3);
    assert_eq!(s.phase, Phase::Done);
}

#[test]
fn progress_total_is_set_and_reached() {
    let mut s = start(10_000);
    assert_eq!(s.total_rows, 10_000);
    let mut last = s.rows_consumed;
    for _ in 0..10_000 {
        s.step(BuildEvent::DocumentAdded);
        assert!(s.rows_consumed >= last);
        last = s.rows_consumed;
    }
    assert_eq!(s.rows_consumed, s.total_rows);
    finish(&mut s);
    assert_eq!(s.total_rows, 10_000);
}

#[test]
fn every_row_is_accounted_for() {
    let mut s = start(4);
    s.step(BuildEvent::DocumentAdded);
    s.step(BuildEvent::DocumentRejected);
    s.step(BuildEvent::RowRejected);
    s.step(BuildEvent::DocumentAdded);
    assert_eq!(s.documents_added + s.errors_reported, s.rows_consumed);
    assert_eq!(s.rows_consumed, 4);
    assert_eq!(s.errors_reported, 2);
}

#[test]
fn fatal_events_fail_the_build() {
    let mut s = BuildState::new();
    s.step(BuildEvent::Started);
    assert_eq!(s.step(BuildEvent::SourceFailed), BuildAction::Abort);
    assert_eq!(s.phase, Phase::Failed);
    assert_eq!(s.step(BuildEvent::Counted { rows: 5 }), BuildAction::Ignore);
    assert_eq!(s.phase, Phase::Failed);

    let mut s = start(1);
    s.step(BuildEvent::StreamEnded);
    assert_eq!(s.step(BuildEvent::CommitFailed), BuildAction::Abort);
    assert_eq!(s.phase, Phase::Failed);

    let mut s = start(1);
    s.step(BuildEvent::StreamEnded);
    s.step(BuildEvent::Committed);
    assert_eq!(s.step(BuildEvent::MergeFailed), BuildAction::Abort);
    assert_eq!(s.phase, Phase::Failed);

    let mut s = BuildState::new();
    s.step(BuildEvent::Started);
    s.step(BuildEvent::Counted { rows: 2 });
    assert_eq!(s.step(BuildEvent::WriterFailed), BuildAction::Abort);
    assert_eq!(s.phase, Phase::Failed);
    assert_eq!(s.step(BuildEvent::WriterOpened), BuildAction::Ignore);
    assert_eq!(s.step(BuildEvent::DocumentAdded), BuildAction::Ignore);
    assert_eq!(s.documents_added, 0);
    assert_eq!(s.rows_consumed, 0);
}

#[test]
fn writer_is_opened_only_after_counting() {
    let mut s = BuildState::new();
    assert_eq!(s.step(BuildEvent::WriterOpened), BuildAction::Ignore);
    assert_eq!(s.step(BuildEvent::Started), BuildAction::CountRows);
    assert_eq!(s.step(BuildEvent::WriterOpened), BuildAction::Ignore);
    assert_eq!(s.phase, Phase::Counting);
    assert_eq!(s.step(BuildEvent::SourceFailed), BuildAction::Abort);
    assert_eq!(s.step(BuildEvent::Counted { rows: 1 }), BuildAction::Ignore);
    assert_eq!(s.phase, Phase::Failed);
}

#[test]
fn row_errors_do_not_fail_the_build() {
    let mut s = start(2);
    assert_eq!(s.step(BuildEvent::RowRejected), BuildAction::NextRow);
    assert_eq!(s.step(BuildEvent::DocumentRejected), BuildAction::NextRow);
    assert_eq!(s.phase, Phase::Streaming);
}

#[test]
fn out_of_phase_events_are_ignored() {
    let mut s = BuildState::new();
    assert_eq!(s.step(BuildEvent::DocumentAdded), BuildAction::Ignore);
    assert_eq!(s.step(BuildEvent::Committed), BuildAction::Ignore);
    assert_eq!(s, BuildState::new());
    let mut s = start(3);
    assert_eq!(s.step(BuildEvent::Counted { rows: 9 }), BuildAction::Ignore);
    assert_eq!(s.total_rows, 3);
    finish(&mut s);
    assert_eq!(s.step(BuildEvent::DocumentAdded), BuildAction::Ignore);
    assert_eq!(s.rows_consumed, 0);
}

#[test]
fn line_count_matches_lines_of_a_stream() {
    assert_eq!(count_lines(&[]), 0);
    assert_eq!(count_lines(&[b""]), 0);
    assert_eq!(count_lines(&[b"a\nb\nc"]), 3);
    assert_eq!(count_lines(&[b"a\nb\n"]), 2);
    assert_eq!(count_lines(&[b"\n\n"]), 2);
    assert_eq!(count_lines(&[b"a\nb", b"c\n", b"", b"d"]), 3);
    assert_eq!(count_lines(&[b"a\n", b""]), 1);
}

#[test]
fn same_row_gives_same_document_twice() {
    let r = good_row("11", "Ace", "2048");
    let a = map_record(decode_row(&r).unwrap());
    let b = map_record(decode_row(&r.clone()).unwrap());
    assert_eq!(a.id, b.id);
    assert_eq!(a.title, b.title);
    assert_eq!(a.author, b.author);
    assert_eq!(a.publisher_exist, b.publisher_exist);
    assert_eq!(a.publisher, b.publisher);
    assert_eq!(a.extension, b.extension);
    assert_eq!(a.filesize, b.filesize);
    assert_eq!(a.language, b.language);
    assert_eq!(a.year, b.year);
    assert_eq!(a.pages, b.pages);
    assert_eq!(a.isbn, b.isbn);
    assert_eq!(a.ipfs_cid, b.ipfs_cid);
}

#[test]
fn decode_ignores_fields_after_the_eleventh() {
    let mut r = good_row("5", "P", "10");
    r.push("extra".to_string());
    r.push("not-a-number".to_string());
    let b = decode_row(&r).unwrap();
    assert_eq!(b.id, 5);
    assert_eq!(b.ipfs_cid, "bafykbzacedune");
}

#[test]
fn probe_budget_applies_both_fallbacks() {
    let b = budget_from_probe(0, 0);
    assert_eq!(b.thread_count, 1);
    assert_eq!(b.arena_bytes, 15_000_000);
    let b = budget_from_probe(0, 4);
    assert_eq!(b.thread_count, 4);
    assert_eq!(b.arena_bytes, 4 * 15_000_000);
    let b = budget_from_probe(4 * GIB, 0);
    assert_eq!(b.thread_count, 1);
    assert_eq!(b.arena_bytes, 4_293_967_294);
    let b = budget_from_probe(GIB, 2);
    assert_eq!(b.thread_count, 2);
    assert_eq!(b.arena_bytes, 968_884_224);
    let b = budget_from_probe(100 * MIB, 0);
    assert_eq!(b.arena_bytes, 0);
}
