use pi_coding::truncate::{
    format_size, split_lines_for_counting, truncate_head, truncate_line,
    truncate_string_to_bytes_from_end, truncate_tail, utf16_len,
};

#[test]
fn format_size_boundaries() {
    assert_eq!(format_size(0), "0B");
    assert_eq!(format_size(1023), "1023B");
    assert_eq!(format_size(1024), "1.0KB");
    assert_eq!(format_size(50 * 1024), "50.0KB");
    assert_eq!(format_size(1024 * 1024), "1.0MB");
}

#[test]
fn format_size_rounds_like_the_formatter_of_floats() {
    for bytes in [1024usize, 1075, 1076, 1126, 1127, 1280, 1536, 10291, 1048575, 1048576, 1572864, 5000000, 123456789] {
        let expected = if bytes < 1024 {
            format!("{}B", bytes)
        } else if bytes < 1024 * 1024 {
            format!("{:.1}KB", bytes as f64 / 1024.0)
        } else {
            format!("{:.1}MB", bytes as f64 / (1024.0 * 1024.0))
        };
        assert_eq!(format_size(bytes), expected, "{bytes}");
    }
}

#[test]
fn format_size_follows_floats_beyond_their_exact_range() {
    for bytes in [
        (1u64 << 53) + 1,
        (1u64 << 54) + 3,
        u64::MAX,
        u64::MAX - 1,
        (1u64 << 63) + (1u64 << 10),
    ] {
        let expected = format!("{:.1}MB", bytes as f64 / (1024.0 * 1024.0));
        assert_eq!(format_size(bytes as usize), expected, "{bytes}");
    }
}

#[test]
fn utf16_len_astral_counts_two() {
    assert_eq!(utf16_len("abc"), 3);
    assert_eq!(utf16_len("\u{1F600}"), 2);
    assert_eq!(utf16_len("a\u{1F600}b"), 4);
}

#[test]
fn truncate_head_under_limits_passthrough() {
    let tr = truncate_head("a\nb\nc", 0, 0);
    assert!(!tr.truncated);
    assert_eq!(tr.content, "a\nb\nc");
    assert_eq!(tr.total_lines, 3);
    assert_eq!(tr.output_lines, 3);
}

#[test]
fn truncate_head_by_lines() {
    let content = (0..10).map(|i| format!("line{i}")).collect::<Vec<_>>().join("\n");
    let tr = truncate_head(&content, 3, 0);
    assert!(tr.truncated);
    assert_eq!(tr.truncated_by, "lines");
    assert_eq!(tr.output_lines, 3);
    assert_eq!(tr.content, "line0\nline1\nline2");
    assert_eq!(tr.total_lines, 10);
}

#[test]
fn truncate_head_by_bytes() {
    let content = (0..5).map(|i| format!("line{i}")).collect::<Vec<_>>().join("\n");
    let tr = truncate_head(&content, 0, 20);
    assert!(tr.truncated);
    assert_eq!(tr.truncated_by, "bytes");
    assert_eq!(tr.output_lines, 3);
    assert_eq!(tr.content, "line0\nline1\nline2");
}

#[test]
fn truncate_head_first_line_exceeds_limit() {
    let long = "x".repeat(100);
    let tr = truncate_head(&long, 0, 10);
    assert!(tr.truncated);
    assert!(tr.first_line_exceeds_limit);
    assert_eq!(tr.truncated_by, "bytes");
    assert_eq!(tr.content, "");
}

#[test]
fn truncate_tail_keeps_last_lines() {
    let content = (0..10).map(|i| format!("line{i}")).collect::<Vec<_>>().join("\n");
    let tr = truncate_tail(&content, 3, 0);
    assert!(tr.truncated);
    assert_eq!(tr.truncated_by, "lines");
    assert_eq!(tr.content, "line7\nline8\nline9");
    assert_eq!(tr.output_lines, 3);
}

#[test]
fn truncate_tail_by_bytes_partial_line() {
    let content = format!("ab\n{}", "x".repeat(40));
    let tr = truncate_tail(&content, 0, 10);
    assert!(tr.truncated);
    assert_eq!(tr.truncated_by, "bytes");
    assert!(tr.last_line_partial);
    assert_eq!(tr.content.len(), 10);
    assert!(tr.content.chars().all(|c| c == 'x'));
}

#[test]
fn truncate_line_short_passthrough() {
    let (s, was) = truncate_line("hello", 10);
    assert!(!was);
    assert_eq!(s, "hello");
}

#[test]
fn truncate_line_appends_marker() {
    let long = "a".repeat(600);
    let (s, was) = truncate_line(&long, 10);
    assert!(was);
    assert!(s.ends_with("... [truncated]"));
    assert!(s.starts_with("aaaaaaaaaa"));
}

#[test]
fn truncate_line_surrogate_split_yields_replacement() {
    let s = "\u{1F600}\u{1F600}";
    let (out, was) = truncate_line(s, 3);
    assert!(was);
    assert!(out.starts_with('\u{1F600}'));
    assert!(out.contains('\u{FFFD}'));
    assert!(out.ends_with("... [truncated]"));
}

#[test]
fn counted_lines_ignore_the_last_newline() {
    assert_eq!(split_lines_for_counting("a\nb\n"), vec!["a", "b"]);
    assert_eq!(split_lines_for_counting("a\n\n"), vec!["a", ""]);
}

#[test]
fn byte_tail_starts_at_a_character() {
    assert_eq!(truncate_string_to_bytes_from_end("aé", 2), "é");
    assert_eq!(truncate_string_to_bytes_from_end("aé", 1), "");
    assert_eq!(truncate_string_to_bytes_from_end("abc", 9), "abc");
}

#[test]
fn tail_stays_within_its_bounds() {
    let content = (0..100).map(|i| format!("row {i}")).collect::<Vec<_>>().join("\n");
    let tr = truncate_tail(&content, 10, 40);
    assert!(tr.content.len() <= 40);
    assert!(tr.content.lines().count() <= 10);
    assert!(content.ends_with(&tr.content));
}

#[test]
fn the_trigger_is_a_bound_that_is_exceeded() {
    let tr = truncate_head("abc\n", 10, 3);
    assert!(tr.truncated);
    assert_eq!((tr.content.as_str(), tr.truncated_by.as_str()), ("abc", "bytes"));
    let tr = truncate_tail("abc\n", 1, 3);
    assert_eq!((tr.content.as_str(), tr.truncated_by.as_str()), ("abc", "bytes"));
    let tr = truncate_tail("xxxx", 1, 2);
    assert!(tr.truncated && tr.last_line_partial);
    assert_eq!((tr.content.as_str(), tr.output_lines), ("xx", 1));
    assert_eq!(tr.truncated_by, "bytes");
    let tr = truncate_head("a\nb\n", 1, 9);
    assert_eq!((tr.content.as_str(), tr.truncated_by.as_str()), ("a", "lines"));
}
