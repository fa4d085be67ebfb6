use termos::error::InstallError;
use termos::progress::{
    count_entries, finish_download, finish_extraction, is_completion_line, parse_content_length,
    parse_current_progress, parse_total_size, DownloadProgress, ExtractionProgress,
};
use termos::ui::ProgressBar;

#[test]
fn test_progress_bar_new() {
    let progress = ProgressBar::new(100, "Testing".to_string());
    assert_eq!(progress.total, 100);
    assert_eq!(progress.current, 0);
    assert_eq!(progress.width, 20);
    assert_eq!(progress.message, "Testing");
}

#[test]
fn test_progress_bar_render_0_percent() {
    let progress = ProgressBar::new(100, "Testing".to_string());
    let expected = "  Testing   0% [                    ]";
    let percentage = 0;
    let filled_width = 0;
    let bar = format!("[{}{}]", "=".repeat(filled_width), " ".repeat(20 - filled_width));
    let result = format!("  {} {:>3}% {}", "Testing", percentage, bar);
    assert_eq!(result, expected);
    assert_eq!(progress.render(), expected);
}

#[test]
fn test_progress_bar_render_50_percent() {
    let mut progress = ProgressBar::new(100, "Testing".to_string());
    let expected = "  Testing  50% [==========          ]";
    let percentage = 50;
    let filled_width = 10;
    let bar = format!("[{}{}]", "=".repeat(filled_width), " ".repeat(20 - filled_width));
    let result = format!("  {} {:>3}% {}", "Testing", percentage, bar);
    assert_eq!(result, expected);
    progress.update(50);
    assert_eq!(progress.render(), expected);
}

#[test]
fn test_progress_bar_render_100_percent() {
    let mut progress = ProgressBar::new(100, "Testing".to_string());
    let expected = "  Testing 100% [====================]";
    let percentage = 100;
    let filled_width = 20;
    let bar = format!("[{}{}]", "=".repeat(filled_width), " ".repeat(20 - filled_width));
    let result = format!("  {} {:>3}% {}", "Testing", percentage, bar);
    assert_eq!(result, expected);
    progress.update(100);
    assert_eq!(progress.render(), expected);
}

#[test]
fn test_progress_bar_update() {
    let mut progress = ProgressBar::new(100, "Testing".to_string());
    assert_eq!(progress.current, 0);
    progress.update(50);
    assert_eq!(progress.current, 50);
    progress.update(100);
    assert_eq!(progress.current, 100);
}

#[test]
fn test_progress_bar_increment() {
    let mut progress = ProgressBar::new(100, "Testing".to_string());
    assert_eq!(progress.current, 0);
    progress.increment(25);
    assert_eq!(progress.current, 25);
    progress.increment(25);
    assert_eq!(progress.current, 50);
}

#[test]
fn length_line_announces_total() {
    assert_eq!(parse_total_size("Length: 52428800 (50M) [application/x-xz]"), Some(52428800));
    assert_eq!(parse_total_size("Length: unspecified [text/html]"), None);
    assert_eq!(parse_total_size("Length: 12"), None);
    assert_eq!(parse_total_size("Saving to: 'x'"), None);
}

#[test]
fn bar_line_scales_total_by_percentage() {
    let line = "rootfs.tar.xz  45% [========>           ]  22.5M  3.2MB/s    eta 9s";
    assert_eq!(parse_current_progress(line, 1000), Some(450));
    assert_eq!(parse_current_progress(line, 0), Some(0));
    assert_eq!(parse_current_progress("45% done", 1000), None);
    assert_eq!(parse_current_progress("[====] no percent", 1000), None);
}

#[test]
fn completion_line_needs_full_percentage_and_bar() {
    assert!(is_completion_line("x 100%[===================>] 50M"));
    assert!(!is_completion_line("x 99%[==================> ] 49M"));
}

#[test]
fn download_progress_follows_lines() {
    let mut d = DownloadProgress::new();
    assert!(d.on_line("Resolving host...").is_empty());
    assert!(d.on_line("Length: 2000 (2.0K) [application/x-xz]").is_empty());
    assert_eq!(d.total, 2000);
    assert_eq!(d.on_line("f 10% [=>      ] 200"), vec![(200, 2000)]);
    assert_eq!(d.on_line("f 100% [=======>] 2000"), vec![(2000, 2000), (2000, 2000)]);
    assert_eq!(d.on_line("f 100%[=======>] 2000"), vec![(2000, 2000)]);
}

#[test]
fn download_outcome() {
    assert_eq!(finish_download(true, true, "u", 7), Ok(7));
    assert_eq!(finish_download(false, true, "u", 7), Err(InstallError::DownloadFailed("u".to_string())));
    assert_eq!(finish_download(true, false, "u", 7), Err(InstallError::DownloadFailed("u".to_string())));
}

#[test]
fn extraction_progress_counts_entries() {
    let mut e = ExtractionProgress::new();
    assert_eq!(e.on_line("./bin/\n"), (1, "./bin/".to_string()));
    assert_eq!(e.on_line("  ./etc/hosts "), (2, "./etc/hosts".to_string()));
    assert_eq!(finish_extraction(true, 2), Ok(2));
    assert_eq!(finish_extraction(false, 2), Err(InstallError::ExtractionFailed));
}

#[test]
fn entry_count_falls_back_to_estimate() {
    assert_eq!(count_entries(Some("a\nb\nc\n")), 3);
    assert_eq!(count_entries(Some("")), 100);
    assert_eq!(count_entries(None), 100);
}

#[test]
fn content_length_from_headers() {
    let headers = "HTTP/2 200\r\ncontent-type: x\r\nContent-Length: 1234\r\n\r\n";
    assert_eq!(parse_content_length(headers), Some(1234));
    assert_eq!(parse_content_length("HTTP/2 404\r\n"), None);
    assert_eq!(parse_content_length("Content-Length: many\nContent-Length:  77 \n"), Some(77));
}

#[test]
fn decimal_percentages_keep_their_whole_part() {
    assert_eq!(parse_current_progress("f 45.5% [====>   ] 1M", 1000), Some(450));
    assert_eq!(parse_current_progress("f 4x.5% [====>   ] 1M", 1000), None);
    assert_eq!(parse_current_progress("f 45.x% [====>   ] 1M", 1000), None);
}
