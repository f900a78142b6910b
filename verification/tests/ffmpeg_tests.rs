use convpalette::ffmpeg::start_decision;
use convpalette::ffmpeg::downloaded_message;
use convpalette::ffmpeg::extraction_result;
use convpalette::ffmpeg::tool_entry;
use convpalette::ffmpeg::{
    cancelled_event, classify_line, diagnostic_text, entry_base_name, exe_name, finish_event,
    progress_event, spawn_failed_event, start_event, worker_count, Jobs, LineKind, ProcessOutcome,
    StderrTail,
};

#[test]
fn jobs_registry() {
    let mut j = Jobs::new();
    assert!(!j.cancel);
    j.register(10);
    j.register(20);
    j.register(10);
    j.unregister(20);
    let mut pids = j.cancel_all();
    pids.sort();
    assert_eq!(pids, vec![10]);
    assert!(j.cancel);
    assert!(j.pids.contains(&10));
    j.reset();
    assert!(!j.cancel);
    assert!(j.pids.is_empty());
}

#[test]
fn lines_classified() {
    assert_eq!(classify_line("frame=  100 fps=25"), LineKind::Progress);
    assert_eq!(classify_line("size= 1kB time=00:00:01"), LineKind::Progress);
    assert_eq!(classify_line("Unknown encoder 'x'"), LineKind::Diagnostic);
    assert_eq!(classify_line("   "), LineKind::Blank);
}

#[test]
fn tail_keeps_last_eight() {
    let mut t = StderrTail::new();
    for i in 0..12 {
        t.push(format!("line {}", i));
    }
    let kept: Vec<&str> = t.lines().iter().map(|s| s.as_str()).collect();
    assert_eq!(kept, vec!["line 4", "line 5", "line 6", "line 7", "line 8", "line 9", "line 10", "line 11"]);
    assert_eq!(diagnostic_text(t.lines()), "line 4\nline 5\nline 6\nline 7\nline 8\nline 9\nline 10\nline 11");
}

#[test]
fn diagnostic_shortened() {
    let long = vec!["a".repeat(500), "b".repeat(500)];
    let d = diagnostic_text(&long);
    assert_eq!(d.chars().count(), 700);
    assert!(d.ends_with(&"b".repeat(500)));
    assert!(d.starts_with(&format!("{}\n", "a".repeat(199))));
    let short = vec!["x".to_string()];
    assert_eq!(diagnostic_text(&short), "x");
    // over 700 bytes in fewer than 700 characters: all of it is kept
    let wide = vec!["ж".repeat(400)];
    assert_eq!(diagnostic_text(&wide), "ж".repeat(400));
    let wider = vec!["ж".repeat(400), "щ".repeat(400)];
    let w = diagnostic_text(&wider);
    assert_eq!(w.chars().count(), 700);
    assert_eq!(w, format!("{}\n{}", "ж".repeat(299), "щ".repeat(400)));
}

#[test]
fn events() {
    let s = start_event("a.mp4");
    assert_eq!((s.stage.as_str(), s.message.as_str()), ("start", "Запуск: a.mp4"));
    let c = cancelled_event("a.mp4");
    assert_eq!((c.stage.as_str(), c.message.as_str()), ("cancelled", "Отменено"));
    let p = progress_event("a.mp4", "frame=1".to_string());
    assert_eq!(p.stage, "line");
    let f = spawn_failed_event("a.mp4", "not found");
    assert_eq!(f.message, "Не удалось запустить ffmpeg: not found");
    assert_eq!(f.stage, "error");
}

#[test]
fn finishing_events() {
    let done = finish_event("a", "b.mp4", &ProcessOutcome::Succeeded, true, "");
    assert_eq!(done.stage, "done");
    assert_eq!(done.message, "Готово: b.mp4");
    assert_eq!(done.output.as_deref(), Some("b.mp4"));
    let failed = finish_event("a", "b", &ProcessOutcome::Failed("exit status: 1".to_string()), false, "bad");
    assert_eq!(failed.stage, "error");
    assert_eq!(failed.message, "ffmpeg завершился с кодом exit status: 1\nbad");
    let cancelled = finish_event("a", "b", &ProcessOutcome::Failed("signal: 9".to_string()), true, "bad");
    assert_eq!(cancelled.stage, "cancelled");
    let wait = finish_event("a", "b", &ProcessOutcome::WaitFailed("io".to_string()), false, "");
    assert_eq!(wait.message, "Ошибка процесса: io");
    assert!(wait.output.is_none());
}

#[test]
fn executables_and_archive_entries() {
    assert_eq!(exe_name("ffmpeg", true), "ffmpeg.exe");
    assert_eq!(exe_name("ffprobe", false), "ffprobe");
    assert_eq!(entry_base_name("ffmpeg-master/bin\\ffmpeg.exe"), "ffmpeg.exe");
    assert_eq!(entry_base_name("ffmpeg-master/bin/"), "");
    assert_eq!(entry_base_name("README.txt"), "README.txt");
}

#[test]
fn workers() {
    assert_eq!(worker_count(0), 1);
    assert_eq!(worker_count(1), 1);
    assert_eq!(worker_count(2), 2);
    assert_eq!(worker_count(9), 2);
}

#[test]
fn archive_entries_of_the_tools() {
    assert_eq!(tool_entry("ffmpeg-master/bin/ffmpeg.exe", true), Some("ffmpeg.exe".to_string()));
    assert_eq!(tool_entry("ffmpeg-master\\bin\\ffprobe.exe", true), Some("ffprobe.exe".to_string()));
    assert_eq!(tool_entry("ffmpeg-master/bin/ffplay.exe", true), None);
    assert_eq!(tool_entry("ffmpeg-master/bin/ffmpeg.exe", false), None);
    assert_eq!(tool_entry("bin/ffprobe", false), Some("ffprobe".to_string()));
    assert_eq!(tool_entry("ffmpeg", false), Some("ffmpeg".to_string()));
    assert_eq!(tool_entry("bin/", false), None);
}

#[test]
fn extraction_needs_a_tool() {
    assert_eq!(extraction_result(0), Err("В архиве не найдены ffmpeg/ffprobe".to_string()));
    assert_eq!(extraction_result(2), Ok(()));
}

#[test]
fn download_progress_in_megabytes() {
    assert_eq!(downloaded_message(0), "Загружено 0 МБ");
    assert_eq!(downloaded_message(1_048_575), "Загружено 0 МБ");
    assert_eq!(downloaded_message(3 * 1_048_576 + 5), "Загружено 3 МБ");
    assert_eq!(downloaded_message(u64::MAX), "Загружено 17592186044415 МБ");
}

#[test]
fn cancelled_batch_starts_nothing() {
    let e = start_decision(true, "/a/b.mov").unwrap();
    assert_eq!(e.input, "/a/b.mov");
    assert_eq!(e.stage, "cancelled");
    assert_eq!(e.message, "Отменено");
    assert!(e.output.is_none());
    assert!(start_decision(false, "/a/b.mov").is_none());
}
