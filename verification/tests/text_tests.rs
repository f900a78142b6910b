use convpalette::text::lowercase_string;
use convpalette::commands::{ai_command_preview, ai_jobs, command_line_of, command_preview, preset_jobs};
use convpalette::output::OutputConfig;
use convpalette::paths::{candidate_args, display_name, extract_paths, path_extension, path_file_stem};
use convpalette::text::{join_strings, str_replace, str_trim, u64_to_decimal};

fn strings(v: &[&str]) -> Vec<String> {
    v.iter().map(|s| s.to_string()).collect()
}

fn cfg() -> OutputConfig {
    OutputConfig { dir: None, template: String::new() }
}

#[test]
fn decimal_numbers() {
    assert_eq!(u64_to_decimal(0), "0");
    assert_eq!(u64_to_decimal(7), "7");
    assert_eq!(u64_to_decimal(1200), "1200");
    assert_eq!(u64_to_decimal(u64::MAX), u64::MAX.to_string());
}

#[test]
fn replace_and_trim() {
    assert_eq!(str_replace("{name}_{name}", "{name}", "x"), "x_x");
    assert_eq!(str_replace("aaa", "aa", "b"), "ba");
    assert_eq!(str_replace("abc", "", "z"), "abc");
    assert_eq!(str_trim("\u{a0} a b \t\n"), "a b");
    assert_eq!(join_strings(&strings(&["a", "b", "c"]), ", "), "a, b, c");
    assert_eq!(join_strings(&Vec::new(), ", "), "");
}

#[test]
fn path_parts() {
    assert_eq!(path_extension("/a/b.tar.GZ"), Some("GZ".to_string()));
    assert_eq!(path_extension("/a/.hidden"), None);
    assert_eq!(path_extension("/a/b"), None);
    assert_eq!(path_extension("/a/b."), Some(String::new()));
    assert_eq!(path_file_stem("/a/b.tar.gz"), Some("b.tar".to_string()));
    assert_eq!(path_file_stem("/a/.hidden"), Some(".hidden".to_string()));
    assert_eq!(path_file_stem("/"), None);
    assert_eq!(display_name("/a/b.mp4"), "b.mp4");
    assert_eq!(display_name("/"), "/");
}

#[test]
fn command_line_arguments() {
    assert_eq!(candidate_args(&strings(&["app.exe", "-flag", "/x", "y"])), strings(&["/x", "y"]));
    assert!(candidate_args(&Vec::new()).is_empty());
    let found = extract_paths(&strings(&["app", "/", "--x", "/nonexistent_dir_q1/f"]));
    assert_eq!(found, strings(&["/"]));
}

#[test]
fn previews() {
    let lines = command_preview("audio_wav", &strings(&["/nonexistent_dir_q1/a.mp3"]), &cfg());
    assert_eq!(lines, strings(&["ffmpeg -y -i /nonexistent_dir_q1/a.mp3 -c:a pcm_s16le /nonexistent_dir_q1/a_converted.wav"]));
    assert!(command_preview("nope", &strings(&["/a.mp3"]), &cfg()).is_empty());
    let ai = ai_command_preview(&strings(&["-an"]), "mp4", &strings(&["/nonexistent_dir_q1/v.mov"]), &cfg());
    assert_eq!(ai, strings(&["ffmpeg -y -i /nonexistent_dir_q1/v.mov -an /nonexistent_dir_q1/v_converted.mp4"]));
    assert!(ai_command_preview(&strings(&["-i"]), "mp4", &strings(&["/v.mov"]), &cfg()).is_empty());
    assert_eq!(command_line_of(&Vec::new()), "ffmpeg ");
}

#[test]
fn batches() {
    let jobs = preset_jobs("video_mute", &strings(&["/nonexistent_dir_q1/a.mp4", "/nonexistent_dir_q1/b.mkv"]), &cfg());
    assert_eq!(jobs.len(), 2);
    assert_eq!(jobs[1].0, "/nonexistent_dir_q1/b.mkv");
    assert_eq!(jobs[1].2, "/nonexistent_dir_q1/b_converted.mp4");
    assert_eq!(jobs[1].1, strings(&["-y", "-i", "/nonexistent_dir_q1/b.mkv", "-an", "-c:v", "copy", "/nonexistent_dir_q1/b_converted.mp4"]));
    assert!(preset_jobs("x", &strings(&["/a.mp4"]), &cfg()).is_empty());
    let ai = ai_jobs(&strings(&["-c:a", "flac"]), "flac", &strings(&["/nonexistent_dir_q1/a.wav"]), &cfg()).unwrap();
    assert_eq!(ai[0].2, "/nonexistent_dir_q1/a_converted.flac");
    assert_eq!(
        ai_jobs(&strings(&["-c:a"]), "", &strings(&["/a.wav"]), &cfg()).unwrap_err(),
        "ИИ не указал корректное расширение результата"
    );
    assert!(ai_jobs(&strings(&["-c:a"]), "", &Vec::new(), &cfg()).unwrap().is_empty());
    assert!(ai_jobs(&strings(&["pipe:1"]), "mp4", &Vec::new(), &cfg()).is_err());
}

#[test]
fn lowercase_of_ascii_and_beyond() {
    assert_eq!(lowercase_string("MP4"), "mp4");
    assert_eq!(lowercase_string("Ctrl+K 9"), "ctrl+k 9");
    assert_eq!(lowercase_string("ÀБ"), "àб");
}
