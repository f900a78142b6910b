use convpalette::output::pick_output_path;
use convpalette::output::output_candidate_path;
use convpalette::args::{build_ai_args, build_ffmpeg_args, validate_ai_options};
use convpalette::output::{output_path_for, OutputConfig};
use convpalette::presets::{
    category_for_ext, category_for_path, preset_by_id, presets_for_category,
    recommendations_for_paths, Category,
};

fn strings(v: &[&str]) -> Vec<String> {
    v.iter().map(|s| s.to_string()).collect()
}

fn cfg(dir: Option<&str>, template: &str) -> OutputConfig {
    OutputConfig { dir: dir.map(|d| d.to_string()), template: template.to_string() }
}

#[test]
fn category_ignores_case() {
    assert_eq!(category_for_ext("MP4"), Category::Video);
    assert_eq!(category_for_ext("Flac"), Category::Audio);
    assert_eq!(category_for_ext("HEIC"), Category::Image);
    assert_eq!(category_for_ext("txt"), Category::Other);
    assert_eq!(category_for_ext(""), Category::Other);
}

#[test]
fn category_of_paths() {
    assert_eq!(category_for_path("/media/clip.MOV"), Category::Video);
    assert_eq!(category_for_path("song.ogg"), Category::Audio);
    assert_eq!(category_for_path("noext"), Category::Other);
    assert_eq!(category_for_path(".mp4"), Category::Other);
    assert_eq!(category_for_path("archive.tar.gz"), Category::Other);
}

#[test]
fn category_names() {
    assert_eq!(Category::Video.as_str(), "video");
    assert_eq!(Category::Audio.as_str(), "audio");
    assert_eq!(Category::Image.as_str(), "image");
    assert_eq!(Category::Other.as_str(), "other");
}

#[test]
fn catalogue_sizes_and_order() {
    let v = presets_for_category(Category::Video);
    let ids: Vec<&str> = v.iter().map(|p| p.id.as_str()).collect();
    assert_eq!(
        ids,
        vec!["video_mp4", "video_compress", "video_extract_audio", "video_gif", "video_webm", "video_mute"]
    );
    assert!(v.iter().all(|p| p.category == "video"));
    assert_eq!(presets_for_category(Category::Audio).len(), 5);
    assert_eq!(presets_for_category(Category::Image).len(), 4);
    assert!(presets_for_category(Category::Other).is_empty());
    assert_eq!(v[1].label, "Сжать (720p)");
    assert_eq!(v[2].target_ext, "mp3");
}

#[test]
fn recommendations_follow_common_category() {
    let same = recommendations_for_paths(&strings(&["a.mp4", "b.MKV"]));
    assert_eq!(same.len(), 6);
    assert_eq!(same[0].id, "video_mp4");
    let mixed = recommendations_for_paths(&strings(&["a.mp4", "b.mp3"]));
    assert!(mixed.is_empty());
    let none = recommendations_for_paths(&Vec::new());
    assert!(none.is_empty());
    let other = recommendations_for_paths(&strings(&["notes.txt"]));
    assert!(other.is_empty());
    let images = recommendations_for_paths(&strings(&["x.png", "y.jpeg"]));
    assert_eq!(images.len(), 4);
}

#[test]
fn presets_found_by_id() {
    let p = preset_by_id("audio_flac").expect("known preset");
    assert_eq!(p.target_ext, "flac");
    assert_eq!(p.category, "audio");
    let q = preset_by_id("image_resize").expect("known preset");
    assert_eq!(q.label, "Уменьшить (1080p)");
    assert!(preset_by_id("video_unknown").is_none());
    assert!(preset_by_id("").is_none());
    for cat in [Category::Video, Category::Audio, Category::Image] {
        for p in presets_for_category(cat) {
            let found = preset_by_id(&p.id).unwrap();
            assert_eq!(found.label, p.label);
            assert_eq!(found.category, p.category);
        }
    }
}

#[test]
fn options_accepted() {
    assert!(validate_ai_options(&strings(&["-c:v", "libx264", "-crf", "23"])).is_ok());
    assert!(validate_ai_options(&[]).is_ok());
}

#[test]
fn banned_switches_refused_in_any_case() {
    assert_eq!(
        validate_ai_options(&strings(&["-c:v", "-I", "x"])),
        Err("Опция '-I' запрещена".to_string())
    );
    assert_eq!(validate_ai_options(&strings(&["-y"])), Err("Опция '-y' запрещена".to_string()));
    assert_eq!(validate_ai_options(&strings(&["-F"])), Err("Опция '-F' запрещена".to_string()));
}

#[test]
fn banned_parts_refused() {
    assert_eq!(
        validate_ai_options(&strings(&["-vf", "movie=secret.png"])),
        Err("Опция 'movie=secret.png' содержит запрещённую конструкцию".to_string())
    );
    assert!(validate_ai_options(&strings(&["HTTP://evil"])).is_err());
    assert!(validate_ai_options(&strings(&["\\\\.\\pipe"])).is_err());
    assert!(validate_ai_options(&strings(&["-map_metadata:s"])).is_err());
    assert!(validate_ai_options(&strings(&["/dev/video0"])).is_err());
    // the first refused option is reported
    assert_eq!(
        validate_ai_options(&strings(&["file:a", "-i"])),
        Err("Опция 'file:a' содержит запрещённую конструкцию".to_string())
    );
}

#[test]
fn too_many_options_refused() {
    let many: Vec<String> = (0..41).map(|i| format!("-x{}", i)).collect();
    assert_eq!(validate_ai_options(&many), Err("Слишком длинный список опций от ИИ".to_string()));
    let forty: Vec<String> = (0..40).map(|i| format!("-x{}", i)).collect();
    assert!(validate_ai_options(&forty).is_ok());
}

#[test]
fn output_next_to_source_with_template() {
    let c = cfg(None, "");
    assert_eq!(output_path_for("/nonexistent_dir_q1/clip.mov", "mp4", &c), "/nonexistent_dir_q1/clip_converted.mp4");
    let t = cfg(None, "  {name}-small  ");
    assert_eq!(output_path_for("/nonexistent_dir_q1/clip.mov", "mp4", &t), "/nonexistent_dir_q1/clip-small.mp4");
}

#[test]
fn output_template_cleanup() {
    let c = cfg(None, "a<b>:{name}*");
    assert_eq!(output_path_for("/nonexistent_dir_q1/x.wav", "mp3", &c), "/nonexistent_dir_q1/abx.mp3");
    let bad = cfg(None, "???");
    assert_eq!(output_path_for("/nonexistent_dir_q1/x.wav", "mp3", &bad), "/nonexistent_dir_q1/x_converted.mp3");
}

#[test]
fn output_folder_only_when_it_exists() {
    let missing = cfg(Some("/nonexistent_dir_q2"), "");
    assert_eq!(output_path_for("/nonexistent_dir_q1/x.wav", "mp3", &missing), "/nonexistent_dir_q1/x_converted.mp3");
    let blank = cfg(Some("   "), "");
    assert_eq!(output_path_for("/nonexistent_dir_q1/x.wav", "mp3", &blank), "/nonexistent_dir_q1/x_converted.mp3");
    let root = cfg(Some(" / "), "{name}_zz_q");
    assert_eq!(output_path_for("/nonexistent_dir_q1/x.wav", "mp3", &root), "/x_zz_q.mp3");
}

#[test]
fn output_numbered_on_collision() {
    // /etc/ld.so.conf exists on the systems the tests run on
    let c = cfg(Some("/etc"), "ld.so");
    assert_eq!(output_path_for("/nonexistent_dir_q1/x.wav", "conf", &c), "/etc/ld.so_1.conf");
}

#[test]
fn output_without_stem_or_parent() {
    let c = cfg(None, "");
    assert_eq!(output_path_for("clip.mov", "mp4", &c), "clip_converted.mp4");
}

#[test]
fn ai_args_wrap_options() {
    let c = cfg(None, "");
    let (args, out) = build_ai_args(&strings(&["-c:a", "aac"]), "..m4a!", "/nonexistent_dir_q1/s.wav", &c).unwrap();
    assert_eq!(out, "/nonexistent_dir_q1/s_converted.m4a");
    assert_eq!(args, strings(&["-y", "-i", "/nonexistent_dir_q1/s.wav", "-c:a", "aac", "/nonexistent_dir_q1/s_converted.m4a"]));
}

#[test]
fn ai_args_errors() {
    let c = cfg(None, "");
    assert_eq!(
        build_ai_args(&strings(&["-c:a", "aac"]), ".!", "/nonexistent_dir_q1/s.wav", &c).unwrap_err(),
        "ИИ не указал корректное расширение результата"
    );
    assert_eq!(
        build_ai_args(&strings(&["-i", "x"]), "mp4", "/nonexistent_dir_q1/s.wav", &c).unwrap_err(),
        "Опция '-i' запрещена"
    );
}

#[test]
fn preset_args() {
    let c = cfg(None, "");
    let (args, out) = build_ffmpeg_args("video_gif", "/nonexistent_dir_q1/v.mp4", &c).unwrap();
    assert_eq!(out, "/nonexistent_dir_q1/v_converted.gif");
    assert_eq!(
        args,
        strings(&["-y", "-i", "/nonexistent_dir_q1/v.mp4", "-vf", "fps=12,scale=480:-1:flags=lanczos", "/nonexistent_dir_q1/v_converted.gif"])
    );
    let (png, _) = build_ffmpeg_args("image_png", "/nonexistent_dir_q1/i.jpg", &c).unwrap();
    assert_eq!(png, strings(&["-y", "-i", "/nonexistent_dir_q1/i.jpg", "/nonexistent_dir_q1/i_converted.png"]));
    let (mp3, _) = build_ffmpeg_args("audio_mp3", "/nonexistent_dir_q1/a.wav", &c).unwrap();
    assert_eq!(&mp3[3..7], &strings(&["-c:a", "libmp3lame", "-b:a", "192k"])[..]);
    assert!(build_ffmpeg_args("nope", "/nonexistent_dir_q1/a.wav", &c).is_none());
}

#[test]
fn output_candidates_by_number() {
    let c = cfg(Some(" /srv/out "), "{name}-v");
    assert_eq!(output_candidate_path("/a/b/song.flac", "mp3", &c, true, 0), "/srv/out/song-v.mp3");
    assert_eq!(output_candidate_path("/a/b/song.flac", "mp3", &c, true, 12), "/srv/out/song-v_12.mp3");
    assert_eq!(output_candidate_path("/a/b/song.flac", "mp3", &c, false, 2), "/a/b/song-v_2.mp3");
    let none = cfg(None, "");
    assert_eq!(output_candidate_path("/a/b/.hidden", "txt", &none, true, 0), "/a/b/.hidden_converted.txt");
}

#[test]
fn preset_options_pass_the_model_check() {
    for cat in [Category::Video, Category::Audio, Category::Image] {
        for p in presets_for_category(cat) {
            let (args, _out) = build_ffmpeg_args(&p.id, "/nonexistent_dir_q1/in.x", &cfg(None, "")).unwrap();
            let extra = &args[3..args.len() - 1];
            assert_eq!(validate_ai_options(extra), Ok(()));
        }
    }
}

#[test]
fn first_free_candidate_taken() {
    let c = cfg(None, "{name}-x");
    assert_eq!(pick_output_path("/a/v.mkv", "mp4", &c, false, &vec![]), "/a/v-x.mp4");
    assert_eq!(pick_output_path("/a/v.mkv", "mp4", &c, false, &vec![false]), "/a/v-x.mp4");
    assert_eq!(pick_output_path("/a/v.mkv", "mp4", &c, false, &vec![true, true, false]), "/a/v-x_2.mp4");
    assert_eq!(pick_output_path("/a/v.mkv", "mp4", &c, false, &vec![true, false, true]), "/a/v-x_1.mp4");
    assert_eq!(pick_output_path("/a/v.mkv", "mp4", &c, false, &vec![true, true]), "/a/v-x_2.mp4");
    let d = cfg(Some("/srv"), "");
    assert_eq!(pick_output_path("/a/v.mkv", "mp4", &d, true, &vec![true, false]), "/srv/v_converted_1.mp4");
}

#[test]
fn catalogue_ids_distinct_and_extensions_plain() {
    let mut ids: Vec<String> = Vec::new();
    let sizes: Vec<usize> = [Category::Video, Category::Audio, Category::Image, Category::Other]
        .iter()
        .map(|c| presets_for_category(*c).len())
        .collect();
    assert_eq!(sizes, vec![6, 5, 4, 0]);
    for cat in [Category::Video, Category::Audio, Category::Image] {
        for p in presets_for_category(cat) {
            assert!(!p.target_ext.is_empty());
            assert!(p.target_ext.chars().all(|c| c.is_ascii_digit() || c.is_ascii_lowercase()));
            assert!(!ids.contains(&p.id));
            ids.push(p.id);
        }
    }
}

#[test]
fn dropping_options_keeps_them_accepted() {
    let all = strings(&["-c:v", "libx264", "-crf", "23", "-an"]);
    assert_eq!(validate_ai_options(&all), Ok(()));
    assert_eq!(validate_ai_options(&strings(&["libx264", "-an"])), Ok(()));
    assert_eq!(validate_ai_options(&[]), Ok(()));
}
