use convpalette::cards::media_fields;
use convpalette::cards::thumb_path;
use convpalette::cards::stream_dimensions;
use convpalette::cards::thumbs_need_pruning;
use convpalette::cards::{card_kind, preview_args, retry_from_start, tally_entries, thumb_args, thumb_ext, thumb_file_name, FolderStats};
use convpalette::integration::{autostart_command, base_keys, command_key, extensions, registration_probe_key, verb_command, verb_key, RUN_KEY};
use convpalette::presets::Category;

fn strings(v: &[&str]) -> Vec<String> {
    v.iter().map(|s| s.to_string()).collect()
}

#[test]
fn folder_counts() {
    let entries = vec![
        (false, "/d/a.MP4".to_string()),
        (false, "/d/b.mp3".to_string()),
        (true, "/d/sub.mp4".to_string()),
        (false, "/d/c.png".to_string()),
        (false, "/d/readme".to_string()),
        (false, "/d/d.flac".to_string()),
    ];
    assert_eq!(tally_entries(&entries), FolderStats { video: 1, audio: 2, image: 1, other: 1, dirs: 1 });
}

#[test]
fn folder_counts_stop_at_limit() {
    let entries: Vec<(bool, String)> = (0..2100).map(|i| (false, format!("/d/{}.mkv", i))).collect();
    let s = tally_entries(&entries);
    assert_eq!(s.video, 2000);
    assert_eq!(s.audio + s.image + s.other + s.dirs, 0);
}

#[test]
fn thumbnail_names() {
    assert_eq!(thumb_file_name(0xab, "jpg"), "00000000000000ab.jpg");
    assert_eq!(thumb_file_name(u64::MAX, "preview.jpg"), "ffffffffffffffff.preview.jpg");
    assert_eq!(thumb_ext(Category::Audio), "png");
    assert_eq!(thumb_ext(Category::Video), "jpg");
}

#[test]
fn thumbnail_arguments() {
    assert_eq!(
        thumb_args(Category::Video, "in.mp4", true, "o.jpg").unwrap(),
        strings(&["-y", "-ss", "1", "-i", "in.mp4", "-frames:v", "1", "-vf", "scale=320:-2", "-q:v", "4", "o.jpg"])
    );
    assert_eq!(
        thumb_args(Category::Video, "in.mp4", false, "o.jpg").unwrap()[1],
        "-i"
    );
    assert_eq!(
        thumb_args(Category::Audio, "in.mp3", true, "o.png").unwrap(),
        strings(&["-y", "-i", "in.mp3", "-filter_complex", "showwavespic=s=320x72:colors=0x7c86ff", "-frames:v", "1", "o.png"])
    );
    assert!(thumb_args(Category::Other, "x", true, "o").is_none());
    assert!(retry_from_start(Category::Video));
    assert!(!retry_from_start(Category::Image));
    assert_eq!(
        preview_args("i.heic", "p.jpg"),
        strings(&["-y", "-i", "i.heic", "-frames:v", "1", "-vf", "scale='min(1280,iw)':-2", "-q:v", "3", "p.jpg"])
    );
}

#[test]
fn card_kinds() {
    assert_eq!(card_kind("/x/Photo.PNG"), ("png".to_string(), Category::Image));
    assert_eq!(card_kind("/x/notes"), (String::new(), Category::Other));
}

#[test]
fn registry_keys() {
    let keys = base_keys();
    assert_eq!(keys.len(), extensions().len() + 2);
    assert_eq!(keys[0], ("Software\\Classes\\SystemFileAssociations\\.mp4".to_string(), "%1".to_string()));
    assert_eq!(keys[keys.len() - 1], ("Software\\Classes\\Directory\\Background".to_string(), "%V".to_string()));
    assert_eq!(extensions().len(), 31);
    assert_eq!(verb_key("Software\\Classes\\Directory"), "Software\\Classes\\Directory\\shell\\ConvPalette");
    assert_eq!(command_key("B"), "B\\shell\\ConvPalette\\command");
    assert_eq!(registration_probe_key(), "Software\\Classes\\Directory\\shell\\ConvPalette\\command");
    assert_eq!(verb_command("C:\\a.exe", "%1"), "\"C:\\a.exe\" \"%1\"");
    assert_eq!(autostart_command("C:\\a.exe"), "\"C:\\a.exe\"");
    assert_eq!(RUN_KEY, "Software\\Microsoft\\Windows\\CurrentVersion\\Run");
}

#[test]
fn thumbnail_folder_pruned_past_limit() {
    assert!(!thumbs_need_pruning(0));
    assert!(!thumbs_need_pruning(800));
    assert!(thumbs_need_pruning(801));
}

#[test]
fn first_stream_with_a_size() {
    assert_eq!(stream_dimensions(&vec![]), None);
    assert_eq!(stream_dimensions(&vec![(None, None), (Some(1920), None), (Some(640), Some(360)), (Some(1), Some(2))]), Some((640, 360)));
    assert_eq!(stream_dimensions(&vec![(Some(4_294_967_297), Some(7))]), Some((1, 7)));
}

#[test]
fn thumbnail_paths_follow_path_and_time() {
    let a = thumb_path("/tmp/thumbs", "/v/clip.mp4", 100, "jpg");
    assert!(a.starts_with("/tmp/thumbs/"));
    assert!(a.ends_with(".jpg"));
    assert_eq!(a.len(), "/tmp/thumbs/".len() + 16 + 4);
    assert_eq!(a, thumb_path("/tmp/thumbs", "/v/clip.mp4", 100, "jpg"));
    assert_ne!(a, thumb_path("/tmp/thumbs", "/v/clip.mp4", 101, "jpg"));
    assert_ne!(a, thumb_path("/tmp/thumbs", "/v/other.mp4", 100, "jpg"));
}

#[test]
fn probe_report_read_for_cards() {
    let report = br#"{"streams":[{"codec_type":"audio"},{"codec_type":"video","width":1920,"height":1080}],"format":{"duration":"12.500000"}}"#;
    assert_eq!(media_fields(report), (Some("12.500000".to_string()), Some((1920, 1080))));
    let no_streams = br#"{"format":{}}"#;
    assert_eq!(media_fields(no_streams), (None, None));
    let numeric = br#"{"format":{"duration":3.0},"streams":[{"width":-1,"height":5},{"width":7,"height":8}]}"#;
    assert_eq!(media_fields(numeric), (None, Some((7, 8))));
    assert_eq!(media_fields(b"not json"), (None, None));
}
