//! File classification by extension and the catalogue of conversion presets.
use vstd::prelude::*;

use crate::paths::{extension_of, path_extension};
use crate::text::{all_ascii, ascii_lowercase, copy_str, lowercase, str_eq, to_lowercase, views};

verus! {

/// The category of a file, decided by its extension.
#[derive(Debug, Clone, Copy, PartialEq, Eq, Structural)]
pub enum Category {
    Video,
    Audio,
    Image,
    Other,
}

/// The name of a category as the front end knows it.
pub open spec fn category_name(c: Category) -> Seq<char> {
    match c {
        Category::Video => "video"@,
        Category::Audio => "audio"@,
        Category::Image => "image"@,
        Category::Other => "other"@,
    }
}

impl Category {
    /// The name of the category: `video`, `audio`, `image` or `other`.
    pub fn as_str(&self) -> (res: &'static str)
        ensures
            res@ == category_name(*self),
    {
        match self {
            Category::Video => "video",
            Category::Audio => "audio",
            Category::Image => "image",
            Category::Other => "other",
        }
    }
}

/// Lower-case extensions of video files.
pub open spec fn is_video_ext(e: Seq<char>) -> bool {
    ||| e == "mp4"@
    ||| e == "mov"@
    ||| e == "mkv"@
    ||| e == "avi"@
    ||| e == "webm"@
    ||| e == "flv"@
    ||| e == "m4v"@
    ||| e == "wmv"@
    ||| e == "mpg"@
    ||| e == "mpeg"@
    ||| e == "ts"@
    ||| e == "3gp"@
}

/// Lower-case extensions of audio files.
pub open spec fn is_audio_ext(e: Seq<char>) -> bool {
    ||| e == "mp3"@
    ||| e == "wav"@
    ||| e == "flac"@
    ||| e == "m4a"@
    ||| e == "aac"@
    ||| e == "ogg"@
    ||| e == "opus"@
    ||| e == "wma"@
    ||| e == "aiff"@
}

/// Lower-case extensions of image files.
pub open spec fn is_image_ext(e: Seq<char>) -> bool {
    ||| e == "png"@
    ||| e == "jpg"@
    ||| e == "jpeg"@
    ||| e == "webp"@
    ||| e == "bmp"@
    ||| e == "gif"@
    ||| e == "tiff"@
    ||| e == "tif"@
    ||| e == "heic"@
    ||| e == "heif"@
}

/// The category of a lower-case extension.
pub open spec fn category_of_lower(e: Seq<char>) -> Category {
    if is_video_ext(e) {
        Category::Video
    } else if is_audio_ext(e) {
        Category::Audio
    } else if is_image_ext(e) {
        Category::Image
    } else {
        Category::Other
    }
}

/// The category of an extension, in any case.
pub open spec fn category_of_ext(ext: Seq<char>) -> Category {
    category_of_lower(lowercase(ext))
}

/// The category of a path: that of its extension, or of the empty extension.
pub open spec fn category_of_path(path: Seq<char>) -> Category {
    match extension_of(path) {
        Some(e) => category_of_ext(e),
        None => category_of_ext(Seq::empty()),
    }
}

fn is_video_lower(e: &str) -> (res: bool)
    ensures
        res == is_video_ext(e@),
{
    str_eq(e, "mp4") || str_eq(e, "mov") || str_eq(e, "mkv") || str_eq(e, "avi") || str_eq(
        e,
        "webm",
    ) || str_eq(e, "flv") || str_eq(e, "m4v") || str_eq(e, "wmv") || str_eq(e, "mpg") || str_eq(
        e,
        "mpeg",
    ) || str_eq(e, "ts") || str_eq(e, "3gp")
}

fn is_audio_lower(e: &str) -> (res: bool)
    ensures
        res == is_audio_ext(e@),
{
    str_eq(e, "mp3") || str_eq(e, "wav") || str_eq(e, "flac") || str_eq(e, "m4a") || str_eq(
        e,
        "aac",
    ) || str_eq(e, "ogg") || str_eq(e, "opus") || str_eq(e, "wma") || str_eq(e, "aiff")
}

fn is_image_lower(e: &str) -> (res: bool)
    ensures
        res == is_image_ext(e@),
{
    str_eq(e, "png") || str_eq(e, "jpg") || str_eq(e, "jpeg") || str_eq(e, "webp") || str_eq(
        e,
        "bmp",
    ) || str_eq(e, "gif") || str_eq(e, "tiff") || str_eq(e, "tif") || str_eq(e, "heic")
        || str_eq(e, "heif")
}

/// The category of a file extension, compared without regard to case.
pub fn category_for_ext(ext: &str) -> (res: Category)
    ensures
        res == category_of_ext(ext@),
        all_ascii(ext@) ==> res == category_of_lower(ascii_lowercase(ext@)),
{
    let lower = to_lowercase(ext);
    let e = lower.as_str();
    if is_video_lower(e) {
        Category::Video
    } else if is_audio_lower(e) {
        Category::Audio
    } else if is_image_lower(e) {
        Category::Image
    } else {
        Category::Other
    }
}

/// The category of a path, by the extension of its file name.
pub fn category_for_path(path: &str) -> (res: Category)
    ensures
        res == category_of_path(path@),
{
    match path_extension(path) {
        Some(e) => category_for_ext(e.as_str()),
        None => {
            proof {
                reveal_strlit("");
            }
            assert(""@ =~= Seq::<char>::empty());
            category_for_ext("")
        },
    }
}

/// A conversion preset as the front end shows it.
#[derive(Debug)]
pub struct Preset {
    pub id: String,
    pub label: String,
    pub description: String,
    /// Extension of the result, without the dot.
    pub target_ext: String,
    /// Name of the category the preset applies to.
    pub category: String,
}

/// The contents of a preset.
pub struct PresetSpec {
    pub id: Seq<char>,
    pub label: Seq<char>,
    pub description: Seq<char>,
    pub target_ext: Seq<char>,
    pub category: Seq<char>,
}

impl View for Preset {
    type V = PresetSpec;

    open spec fn view(&self) -> PresetSpec {
        PresetSpec {
            id: self.id@,
            label: self.label@,
            description: self.description@,
            target_ext: self.target_ext@,
            category: self.category@,
        }
    }
}

/// The contents of a vector of presets.
pub open spec fn preset_views(v: Seq<Preset>) -> Seq<PresetSpec> {
    v.map_values(|p: Preset| p@)
}

/// A preset of the category `cat`.
pub open spec fn preset_spec(
    id: Seq<char>,
    label: Seq<char>,
    description: Seq<char>,
    target_ext: Seq<char>,
    cat: Category,
) -> PresetSpec {
    PresetSpec { id, label, description, target_ext, category: category_name(cat) }
}

/// The presets offered for each category, in the order they are shown.
pub open spec fn presets_of(cat: Category) -> Seq<PresetSpec> {
    match cat {
        Category::Video => seq![
            preset_spec("video_mp4"@, "В MP4 (H.264)"@, "Универсальный формат, H.264 + AAC"@, "mp4"@, cat),
            preset_spec("video_compress"@, "Сжать (720p)"@, "Уменьшить размер, 720p, CRF 28"@, "mp4"@, cat),
            preset_spec("video_extract_audio"@, "Извлечь аудио (MP3)"@, "Сохранить только звук"@, "mp3"@, cat),
            preset_spec("video_gif"@, "В GIF"@, "Анимированный GIF из видео"@, "gif"@, cat),
            preset_spec("video_webm"@, "В WebM (VP9)"@, "Открытый формат для веба"@, "webm"@, cat),
            preset_spec("video_mute"@, "Убрать звук"@, "Тот же формат без аудиодорожки"@, "mp4"@, cat),
        ],
        Category::Audio => seq![
            preset_spec("audio_mp3"@, "В MP3"@, "Сжатый звук, 192 kbps"@, "mp3"@, cat),
            preset_spec("audio_wav"@, "В WAV"@, "Без потерь, PCM"@, "wav"@, cat),
            preset_spec("audio_flac"@, "В FLAC"@, "Сжатие без потерь"@, "flac"@, cat),
            preset_spec("audio_m4a"@, "В M4A (AAC)"@, "Компактный AAC"@, "m4a"@, cat),
            preset_spec("audio_normalize"@, "Нормализовать громкость"@, "Выровнять громкость (loudnorm)"@, "mp3"@, cat),
        ],
        Category::Image => seq![
            preset_spec("image_jpg"@, "В JPG"@, "Сжатие с потерями, качество 90"@, "jpg"@, cat),
            preset_spec("image_png"@, "В PNG"@, "Без потерь"@, "png"@, cat),
            preset_spec("image_webp"@, "В WebP"@, "Компактный формат для веба"@, "webp"@, cat),
            preset_spec("image_resize"@, "Уменьшить (1080p)"@, "Вписать в 1920×1080"@, "jpg"@, cat),
        ],
        Category::Other => seq![],
    }
}

/// Builds one preset.
fn p(id: &str, label: &str, description: &str, target_ext: &str, category: Category) -> (res:
    Preset)
    ensures
        res@ == preset_spec(id@, label@, description@, target_ext@, category),
{
    Preset {
        id: copy_str(id),
        label: copy_str(label),
        description: copy_str(description),
        target_ext: copy_str(target_ext),
        category: copy_str(category.as_str()),
    }
}

/// The presets offered for a category, in the order they are shown.
pub fn presets_for_category(cat: Category) -> (res: Vec<Preset>)
    ensures
        preset_views(res@) == presets_of(cat),
{
    let mut v: Vec<Preset> = Vec::new();
    match cat {
        Category::Video => {
            v.push(p("video_mp4", "В MP4 (H.264)", "Универсальный формат, H.264 + AAC", "mp4", cat));
            v.push(p("video_compress", "Сжать (720p)", "Уменьшить размер, 720p, CRF 28", "mp4", cat));
            v.push(p("video_extract_audio", "Извлечь аудио (MP3)", "Сохранить только звук", "mp3", cat));
            v.push(p("video_gif", "В GIF", "Анимированный GIF из видео", "gif", cat));
            v.push(p("video_webm", "В WebM (VP9)", "Открытый формат для веба", "webm", cat));
            v.push(p("video_mute", "Убрать звук", "Тот же формат без аудиодорожки", "mp4", cat));
        },
        Category::Audio => {
            v.push(p("audio_mp3", "В MP3", "Сжатый звук, 192 kbps", "mp3", cat));
            v.push(p("audio_wav", "В WAV", "Без потерь, PCM", "wav", cat));
            v.push(p("audio_flac", "В FLAC", "Сжатие без потерь", "flac", cat));
            v.push(p("audio_m4a", "В M4A (AAC)", "Компактный AAC", "m4a", cat));
            v.push(p("audio_normalize", "Нормализовать громкость", "Выровнять громкость (loudnorm)", "mp3", cat));
        },
        Category::Image => {
            v.push(p("image_jpg", "В JPG", "Сжатие с потерями, качество 90", "jpg", cat));
            v.push(p("image_png", "В PNG", "Без потерь", "png", cat));
            v.push(p("image_webp", "В WebP", "Компактный формат для веба", "webp", cat));
            v.push(p("image_resize", "Уменьшить (1080p)", "Вписать в 1920×1080", "jpg", cat));
        },
        Category::Other => {},
    }
    assert(preset_views(v@) =~= presets_of(cat));
    v
}

/// The first preset of `list` with the id `id`.
pub open spec fn find_by_id(list: Seq<PresetSpec>, id: Seq<char>) -> Option<PresetSpec>
    decreases list.len(),
{
    if list.len() == 0 {
        None
    } else if list[0].id == id {
        Some(list[0])
    } else {
        find_by_id(list.drop_first(), id)
    }
}

/// The preset with the id `id`: searched among the video, then the audio, then the
/// image presets.
pub open spec fn lookup_preset(id: Seq<char>) -> Option<PresetSpec> {
    match find_by_id(presets_of(Category::Video), id) {
        Some(p) => Some(p),
        None => match find_by_id(presets_of(Category::Audio), id) {
            Some(p) => Some(p),
            None => find_by_id(presets_of(Category::Image), id),
        },
    }
}

/// The view of an optional preset.
pub open spec fn opt_preset_view(o: Option<Preset>) -> Option<PresetSpec> {
    match o {
        Some(p) => Some(p@),
        None => None,
    }
}

/// The first preset of `list` with the id `id`, taken out of the list.
fn take_by_id(items: Vec<Preset>, id: &str) -> (res: Option<Preset>)
    ensures
        opt_preset_view(res) == find_by_id(preset_views(items@), id@),
{
    let mut list = items;
    let ghost all = preset_views(list@);
    assert(all == preset_views(items@));
    let mut i: usize = 0;
    assert(all.skip(0) =~= all);
    while i < list.len()
        invariant
            i <= list.len(),
            all == preset_views(list@),
            all == preset_views(items@),
            find_by_id(all, id@) == find_by_id(all.skip(i as int), id@),
        decreases list.len() - i,
    {
        assert(all.skip(i as int)[0] == list@[i as int]@);
        if str_eq(list[i].id.as_str(), id) {
            assert(all.skip(i as int).len() > 0);
            assert(find_by_id(all.skip(i as int), id@) == Some(list@[i as int]@));
            let ghost before = list@;
            let found = list.remove(i);
            assert(found == before[i as int]);
            assert(opt_preset_view(Some(found)) == Some(before[i as int]@));
            return Some(found);
        }
        assert(all.skip(i as int).drop_first() =~= all.skip(i + 1));
        i += 1;
    }
    assert(all.skip(i as int) =~= Seq::<PresetSpec>::empty());
    None
}

/// The preset with the given id, if any.
pub fn preset_by_id(id: &str) -> (res: Option<Preset>)
    ensures
        opt_preset_view(res) == lookup_preset(id@),
{
    let found = take_by_id(presets_for_category(Category::Video), id);
    if found.is_some() {
        return found;
    }
    let found = take_by_id(presets_for_category(Category::Audio), id);
    if found.is_some() {
        return found;
    }
    take_by_id(presets_for_category(Category::Image), id)
}

/// The presets to recommend for a selection of paths: those of their common category
/// when all paths share one, none for an empty or mixed selection.
pub open spec fn recommendations(paths: Seq<Seq<char>>) -> Seq<PresetSpec> {
    if paths.len() == 0 {
        seq![]
    } else if forall|i: int|
        0 <= i < paths.len() ==> #[trigger] category_of_path(paths[i]) == category_of_path(
            paths[0],
        ) {
        presets_of(category_of_path(paths[0]))
    } else {
        seq![]
    }
}

/// The presets to recommend for a selection of paths.
pub fn recommendations_for_paths(paths: &[String]) -> (res: Vec<Preset>)
    ensures
        preset_views(res@) == recommendations(views(paths@)),
{
    let ghost ps = views(paths@);
    if paths.len() == 0 {
        let v: Vec<Preset> = Vec::new();
        assert(preset_views(v@) =~= Seq::<PresetSpec>::empty());
        return v;
    }
    let first = category_for_path(paths[0].as_str());
    let mut i: usize = 1;
    while i < paths.len()
        invariant
            1 <= i <= paths.len(),
            ps == views(paths@),
            first == category_of_path(ps[0]),
            forall|j: int| 0 <= j < i ==> #[trigger] category_of_path(ps[j]) == first,
        decreases paths.len() - i,
    {
        let c = category_for_path(paths[i].as_str());
        assert(ps[i as int] == paths@[i as int]@);
        if c != first {
            let v: Vec<Preset> = Vec::new();
            assert(category_of_path(ps[i as int]) != category_of_path(ps[0]));
            assert(preset_views(v@) =~= recommendations(ps));
            return v;
        }
        i += 1;
    }
    presets_for_category(first)
}

} // verus!
