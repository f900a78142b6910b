//! The registry entries of the Explorer integration: the context-menu verb for media
//! files and folders, and the autostart value. All of them live under the current
//! user's hive; writing them is left to the caller. Where there is no registry, the
//! operations answer as this module's `register_context_menu` and its siblings say.
use vstd::prelude::*;

use crate::text::{copy_str, strings_of, views};

verus! {

/// The name of the verb under `shell`.
pub const VERB: &'static str = "ConvPalette";

/// The title of the context-menu item.
pub const MENU_TITLE: &'static str = "Конвертировать (ConvPalette)";

/// The key that lists programs started at logon.
pub const RUN_KEY: &'static str = "Software\\Microsoft\\Windows\\CurrentVersion\\Run";

/// The value under `RUN_KEY` that starts the application.
pub const RUN_VALUE: &'static str = "ConvPalette";

/// The extensions of the media files that get the menu item.
pub open spec fn media_extensions() -> Seq<Seq<char>> {
    seq![
        ".mp4"@, ".mov"@, ".mkv"@, ".avi"@, ".webm"@, ".flv"@, ".m4v"@, ".wmv"@, ".mpg"@, ".mpeg"@, ".ts"@,
        ".3gp"@, ".mp3"@, ".wav"@, ".flac"@, ".m4a"@, ".aac"@, ".ogg"@, ".opus"@, ".wma"@, ".aiff"@, ".png"@,
        ".jpg"@, ".jpeg"@, ".webp"@, ".bmp"@, ".gif"@, ".tiff"@, ".tif"@, ".heic"@, ".heif"@,
    ]
}

/// The extensions of the media files that get the menu item.
pub fn extensions() -> (res: Vec<String>)
    ensures
        views(res@) == media_extensions(),
{
    let v = strings_of(
        &[
            ".mp4", ".mov", ".mkv", ".avi", ".webm", ".flv", ".m4v", ".wmv", ".mpg", ".mpeg", ".ts",
            ".3gp", ".mp3", ".wav", ".flac", ".m4a", ".aac", ".ogg", ".opus", ".wma", ".aiff", ".png",
            ".jpg", ".jpeg", ".webp", ".bmp", ".gif", ".tiff", ".tif", ".heic", ".heif",
        ],
    );
    assert(views(v@) =~= media_extensions());
    v
}

/// The key of the file associations of an extension.
pub open spec fn association_key(ext: Seq<char>) -> Seq<char> {
    "Software\\Classes\\SystemFileAssociations\\"@ + ext
}

/// The keys under which the verb is created, each with the placeholder the command
/// passes: every media extension with `%1`, folders with `%1`, and the background of
/// folders with `%V`.
pub open spec fn base_keys_spec() -> Seq<(Seq<char>, Seq<char>)> {
    media_extensions().map_values(|e: Seq<char>| (association_key(e), "%1"@)) + seq![
        ("Software\\Classes\\Directory"@, "%1"@),
        ("Software\\Classes\\Directory\\Background"@, "%V"@),
    ]
}

/// The views of a list of string pairs.
pub open spec fn key_views(v: Seq<(String, String)>) -> Seq<(Seq<char>, Seq<char>)> {
    v.map_values(|p: (String, String)| (p.0@, p.1@))
}

/// The keys under which the verb is created, with the placeholder of each.
pub fn base_keys() -> (res: Vec<(String, String)>)
    ensures
        key_views(res@) == base_keys_spec(),
{
    let exts = extensions();
    let ghost es = views(exts@);
    let mut keys: Vec<(String, String)> = Vec::new();
    let mut i: usize = 0;
    while i < exts.len()
        invariant
            i <= exts.len(),
            es == views(exts@),
            es == media_extensions(),
            key_views(keys@) == es.take(i as int).map_values(
                |e: Seq<char>| (association_key(e), "%1"@),
            ),
        decreases exts.len() - i,
    {
        let mut k = copy_str("Software\\Classes\\SystemFileAssociations\\");
        k.append(exts[i].as_str());
        let ghost prev = key_views(keys@);
        keys.push((k, copy_str("%1")));
        assert(key_views(keys@) =~= prev.push((association_key(es[i as int]), "%1"@)));
        assert(es.take(i + 1).map_values(|e: Seq<char>| (association_key(e), "%1"@)) =~= es.take(
            i as int,
        ).map_values(|e: Seq<char>| (association_key(e), "%1"@)).push(
            (association_key(es[i as int]), "%1"@),
        ));
        i += 1;
    }
    assert(es.take(i as int) =~= es);
    let ghost mid = key_views(keys@);
    keys.push((copy_str("Software\\Classes\\Directory"), copy_str("%1")));
    keys.push((copy_str("Software\\Classes\\Directory\\Background"), copy_str("%V")));
    assert(key_views(keys@) =~= mid + seq![
        ("Software\\Classes\\Directory"@, "%1"@),
        ("Software\\Classes\\Directory\\Background"@, "%V"@),
    ]);
    keys
}

/// The key of the verb under a base key.
pub open spec fn verb_key_of(base: Seq<char>) -> Seq<char> {
    base + "\\shell\\"@ + VERB@
}

/// The key of the verb under a base key: `<base>\shell\ConvPalette`.
pub fn verb_key(base: &str) -> (res: String)
    ensures
        res@ == verb_key_of(base@),
{
    let mut k = copy_str(base);
    k.append("\\shell\\");
    k.append(VERB);
    k
}

/// The key of the verb's command under a base key: `<base>\shell\ConvPalette\command`.
pub fn command_key(base: &str) -> (res: String)
    ensures
        res@ == verb_key_of(base@) + "\\command"@,
{
    let mut k = verb_key(base);
    k.append("\\command");
    k
}

/// The command the verb runs: the quoted executable and the quoted placeholder.
pub fn verb_command(exe: &str, arg_token: &str) -> (res: String)
    ensures
        res@ == "\""@ + exe@ + "\" \""@ + arg_token@ + "\""@,
{
    let mut c = copy_str("\"");
    c.append(exe);
    c.append("\" \"");
    c.append(arg_token);
    c.append("\"");
    c
}

/// The autostart value: the quoted executable.
pub fn autostart_command(exe: &str) -> (res: String)
    ensures
        res@ == "\""@ + exe@ + "\""@,
{
    let mut c = copy_str("\"");
    c.append(exe);
    c.append("\"");
    c
}

/// The answer to a request to register the menu where there is no registry to write
/// it to (every system but Windows): the menu is not supported.
pub fn register_context_menu() -> (res: Result<(), String>)
    ensures
        res matches Err(e) && e@ == "Контекстное меню поддерживается только в Windows"@,
{
    Err(copy_str("Контекстное меню поддерживается только в Windows"))
}

/// Removing the menu where there is no registry: there is nothing to remove, which is
/// no error.
pub fn unregister_context_menu() -> (res: Result<(), String>)
    ensures
        res is Ok,
{
    Ok(())
}

/// Where there is no registry, the menu is never registered.
pub fn context_menu_registered() -> (res: bool)
    ensures
        !res,
{
    false
}

/// The answer to a request to switch autostart on or off where there is no registry:
/// autostart is not supported, whichever was asked.
pub fn set_autostart(enabled: bool) -> (res: Result<(), String>)
    ensures
        res matches Err(e) && e@ == "Автозапуск поддерживается только в Windows"@,
{
    Err(copy_str("Автозапуск поддерживается только в Windows"))
}

/// Where there is no registry, autostart is never on.
pub fn autostart_enabled() -> (res: bool)
    ensures
        !res,
{
    false
}

/// The key whose presence tells that the menu is registered: the folder verb's command.
pub fn registration_probe_key() -> (res: String)
    ensures
        res@ == verb_key_of("Software\\Classes\\Directory"@) + "\\command"@,
{
    command_key("Software\\Classes\\Directory")
}

} // verus!
