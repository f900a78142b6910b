//! Application settings, the account name of the stored API key, and the history of
//! conversions.
use vstd::prelude::*;

use crate::output::OutputConfig;
use crate::text::copy_str;

verus! {

/// The application's settings.
#[derive(Debug)]
pub struct Settings {
    /// `openrouter` or `ollama`.
    pub provider: String,
    pub openrouter_model: String,
    pub ollama_url: String,
    pub ollama_model: String,
    /// Output folder; `None` means next to the source.
    pub output_dir: Option<String>,
    /// Name template of results; `{name}` stands for the source's name without extension.
    pub filename_template: String,
    /// `system`, `dark` or `light`.
    pub theme: String,
    /// `ru` or `en`.
    pub language: String,
    /// Global hotkey, such as `ctrl+alt+space`.
    pub hotkey: String,
    /// Whether the palette hides when it loses focus.
    pub hide_on_blur: bool,
}

impl Default for Settings {
    fn default() -> (res: Self)
        ensures
            res.provider@ == "openrouter"@,
            res.openrouter_model@ == "openai/gpt-4o-mini"@,
            res.ollama_url@ == "http://localhost:11434"@,
            res.ollama_model@ == "qwen2.5:7b"@,
            res.output_dir is None,
            res.filename_template@ == "{name}_converted"@,
            res.theme@ == "system"@,
            res.language@ == "ru"@,
            res.hotkey@ == "ctrl+alt+space"@,
            !res.hide_on_blur,
    {
        Settings {
            provider: copy_str("openrouter"),
            openrouter_model: copy_str("openai/gpt-4o-mini"),
            ollama_url: copy_str("http://localhost:11434"),
            ollama_model: copy_str("qwen2.5:7b"),
            output_dir: None,
            filename_template: copy_str("{name}_converted"),
            theme: copy_str("system"),
            language: copy_str("ru"),
            hotkey: copy_str("ctrl+alt+space"),
            hide_on_blur: false,
        }
    }
}

/// The output configuration the settings describe: their folder and name template.
pub fn out_cfg(s: &Settings) -> (res: OutputConfig)
    ensures
        res@.dir == (match s.output_dir {
            Some(d) => Some(d@),
            None => None,
        }),
        res@.template == s.filename_template@,
{
    OutputConfig {
        dir: match &s.output_dir {
            Some(d) => Some(copy_str(d.as_str())),
            None => None,
        },
        template: copy_str(s.filename_template.as_str()),
    }
}

/// The service under which API keys are kept in the credential store.
pub const KEYRING_SERVICE: &'static str = "ConvPalette";

/// The account under which the key of a provider is stored.
pub open spec fn keyring_account(provider: Seq<char>) -> Seq<char> {
    if provider == "openrouter"@ {
        "openrouter"@
    } else {
        "generic"@
    }
}

/// The account under which the key of a provider is stored: `openrouter` for
/// OpenRouter, `generic` for any other provider.
pub fn keyring_user(provider: &str) -> (res: &'static str)
    ensures
        res@ == keyring_account(provider@),
{
    if crate::text::str_eq(provider, "openrouter") {
        "openrouter"
    } else {
        "generic"
    }
}

/// What saving an API key does to the credential store.
#[derive(Debug, Clone, Copy, PartialEq, Eq, Structural)]
pub enum KeyChange {
    /// Remove the stored key.
    Remove,
    /// Store the given key.
    Store,
}

/// What saving an API key does: an empty key removes the stored one, any other key is
/// stored.
pub fn key_change(key: &str) -> (res: KeyChange)
    ensures
        res == (if key@.len() == 0 { KeyChange::Remove } else { KeyChange::Store }),
{
    if key.is_empty() {
        KeyChange::Remove
    } else {
        KeyChange::Store
    }
}

/// Whether a key is configured, given what the credential store holds: a stored,
/// non-empty key.
pub fn has_api_key(stored: &Option<String>) -> (res: bool)
    ensures
        res == (match stored {
            Some(k) => k@.len() > 0,
            None => false,
        }),
{
    match stored {
        Some(k) => !k.as_str().is_empty(),
        None => false,
    }
}

/// How many entries the history keeps.
pub const HISTORY_LIMIT: usize = 30;

/// One conversion in the history.
#[derive(Debug)]
pub struct HistoryEntry {
    /// Unix time in seconds.
    pub ts: u64,
    /// `preset` or `ai`.
    pub kind: String,
    /// The preset's name or the request made to the model.
    pub label: String,
    /// Extension of the results.
    pub target_ext: String,
    /// How many files were converted.
    pub files: usize,
}

/// The history after recording `entry`: it comes first, the older entries follow in
/// their order, and only the newest `HISTORY_LIMIT` are kept.
pub open spec fn history_after(old: Seq<HistoryEntry>, entry: HistoryEntry) -> Seq<HistoryEntry> {
    let all = seq![entry] + old;
    if all.len() > HISTORY_LIMIT {
        all.take(HISTORY_LIMIT as int)
    } else {
        all
    }
}

/// Records a conversion at the front of the history, keeping the newest entries only.
pub fn record_history(items: &mut Vec<HistoryEntry>, entry: HistoryEntry)
    ensures
        final(items)@ == history_after(old(items)@, entry),
{
    let ghost e = entry;
    items.insert(0, entry);
    assert(items@ =~= seq![e] + old(items)@);
    items.truncate(HISTORY_LIMIT);
}

} // verus!
