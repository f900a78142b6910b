use convpalette::settings::{key_change, KeyChange};
use convpalette::cache::MetaCache;
use convpalette::context::{should_reset, update_context, ContextPaths};
use convpalette::settings::{has_api_key, keyring_user, out_cfg, record_history, HistoryEntry, Settings, HISTORY_LIMIT};

fn strings(v: &[&str]) -> Vec<String> {
    v.iter().map(|s| s.to_string()).collect()
}

#[test]
fn selection_aggregates_and_dedups() {
    let mut ctx = ContextPaths::new();
    assert!(update_context(&mut ctx, &strings(&["a", "b"]), None));
    assert!(update_context(&mut ctx, &strings(&["b", "c", "a", "d"]), Some(300)));
    assert_eq!(ctx.paths(), &strings(&["a", "b", "c", "d"]));
}

#[test]
fn selection_restarts_after_pause() {
    let mut ctx = ContextPaths::new();
    update_context(&mut ctx, &strings(&["a", "b"]), None);
    assert!(update_context(&mut ctx, &strings(&["c", "c"]), Some(1501)));
    assert_eq!(ctx.paths(), &strings(&["c"]));
    assert!(!update_context(&mut ctx, &Vec::new(), Some(99_999)));
    assert_eq!(ctx.paths(), &strings(&["c"]));
}

#[test]
fn reset_window() {
    assert!(should_reset(None));
    assert!(!should_reset(Some(1500)));
    assert!(should_reset(Some(1501)));
}

#[test]
fn cache_hits_only_for_same_mtime() {
    let mut c: MetaCache<String> = MetaCache::new(2);
    c.insert("/a", 10, "meta-a".to_string());
    assert_eq!(c.lookup("/a", 10), Some(&"meta-a".to_string()));
    assert_eq!(c.lookup("/a", 11), None);
    assert_eq!(c.lookup("/b", 10), None);
    c.insert("/a", 11, "meta-a2".to_string());
    assert_eq!(c.lookup("/a", 11), Some(&"meta-a2".to_string()));
    assert_eq!(c.len(), 1);
}

#[test]
fn cache_emptied_past_limit() {
    let mut c: MetaCache<u32> = MetaCache::new(2);
    c.insert("/1", 0, 1);
    c.insert("/2", 0, 2);
    c.insert("/3", 0, 3);
    assert_eq!(c.len(), 3);
    c.insert("/4", 0, 4);
    assert_eq!(c.len(), 1);
    assert_eq!(c.lookup("/1", 0), None);
    assert_eq!(c.lookup("/4", 0), Some(&4));
}

#[test]
fn default_settings() {
    let s = Settings::default();
    assert_eq!(s.provider, "openrouter");
    assert_eq!(s.openrouter_model, "openai/gpt-4o-mini");
    assert_eq!(s.ollama_url, "http://localhost:11434");
    assert_eq!(s.ollama_model, "qwen2.5:7b");
    assert!(s.output_dir.is_none());
    assert_eq!(s.filename_template, "{name}_converted");
    assert_eq!(s.theme, "system");
    assert_eq!(s.language, "ru");
    assert_eq!(s.hotkey, "ctrl+alt+space");
    assert!(!s.hide_on_blur);
    let c = out_cfg(&s);
    assert!(c.dir.is_none());
    assert_eq!(c.template, "{name}_converted");
}

#[test]
fn keyring_accounts() {
    assert_eq!(keyring_user("openrouter"), "openrouter");
    assert_eq!(keyring_user("ollama"), "generic");
    assert!(has_api_key(&Some("k".to_string())));
    assert!(!has_api_key(&Some(String::new())));
    assert!(!has_api_key(&None));
}

fn entry(ts: u64) -> HistoryEntry {
    HistoryEntry { ts, kind: "preset".to_string(), label: "В MP3".to_string(), target_ext: "mp3".to_string(), files: 1 }
}

#[test]
fn history_newest_first_and_bounded() {
    let mut h: Vec<HistoryEntry> = Vec::new();
    for ts in 0..40 {
        record_history(&mut h, entry(ts));
    }
    assert_eq!(h.len(), HISTORY_LIMIT);
    assert_eq!(h[0].ts, 39);
    assert_eq!(h[29].ts, 10);
    record_history(&mut h, entry(100));
    assert_eq!(h[0].ts, 100);
    assert_eq!(h[1].ts, 39);
    assert_eq!(h.len(), 30);
}

#[test]
fn empty_key_removes_stored_one() {
    assert_eq!(key_change(""), KeyChange::Remove);
    assert_eq!(key_change("sk-1"), KeyChange::Store);
}
