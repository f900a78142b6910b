use convpalette::ai::{reply_content, ProviderReply};
use convpalette::ai::{
    build_fix_message, build_user_message, complete, generate, generate_fix, parse_suggestion,
    require_query, strip_fences, summarize_probe_output, system_prompt, Provider, RawSuggestion,
};
use convpalette::settings::Settings;

fn strings(v: &[&str]) -> Vec<String> {
    v.iter().map(|s| s.to_string()).collect()
}

#[test]
fn fences_removed() {
    assert_eq!(strip_fences("```json\n{\"a\":1}\n```"), "{\"a\":1}");
    assert_eq!(strip_fences("  ```\n{}\n```  "), "{}");
    assert_eq!(strip_fences("\u{3000}{\"x\":2}\n"), "{\"x\":2}");
    assert_eq!(strip_fences("plain"), "plain");
    assert_eq!(strip_fences("```"), "");
}

#[test]
fn suggestion_from_reply() {
    let raw = RawSuggestion {
        target_ext: "mp4".to_string(),
        options: strings(&["-c:v", "libx264"]),
        explanation: "ok".to_string(),
    };
    let s = parse_suggestion(Ok(raw)).unwrap();
    assert_eq!(s.target_ext, "mp4");
    assert_eq!(s.options, strings(&["-c:v", "libx264"]));
    assert_eq!(s.explanation, "ok");
}

#[test]
fn suggestion_errors() {
    let e = parse_suggestion(Err("expected value at line 1".to_string())).unwrap_err();
    assert_eq!(e, "Не удалось разобрать ответ ИИ как JSON: expected value at line 1");
    let raw = RawSuggestion {
        target_ext: "mp4".to_string(),
        options: strings(&["-i", "other.mp4"]),
        explanation: String::new(),
    };
    assert_eq!(parse_suggestion(Ok(raw)).unwrap_err(), "Опция '-i' запрещена");
}

#[test]
fn user_message_lists_files() {
    let files = vec![
        ("a.mp4".to_string(), "codec=h264".to_string()),
        ("b.wav".to_string(), String::new()),
    ];
    assert_eq!(
        build_user_message("сжать", &files),
        "Запрос: сжать\n\nФайлы:\n- a.mp4 (codec=h264)\n- b.wav"
    );
    assert_eq!(build_user_message("q", &[]), "Запрос: q\n\nФайлы:");
}

#[test]
fn fix_message_reports_failure() {
    let files = vec![("a.mp4".to_string(), String::new())];
    let m = build_fix_message("q", &files, &strings(&["-c:v", "x\"y"]), "mkv", "boom");
    assert_eq!(
        m,
        "Запрос: q\n\nФайлы:\n- a.mp4\n\nТвой предыдущий вариант options [\"-c:v\", \"x\\\"y\"] (target_ext \"mkv\") завершился ошибкой ffmpeg:\nboom\n\nИсправь options так, чтобы конвертация прошла успешно (при необходимости поменяй кодек/фильтры/target_ext). Верни тот же JSON-формат и кратко объясни, что изменил."
    );
}

#[test]
fn ollama_request() {
    let mut s = Settings::default();
    s.provider = "ollama".to_string();
    s.ollama_url = "http://host:11434//".to_string();
    let r = complete(&s, None, "hi").unwrap();
    assert_eq!(r.provider, Provider::Ollama);
    assert_eq!(r.url, "http://host:11434/api/chat");
    assert_eq!(r.model, "qwen2.5:7b");
    assert!(r.authorization.is_none());
    assert_eq!(r.user, "hi");
    assert_eq!(r.system, system_prompt());
}

#[test]
fn openrouter_request_needs_key() {
    let s = Settings::default();
    assert_eq!(
        complete(&s, None, "hi").unwrap_err(),
        "Не задан API-ключ OpenRouter. Добавьте его в настройках."
    );
    let r = complete(&s, Some("sk-1".to_string()), "hi").unwrap();
    assert_eq!(r.provider, Provider::OpenRouter);
    assert_eq!(r.url, "https://openrouter.ai/api/v1/chat/completions");
    assert_eq!(r.authorization.as_deref(), Some("Bearer sk-1"));
    assert_eq!(r.model, "openai/gpt-4o-mini");
}

#[test]
fn generate_builds_messages() {
    let mut s = Settings::default();
    s.provider = "ollama".to_string();
    let files = vec![("a.mp4".to_string(), String::new())];
    let r = generate(&s, None, "q", &files).unwrap();
    assert_eq!(r.user, "Запрос: q\n\nФайлы:\n- a.mp4");
    let f = generate_fix(&s, None, "q", &files, &strings(&["-an"]), "mp4", "err").unwrap();
    assert!(f.user.starts_with("Запрос: q\n\nФайлы:\n- a.mp4\n\nТвой предыдущий вариант options [\"-an\"]"));
    let o = generate_fix(&Settings::default(), None, "q", &files, &[], "mp4", "err");
    assert!(o.is_err());
}

#[test]
fn blank_query_refused() {
    assert_eq!(require_query("  \n").unwrap_err(), "Введите запрос для ИИ");
    assert!(require_query(" сжать ").is_ok());
}

#[test]
fn probe_report_on_one_line() {
    assert_eq!(summarize_probe_output("codec=h264\nwidth=1920\n"), "codec=h264; width=1920;");
    assert_eq!(summarize_probe_output(""), "");
}

#[test]
fn prompt_mentions_format() {
    assert!(system_prompt().starts_with("Ты — генератор параметров ffmpeg."));
    assert!(system_prompt().ends_with("target_ext — расширение результата без точки."));
}

#[test]
fn provider_replies() {
    assert_eq!(
        reply_content(Provider::Ollama, ProviderReply::Decoded(Some("{}".to_string()))),
        Ok("{}".to_string())
    );
    assert_eq!(
        reply_content(Provider::OpenRouter, ProviderReply::Decoded(None)),
        Err("Пустой ответ OpenRouter".to_string())
    );
    assert_eq!(
        reply_content(Provider::Ollama, ProviderReply::Decoded(None)),
        Err("Пустой ответ Ollama".to_string())
    );
    assert_eq!(
        reply_content(Provider::OpenRouter, ProviderReply::Status(401, "no key".to_string())),
        Err("Провайдер вернул ошибку 401: no key".to_string())
    );
    assert_eq!(
        reply_content(Provider::Ollama, ProviderReply::BadJson("eof".to_string())),
        Err("Некорректный JSON от провайдера: eof".to_string())
    );
    assert_eq!(
        reply_content(Provider::Ollama, ProviderReply::Failed("refused".to_string())),
        Err("Ошибка запроса к провайдеру: refused".to_string())
    );
}
