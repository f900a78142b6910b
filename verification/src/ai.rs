//! Proposals of ffmpeg options by a language model: the messages sent, the request
//! to the chosen provider, and the checks on what comes back. Paths and the binary are
//! set by the application; the model never controls them.
use vstd::prelude::*;

use crate::args::{validation_error, validate_ai_options};
use crate::settings::Settings;
use crate::text::{
    chars_of, copy_str, debug_format_list, decimal, u64_to_decimal, debug_list, ends_with, is_blank, replace_char,
    starts_with, str_ends_with, str_eq, str_replace_char, str_starts_with, str_trim,
    str_trim_end_char, string_from_range, trim, trim_end_char, views,
};

verus! {

/// A proposal of the model: the extension of the results, the options placed between
/// the input and the output, and a short explanation.
#[derive(Debug)]
pub struct AiSuggestion {
    pub target_ext: String,
    pub options: Vec<String>,
    pub explanation: String,
}

/// A proposal as the model's JSON reply holds it, before any check.
#[derive(Debug)]
pub struct RawSuggestion {
    pub target_ext: String,
    pub options: Vec<String>,
    pub explanation: String,
}

/// The instructions sent to the model with every request.
pub const SYSTEM_PROMPT: &'static str = "Ты — генератор параметров ffmpeg. По запросу пользователя об обработке медиафайлов \
верни СТРОГО один JSON-объект без пояснений вне JSON, в формате: \
{\"target_ext\":\"mp4\",\"options\":[\"-c:v\",\"libx264\"],\"explanation\":\"кратко по-русски\"}. \
Поле options — это аргументы ffmpeg МЕЖДУ '-i <вход>' и выходным файлом. \
Запрещено включать: сам 'ffmpeg', '-i', '-y', любые пути к файлам, выходной файл, \
фильтры movie=/amovie=, протоколы http/https/file/pipe/concat, устройства. \
Одна операция применяется ко всем выбранным файлам одинаково. \
target_ext — расширение результата без точки.";

/// The instructions sent to the model with every request.
pub fn system_prompt() -> (res: &'static str)
    ensures
        res@ == SYSTEM_PROMPT@,
{
    SYSTEM_PROMPT
}

/// `s` without the prefix `p` where it starts with it.
pub open spec fn opening_removed(t: Seq<char>) -> Seq<char> {
    if starts_with(t, "```json"@) {
        t.skip(7)
    } else if starts_with(t, "```"@) {
        t.skip(3)
    } else {
        t
    }
}

/// `t` without a closing fence.
pub open spec fn closing_removed(t: Seq<char>) -> Seq<char> {
    if ends_with(t, "```"@) {
        t.take(t.len() - 3)
    } else {
        t
    }
}

/// A reply without surrounding whitespace and without a Markdown code fence around it.
pub open spec fn without_fences(s: Seq<char>) -> Seq<char> {
    trim(closing_removed(opening_removed(trim(s))))
}

/// Removes surrounding whitespace and a Markdown code fence (```` ```json ```` or
/// ```` ``` ````) around a reply.
pub fn strip_fences(s: &str) -> (res: String)
    ensures
        res@ == without_fences(s@),
{
    proof {
        reveal_strlit("```json");
        reveal_strlit("```");
    }
    let t = str_trim(s);
    let cs = chars_of(t.as_str());
    let start: usize = if str_starts_with(t.as_str(), "```json") {
        7
    } else if str_starts_with(t.as_str(), "```") {
        3
    } else {
        0
    };
    assert(cs@.skip(start as int) == opening_removed(t@)) by {
        assert(cs@.skip(0) =~= cs@);
    }
    let opened = string_from_range(&cs, start, cs.len());
    assert(opened@ =~= opening_removed(t@));
    let ds = chars_of(opened.as_str());
    let end: usize = if str_ends_with(opened.as_str(), "```") {
        ds.len() - 3
    } else {
        ds.len()
    };
    let closed = string_from_range(&ds, 0, end);
    assert(closed@ =~= closing_removed(opened@));
    str_trim(closed.as_str())
}

/// The message that reports a reply that is not a proposal.
pub open spec fn parse_error_message(e: Seq<char>) -> Seq<char> {
    "Не удалось разобрать ответ ИИ как JSON: "@ + e
}

/// Turns the decoded reply into a proposal. `parsed` is the outcome of decoding the
/// cleaned reply as JSON: the fields, or the decoder's message. A reply that does not
/// decode, or whose options are refused, gives an error.
pub fn parse_suggestion(parsed: Result<RawSuggestion, String>) -> (res: Result<AiSuggestion, String>)
    ensures
        match parsed {
            Err(e) => res matches Err(m) && m@ == parse_error_message(e@),
            Ok(raw) => match validation_error(views(raw.options@)) {
                Some(m) => res matches Err(r) && r@ == m,
                None => res matches Ok(s) && s.target_ext@ == raw.target_ext@ && views(s.options@)
                    == views(raw.options@) && s.explanation@ == raw.explanation@,
            },
        },
{
    match parsed {
        Err(e) => {
            let mut m = copy_str("Не удалось разобрать ответ ИИ как JSON: ");
            m.append(e.as_str());
            Err(m)
        },
        Ok(raw) => {
            match validate_ai_options(raw.options.as_slice()) {
                Err(e) => Err(e),
                Ok(()) => Ok(
                    AiSuggestion {
                        target_ext: raw.target_ext,
                        options: raw.options,
                        explanation: raw.explanation,
                    },
                ),
            }
        },
    }
}

/// One line of the file list: `\n- name`, with the metadata in brackets where there is any.
pub open spec fn file_line(name: Seq<char>, meta: Seq<char>) -> Seq<char> {
    if meta.len() == 0 {
        "\n- "@ + name
    } else {
        "\n- "@ + name + " ("@ + meta + ")"@
    }
}

/// The list of files, one line each.
pub open spec fn file_lines(files: Seq<(Seq<char>, Seq<char>)>) -> Seq<char>
    decreases files.len(),
{
    if files.len() == 0 {
        seq![]
    } else {
        file_lines(files.drop_last()) + file_line(files.last().0, files.last().1)
    }
}

/// The views of a list of (name, metadata) pairs.
pub open spec fn pair_views(files: Seq<(String, String)>) -> Seq<(Seq<char>, Seq<char>)> {
    files.map_values(|f: (String, String)| (f.0@, f.1@))
}

/// The message asking for a proposal: the request, then the files with their metadata.
pub open spec fn user_message(query: Seq<char>, files: Seq<(Seq<char>, Seq<char>)>) -> Seq<char> {
    "Запрос: "@ + query + "\n\nФайлы:"@ + file_lines(files)
}

/// The message asking for a proposal: the request, then the files with their metadata.
pub fn build_user_message(query: &str, files: &[(String, String)]) -> (res: String)
    ensures
        res@ == user_message(query@, pair_views(files@)),
{
    let mut msg = copy_str("Запрос: ");
    msg.append(query);
    msg.append("\n\nФайлы:");
    let ghost fs = pair_views(files@);
    let ghost head = msg@;
    let mut i: usize = 0;
    assert(fs.take(0) =~= Seq::<(Seq<char>, Seq<char>)>::empty());
    assert(msg@ =~= head + file_lines(fs.take(0)));
    while i < files.len()
        invariant
            i <= files.len(),
            fs == pair_views(files@),
            head == "Запрос: "@ + query@ + "\n\nФайлы:"@,
            msg@ == head + file_lines(fs.take(i as int)),
        decreases files.len() - i,
    {
        let name = &files[i].0;
        let meta = &files[i].1;
        assert(fs.take(i + 1).drop_last() =~= fs.take(i as int));
        assert(fs.take(i + 1).last() == (name@, meta@));
        msg.append("\n- ");
        msg.append(name.as_str());
        if !meta.as_str().is_empty() {
            msg.append(" (");
            msg.append(meta.as_str());
            msg.append(")");
        }
        assert(msg@ =~= head + file_lines(fs.take(i + 1)));
        i += 1;
    }
    assert(fs.take(i as int) =~= fs);
    msg
}

/// The message asking to repair options that made ffmpeg fail: the usual message, then
/// the previous options, their target extension and ffmpeg's error.
pub open spec fn fix_message(
    query: Seq<char>,
    files: Seq<(Seq<char>, Seq<char>)>,
    prev_options: Seq<Seq<char>>,
    target_ext: Seq<char>,
    error: Seq<char>,
) -> Seq<char> {
    user_message(query, files) + "\n\nТвой предыдущий вариант options "@ + debug_list(prev_options)
        + " (target_ext \""@ + target_ext + "\") завершился ошибкой ffmpeg:\n"@ + error
        + "\n\nИсправь options так, чтобы конвертация прошла успешно (при необходимости поменяй кодек/фильтры/target_ext). Верни тот же JSON-формат и кратко объясни, что изменил."@
}

/// The message asking to repair options that made ffmpeg fail.
pub fn build_fix_message(
    query: &str,
    files: &[(String, String)],
    prev_options: &[String],
    target_ext: &str,
    error: &str,
) -> (res: String)
    ensures
        res@ == fix_message(
            query@,
            pair_views(files@),
            views(prev_options@),
            target_ext@,
            error@,
        ),
{
    let mut msg = build_user_message(query, files);
    msg.append("\n\nТвой предыдущий вариант options ");
    let listed = debug_format_list(prev_options);
    msg.append(listed.as_str());
    msg.append(" (target_ext \"");
    msg.append(target_ext);
    msg.append("\") завершился ошибкой ffmpeg:\n");
    msg.append(error);
    msg.append(
        "\n\nИсправь options так, чтобы конвертация прошла успешно (при необходимости поменяй кодек/фильтры/target_ext). Верни тот же JSON-формат и кратко объясни, что изменил.",
    );
    msg
}

/// The providers that can answer.
#[derive(Debug, Clone, Copy, PartialEq, Eq, Structural)]
pub enum Provider {
    OpenRouter,
    Ollama,
}

/// A chat request to send: the provider, the endpoint, the model, the value of the
/// `Authorization` header where one is needed, and the two messages.
#[derive(Debug)]
pub struct CompletionRequest {
    pub provider: Provider,
    pub url: String,
    pub model: String,
    pub authorization: Option<String>,
    pub system: String,
    pub user: String,
}

/// The endpoint of OpenRouter's chat API.
pub const OPENROUTER_URL: &'static str = "https://openrouter.ai/api/v1/chat/completions";

/// The chat endpoint of an Ollama server: its address without trailing slashes,
/// followed by `/api/chat`.
pub open spec fn ollama_chat_url(base: Seq<char>) -> Seq<char> {
    trim_end_char(base, '/') + "/api/chat"@
}

/// The error given when OpenRouter is chosen and no key is stored.
pub open spec fn missing_key_message() -> Seq<char> {
    "Не задан API-ключ OpenRouter. Добавьте его в настройках."@
}

/// `req` is the request for the settings, the stored key and the user message.
pub open spec fn is_request_for(
    req: CompletionRequest,
    settings: Settings,
    api_key: Option<String>,
    user_msg: Seq<char>,
) -> bool {
    &&& req.system@ == SYSTEM_PROMPT@
    &&& req.user@ == user_msg
    &&& if settings.provider@ == "ollama"@ {
        &&& req.provider == Provider::Ollama
        &&& req.url@ == ollama_chat_url(settings.ollama_url@)
        &&& req.model@ == settings.ollama_model@
        &&& req.authorization is None
    } else {
        &&& api_key is Some
        &&& req.provider == Provider::OpenRouter
        &&& req.url@ == OPENROUTER_URL@
        &&& req.model@ == settings.openrouter_model@
        &&& req.authorization matches Some(a) && a@ == "Bearer "@ + api_key->0@
    }
}

/// The request for the settings' provider: Ollama when the provider is `ollama`,
/// OpenRouter otherwise, which needs a stored key.
pub open spec fn request_ok(
    res: Result<CompletionRequest, String>,
    settings: Settings,
    api_key: Option<String>,
    user_msg: Seq<char>,
) -> bool {
    if settings.provider@ != "ollama"@ && api_key is None {
        res matches Err(e) && e@ == missing_key_message()
    } else {
        res matches Ok(req) && is_request_for(req, settings, api_key, user_msg)
    }
}

/// The request that sends a message to the provider chosen in the settings.
pub fn complete(settings: &Settings, api_key: Option<String>, user_msg: &str) -> (res: Result<
    CompletionRequest,
    String,
>)
    ensures
        request_ok(res, *settings, api_key, user_msg@),
{
    if str_eq(settings.provider.as_str(), "ollama") {
        let mut url = str_trim_end_char(settings.ollama_url.as_str(), '/');
        url.append("/api/chat");
        Ok(
            CompletionRequest {
                provider: Provider::Ollama,
                url,
                model: copy_str(settings.ollama_model.as_str()),
                authorization: None,
                system: copy_str(SYSTEM_PROMPT),
                user: copy_str(user_msg),
            },
        )
    } else {
        match &api_key {
            None => Err(copy_str("Не задан API-ключ OpenRouter. Добавьте его в настройках.")),
            Some(key) => {
                let mut auth = copy_str("Bearer ");
                auth.append(key.as_str());
                Ok(
                    CompletionRequest {
                        provider: Provider::OpenRouter,
                        url: copy_str(OPENROUTER_URL),
                        model: copy_str(settings.openrouter_model.as_str()),
                        authorization: Some(auth),
                        system: copy_str(SYSTEM_PROMPT),
                        user: copy_str(user_msg),
                    },
                )
            },
        }
    }
}

/// What came back from a provider for a request.
#[derive(Debug)]
pub enum ProviderReply {
    /// The reply decoded as JSON: the model's text where the reply holds it as a string
    /// at the provider's content field.
    Decoded(Option<String>),
    /// The reply did not decode as JSON; the decoder's message.
    BadJson(String),
    /// The provider answered with an error status: the status code and the body, empty
    /// where it could not be read.
    Status(u16, String),
    /// The request did not complete; the transport's message.
    Failed(String),
}

/// The message given when a reply holds no text, by provider.
pub open spec fn empty_reply_message(provider: Provider) -> Seq<char> {
    match provider {
        Provider::OpenRouter => "Пустой ответ OpenRouter"@,
        Provider::Ollama => "Пустой ответ Ollama"@,
    }
}

/// The model's text in a reply, or why there is none.
pub open spec fn reply_outcome(provider: Provider, reply: ProviderReply) -> Result<Seq<char>, Seq<char>> {
    match reply {
        ProviderReply::Decoded(Some(c)) => Ok(c@),
        ProviderReply::Decoded(None) => Err(empty_reply_message(provider)),
        ProviderReply::BadJson(e) => Err("Некорректный JSON от провайдера: "@ + e@),
        ProviderReply::Status(code, body) => Err(
            "Провайдер вернул ошибку "@ + decimal(code as nat) + ": "@ + body@,
        ),
        ProviderReply::Failed(e) => Err("Ошибка запроса к провайдеру: "@ + e@),
    }
}

/// The model's text in a reply, or the error that reports why there is none.
pub fn reply_content(provider: Provider, reply: ProviderReply) -> (res: Result<String, String>)
    ensures
        match reply_outcome(provider, reply) {
            Ok(c) => res matches Ok(t) && t@ == c,
            Err(e) => res matches Err(m) && m@ == e,
        },
{
    match reply {
        ProviderReply::Decoded(Some(c)) => Ok(c),
        ProviderReply::Decoded(None) => match provider {
            Provider::OpenRouter => Err(copy_str("Пустой ответ OpenRouter")),
            Provider::Ollama => Err(copy_str("Пустой ответ Ollama")),
        },
        ProviderReply::BadJson(e) => {
            let mut m = copy_str("Некорректный JSON от провайдера: ");
            m.append(e.as_str());
            Err(m)
        },
        ProviderReply::Status(code, body) => {
            let mut m = copy_str("Провайдер вернул ошибку ");
            let digits = u64_to_decimal(code as u64);
            m.append(digits.as_str());
            m.append(": ");
            m.append(body.as_str());
            Err(m)
        },
        ProviderReply::Failed(e) => {
            let mut m = copy_str("Ошибка запроса к провайдеру: ");
            m.append(e.as_str());
            Err(m)
        },
    }
}

/// The request asking the chosen provider for a proposal.
pub fn generate(
    settings: &Settings,
    api_key: Option<String>,
    query: &str,
    files: &[(String, String)],
) -> (res: Result<CompletionRequest, String>)
    ensures
        request_ok(res, *settings, api_key, user_message(query@, pair_views(files@))),
{
    let user_msg = build_user_message(query, files);
    complete(settings, api_key, user_msg.as_str())
}

/// The request asking the chosen provider to repair options that made ffmpeg fail.
pub fn generate_fix(
    settings: &Settings,
    api_key: Option<String>,
    query: &str,
    files: &[(String, String)],
    prev_options: &[String],
    target_ext: &str,
    error: &str,
) -> (res: Result<CompletionRequest, String>)
    ensures
        request_ok(
            res,
            *settings,
            api_key,
            fix_message(
                query@,
                pair_views(files@),
                views(prev_options@),
                target_ext@,
                error@,
            ),
        ),
{
    let user_msg = build_fix_message(query, files, prev_options, target_ext, error);
    complete(settings, api_key, user_msg.as_str())
}

/// A request to the model must say something: the query may not be blank.
pub fn require_query(query: &str) -> (res: Result<(), String>)
    ensures
        match res {
            Ok(()) => trim(query@).len() > 0,
            Err(e) => trim(query@).len() == 0 && e@ == "Введите запрос для ИИ"@,
        },
{
    if is_blank(query) {
        Err(copy_str("Введите запрос для ИИ"))
    } else {
        Ok(())
    }
}

/// ffprobe's report as one line: line breaks become `; `, surrounding whitespace goes.
pub open spec fn probe_summary(report: Seq<char>) -> Seq<char> {
    trim(replace_char(report, '\n', "; "@))
}

/// ffprobe's report as one line for the prompt.
pub fn summarize_probe_output(report: &str) -> (res: String)
    ensures
        res@ == probe_summary(report@),
{
    let one_line = str_replace_char(report, '\n', "; ");
    str_trim(one_line.as_str())
}

} // verus!
