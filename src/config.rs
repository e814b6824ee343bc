//! Turning the configuration bag into a fully resolved request specification.
use vstd::prelude::*;
use vstd::string::StringExecFns;
use crate::decimal::{chars_of, parse_u64, u64_numeral};
use crate::error::TranslateError;
use crate::options::Options;

verus! {

/// Seconds allowed for the exchange when `timeout` is absent or not a `u64` numeral.
pub const DEFAULT_TIMEOUT_SECS: u64 = 30;

/// The chat-completion URL used when `endpoint` is absent.
pub const DEFAULT_ENDPOINT: &'static str = "https://api.openai.com/v1/chat/completions";

/// The model identifier used when `model` is absent.
pub const DEFAULT_MODEL: &'static str = "gpt-4o";

/// What `str::to_lowercase` gives for a string: Unicode lowercase mapping,
/// a function of the characters alone.
pub uninterp spec fn lowercase_of(s: Seq<char>) -> Seq<char>;

/// Relies on `str::to_lowercase`: the lowercase form of `s`.
#[verifier::external_body]
fn to_lowercase(s: &str) -> (r: String)
    ensures
        r@ == lowercase_of(s@),
{
    s.to_lowercase()
}

/// The word that switches streaming on.
pub open spec fn true_word() -> Seq<char> {
    seq!['t', 'r', 'u', 'e']
}

/// The text that introduces the target language at the end of the system prompt.
pub open spec fn language_label() -> Seq<char> {
    "Output Language:"@
}

/// The final line of every system prompt: the label and the target code, verbatim.
pub open spec fn language_line(to: Seq<char>) -> Seq<char> {
    language_label() + to
}

/// The system prompt for a configured base prompt (if any) and a target language code.
pub open spec fn prompt_text(base: Option<Seq<char>>, to: Seq<char>) -> Seq<char> {
    match base {
        Some(p) => p + "\n"@ + language_line(to),
        None => language_line(to),
    }
}

/// Whatever base prompt is configured, the system prompt ends with a line that holds
/// the target language code exactly as given: the text before that line is empty
/// or ends with a line break.
pub proof fn lemma_prompt_ends_with_language(base: Option<Seq<char>>, to: Seq<char>)
    ensures
        ({
            let p = prompt_text(base, to);
            let n = language_line(to).len();
            &&& p.len() >= n
            &&& p.subrange(p.len() - n, p.len() as int) == language_line(to)
            &&& p.len() == n || p[p.len() - n - 1] == '\n'
            &&& (base is None <==> p.len() == n)
        }),
{
    reveal_strlit("\n");
    let p = prompt_text(base, to);
    let n = language_line(to).len();
    match base {
        Some(b) => {
            assert(p =~= b + seq!['\n'] + language_line(to));
            assert(p.subrange(p.len() - n, p.len() as int) =~= language_line(to));
        },
        None => {
            assert(p.subrange(p.len() - n, p.len() as int) =~= language_line(to));
        },
    }
}

/// The timeout for the configured `timeout` text, if any.
pub open spec fn timeout_for(v: Option<Seq<char>>) -> u64 {
    match v {
        Some(t) => match u64_numeral(t) {
            Some(n) => n,
            None => DEFAULT_TIMEOUT_SECS,
        },
        None => DEFAULT_TIMEOUT_SECS,
    }
}

/// The streaming flag for the configured `stream` text, if any.
pub open spec fn stream_for(v: Option<Seq<char>>) -> bool {
    match v {
        Some(t) => lowercase_of(t) == true_word(),
        None => false,
    }
}

/// The value under `key`, if the bag has one.
pub open spec fn lookup(bag: Map<Seq<char>, Seq<char>>, key: Seq<char>) -> Option<Seq<char>> {
    if bag.contains_key(key) {
        Some(bag[key])
    } else {
        None
    }
}

/// The value under `key`, or `default` where the bag has none.
pub open spec fn value_or(bag: Map<Seq<char>, Seq<char>>, key: Seq<char>, default: Seq<char>) -> Seq<char> {
    match lookup(bag, key) {
        Some(v) => v,
        None => default,
    }
}

/// Whether `v` is the view of `o`.
pub open spec fn text_view(o: Option<String>, v: Option<Seq<char>>) -> bool {
    match o {
        Some(s) => v == Some(s@),
        None => v is None,
    }
}

/// The exact view of an optional borrowed text.
pub open spec fn opt_view(o: Option<&str>) -> Option<Seq<char>> {
    match o {
        Some(s) => Some(s@),
        None => None,
    }
}

/// One message of the outbound conversation.
pub struct ChatMessage {
    pub role: String,
    pub content: String,
}

/// Everything needed to build the outbound request, resolved from the configuration.
///
/// The four sampling parameters are carried as the configured text; reading them as
/// floating-point numbers, with their defaults, belongs to the code that sends the request.
pub struct RequestSpec {
    pub timeout_secs: u64,
    pub api_key: String,
    pub endpoint: String,
    pub model: String,
    pub system_prompt: String,
    pub stream: bool,
    pub temperature: Option<String>,
    pub top_p: Option<String>,
    pub presence_penalty: Option<String>,
    pub frequency_penalty: Option<String>,
}

/// The specification that a bag holding an `apikey` resolves to, for target code `to`.
pub open spec fn resolved_from(r: RequestSpec, bag: Map<Seq<char>, Seq<char>>, to: Seq<char>) -> bool {
    &&& r.timeout_secs == timeout_for(lookup(bag, "timeout"@))
    &&& r.api_key@ == bag["apikey"@]
    &&& r.endpoint@ == value_or(bag, "endpoint"@, DEFAULT_ENDPOINT@)
    &&& r.model@ == value_or(bag, "model"@, DEFAULT_MODEL@)
    &&& r.system_prompt@ == prompt_text(lookup(bag, "prompt"@), to)
    &&& r.stream == stream_for(lookup(bag, "stream"@))
    &&& text_view(r.temperature, lookup(bag, "temperature"@))
    &&& text_view(r.top_p, lookup(bag, "top_p"@))
    &&& text_view(r.presence_penalty, lookup(bag, "presence_penalty"@))
    &&& text_view(r.frequency_penalty, lookup(bag, "frequency_penalty"@))
}

/// The timeout in seconds: the configured text read as a `u64`, or the default.
pub fn resolve_timeout(v: Option<&str>) -> (r: u64)
    ensures
        r == timeout_for(opt_view(v)),
{
    match v {
        Some(t) => match parse_u64(t) {
            Some(n) => n,
            None => DEFAULT_TIMEOUT_SECS,
        },
        None => DEFAULT_TIMEOUT_SECS,
    }
}

/// Whether an already lowercased text is exactly `true`.
pub fn is_true_word(lowered: &str) -> (r: bool)
    ensures
        r == (lowered@ == true_word()),
{
    let cs = chars_of(lowered);
    let r = cs.len() == 4 && cs[0] == 't' && cs[1] == 'r' && cs[2] == 'u' && cs[3] == 'e';
    if r {
        assert(cs@ =~= true_word());
    }
    r
}

/// The streaming flag: true exactly when the configured text, lowercased, is `true`.
pub fn resolve_stream(v: Option<&str>) -> (r: bool)
    ensures
        r == stream_for(opt_view(v)),
{
    match v {
        Some(t) => is_true_word(to_lowercase(t).as_str()),
        None => false,
    }
}

/// The system prompt: the configured base prompt, if any, then a line naming the
/// target language code exactly as given.
pub fn build_prompt(base: Option<&str>, to: &str) -> (r: String)
    ensures
        r@ == prompt_text(opt_view(base), to@),
{
    let mut r = match base {
        Some(p) => {
            let mut s = String::from_str(p);
            s.append("\n");
            s
        },
        None => String::new(),
    };
    r.append("Output Language:");
    r.append(to);
    proof {
        match base {
            Some(p) => assert(r@ =~= prompt_text(opt_view(base), to@)),
            None => assert(r@ =~= prompt_text(opt_view(base), to@)),
        }
    }
    r
}

/// The `authorization` header value for an API key.
pub fn bearer_value(api_key: &str) -> (r: String)
    ensures
        r@ == "Bearer "@ + api_key@,
{
    let mut r = String::from_str("Bearer ");
    r.append(api_key);
    r
}

/// The outbound conversation: the system prompt, then the text to translate.
pub fn chat_messages(spec: &RequestSpec, text: &str) -> (r: Vec<ChatMessage>)
    ensures
        r.len() == 2,
        r[0].role@ == "system"@,
        r[0].content@ == spec.system_prompt@,
        r[1].role@ == "user"@,
        r[1].content@ == text@,
{
    let mut r: Vec<ChatMessage> = Vec::new();
    r.push(ChatMessage { role: String::from_str("system"), content: spec.system_prompt.clone() });
    r.push(ChatMessage { role: String::from_str("user"), content: String::from_str(text) });
    r
}

/// The HTTP headers of the outbound request, in order: what the reply may be,
/// what the body is, and the bearer credential.
pub fn request_headers(spec: &RequestSpec) -> (r: Vec<(String, String)>)
    ensures
        r.len() == 3,
        r[0].0@ == "Accept"@,
        r[0].1@ == "application/json, text/event-stream"@,
        r[1].0@ == "Content-Type"@,
        r[1].1@ == "application/json"@,
        r[2].0@ == "authorization"@,
        r[2].1@ == "Bearer "@ + spec.api_key@,
{
    let mut r: Vec<(String, String)> = Vec::new();
    r.push((String::from_str("Accept"), String::from_str("application/json, text/event-stream")));
    r.push((String::from_str("Content-Type"), String::from_str("application/json")));
    r.push((String::from_str("authorization"), bearer_value(spec.api_key.as_str())));
    r
}

/// The configured text under `key`, owned.
fn owned_value(bag: &Options, key: &str) -> (r: Option<String>)
    requires
        bag.wf(),
    ensures
        text_view(r, lookup(bag@, key@)),
{
    match bag.get(key) {
        Some(v) => Some(String::from_str(v)),
        None => None,
    }
}

/// The configured text under `key`, or `default`.
fn text_or(bag: &Options, key: &str, default: &str) -> (r: String)
    requires
        bag.wf(),
    ensures
        r@ == value_or(bag@, key@, default@),
{
    match bag.get(key) {
        Some(v) => String::from_str(v),
        None => String::from_str(default),
    }
}

/// Resolves the configuration bag into a request specification for target code `to`.
/// Fails with `MissingCredential` exactly when the bag has no `apikey`.
pub fn resolve_config(bag: &Options, to: &str) -> (r: Result<RequestSpec, TranslateError>)
    requires
        bag.wf(),
    ensures
        !bag@.contains_key("apikey"@) <==> r == Err::<RequestSpec, TranslateError>(TranslateError::MissingCredential),
        r is Err ==> r == Err::<RequestSpec, TranslateError>(TranslateError::MissingCredential),
        r matches Ok(spec) ==> resolved_from(spec, bag@, to@),
{
    let api_key = match bag.get("apikey") {
        Some(k) => String::from_str(k),
        None => return Err(TranslateError::MissingCredential),
    };
    let timeout_secs = resolve_timeout(bag.get("timeout"));
    let endpoint = text_or(bag, "endpoint", DEFAULT_ENDPOINT);
    let model = text_or(bag, "model", DEFAULT_MODEL);
    let system_prompt = build_prompt(bag.get("prompt"), to);
    let stream = resolve_stream(bag.get("stream"));
    Ok(RequestSpec {
        timeout_secs,
        api_key,
        endpoint,
        model,
        system_prompt,
        stream,
        temperature: owned_value(bag, "temperature"),
        top_p: owned_value(bag, "top_p"),
        presence_penalty: owned_value(bag, "presence_penalty"),
        frequency_penalty: owned_value(bag, "frequency_penalty"),
    })
}

} // verus!
