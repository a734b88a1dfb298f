use vstd::prelude::*;

use crate::lines::{lines_of, same_text, split_lines, starts_with};

verus! {

/// The member `key` of the JSON object that `text` encodes, as far as the
/// parsers read it: a string, a boolean, or anything else.
pub enum MemberView {
    Text(Seq<char>),
    Flag(bool),
    Other,
}

/// The member `key` of the JSON object that `text` encodes; `Other` when
/// `text` is not valid JSON, not an object, or the member is absent or
/// neither a string nor a boolean.
pub uninterp spec fn json_member(text: Seq<char>, key: Seq<char>) -> MemberView;

pub open spec fn json_text_member(text: Seq<char>, key: Seq<char>) -> Option<Seq<char>> {
    match json_member(text, key) {
        MemberView::Text(t) => Some(t),
        _ => None,
    }
}

pub open spec fn json_flag_member(text: Seq<char>, key: Seq<char>) -> Option<bool> {
    match json_member(text, key) {
        MemberView::Flag(b) => Some(b),
        _ => None,
    }
}

/// A member of a parsed JSON object.
pub enum Member {
    Text(String),
    Flag(bool),
    Other,
}

impl View for Member {
    type V = MemberView;

    open spec fn view(&self) -> MemberView {
        match self {
            Member::Text(t) => MemberView::Text(t@),
            Member::Flag(b) => MemberView::Flag(*b),
            Member::Other => MemberView::Other,
        }
    }
}

/// The lowercase hexadecimal digit for `n < 16`.
pub open spec fn hex_digit(n: u32) -> char {
    seq!['0', '1', '2', '3', '4', '5', '6', '7', '8', '9', 'a', 'b', 'c', 'd', 'e', 'f'][n as int]
}

/// How one character is written inside a JSON string: quote and backslash
/// escaped, the five named control characters as `\b \t \n \f \r`, other
/// control characters below 0x20 as `\u00XX`, everything else as is.
pub open spec fn json_escape(c: char) -> Seq<char> {
    if c == '"' {
        seq!['\\', '"']
    } else if c == '\\' {
        seq!['\\', '\\']
    } else if c == '\u{8}' {
        seq!['\\', 'b']
    } else if c == '\t' {
        seq!['\\', 't']
    } else if c == '\n' {
        seq!['\\', 'n']
    } else if c == '\u{c}' {
        seq!['\\', 'f']
    } else if c == '\r' {
        seq!['\\', 'r']
    } else if (c as u32) < 0x20 {
        seq!['\\', 'u', '0', '0', hex_digit((c as u32) / 16), hex_digit((c as u32) % 16)]
    } else {
        seq![c]
    }
}

/// The characters of `s`, each escaped as inside a JSON string.
pub open spec fn json_escaped(s: Seq<char>) -> Seq<char>
    decreases s.len(),
{
    if s.len() == 0 {
        Seq::empty()
    } else {
        json_escaped(s.drop_last()) + json_escape(s.last())
    }
}

/// The JSON string literal that encodes `s`, quotes and escapes included.
pub open spec fn json_quoted(s: Seq<char>) -> Seq<char> {
    seq!['"'] + json_escaped(s) + seq!['"']
}

pub open spec fn opt_view(o: Option<String>) -> Option<Seq<char>> {
    match o {
        Some(s) => Some(s@),
        None => None,
    }
}

/// Relies on serde_json's `from_str::<Value>` and `Value::get`: the member
/// `key` of the parsed object, told apart by its variant.
#[verifier::external_body]
fn json_field(text: &str, key: &str) -> (r: Member)
    ensures
        r@ == json_member(text@, key@),
{
    match serde_json::from_str::<serde_json::Value>(text) {
        Ok(v) => match v.get(key) {
            Some(serde_json::Value::String(t)) => Member::Text(t.clone()),
            Some(serde_json::Value::Bool(b)) => Member::Flag(*b),
            _ => Member::Other,
        },
        Err(_) => Member::Other,
    }
}

/// The string member `key` of the JSON object that `text` encodes.
pub fn json_text_field(text: &str, key: &str) -> (r: Option<String>)
    ensures
        opt_view(r) == json_text_member(text@, key@),
{
    match json_field(text, key) {
        Member::Text(t) => Some(t),
        _ => None,
    }
}

/// The boolean member `key` of the JSON object that `text` encodes.
pub fn json_flag_field(text: &str, key: &str) -> (r: Option<bool>)
    ensures
        r == json_flag_member(text@, key@),
{
    match json_field(text, key) {
        Member::Flag(b) => Some(b),
        _ => None,
    }
}

/// Relies on serde_json's `Display` for `Value::String`, which writes the
/// string through `format_escaped_str` with its `ESCAPE` table: quotes
/// around the characters, each escaped as `json_escape` states.
#[verifier::external_body]
fn json_quote(s: &str) -> (r: String)
    ensures
        r@ == json_quoted(s@),
{
    serde_json::Value::String(s.to_string()).to_string()
}

/// The backends a model name can select.
#[derive(Clone, Copy, Debug, PartialEq, Eq, Structural)]
pub enum Provider {
    /// Gemini models behind the proxy, with server-sent-event framing.
    Gemini,
    /// Perplexity's sonar model behind the proxy, with server-sent-event framing.
    Perplexity,
    /// A local inference server answering with line-delimited JSON.
    Local,
}

/// The backend that serves `model`, if any.
pub open spec fn provider_for(model: Seq<char>) -> Option<Provider> {
    if "gemini"@.is_prefix_of(model) {
        Some(Provider::Gemini)
    } else if model == "sonar"@ {
        Some(Provider::Perplexity)
    } else if model == "local"@ {
        Some(Provider::Local)
    } else {
        None
    }
}

pub fn select_provider(model: &str) -> (r: Option<Provider>)
    ensures
        r == provider_for(model@),
{
    if starts_with(model, "gemini") {
        Some(Provider::Gemini)
    } else if same_text(model, "sonar") {
        Some(Provider::Perplexity)
    } else if same_text(model, "local") {
        Some(Provider::Local)
    } else {
        None
    }
}

/// The proxy used when no other base URL is configured.
pub const DEFAULT_PROXY_URL: &'static str = "https://proxy-server-p9wzc2v53-prem-thatikondas-projects.vercel.app";

/// The endpoint of the local inference server.
pub const LOCAL_ENDPOINT: &'static str = "http://localhost:11434/api/generate";

/// The model that the local inference server runs.
pub const LOCAL_MODEL: &'static str = "llama3";

/// The configured base URL, or the default proxy when none is configured.
pub fn resolve_base_url(configured: Option<String>) -> (r: String)
    ensures
        r@ == match configured {
            Some(s) => s@,
            None => DEFAULT_PROXY_URL@,
        },
{
    match configured {
        Some(s) => s,
        None => String::from_str(DEFAULT_PROXY_URL),
    }
}

/// An HTTP POST to issue: where, and the JSON body.
#[derive(Debug, PartialEq, Eq)]
pub struct OutboundRequest {
    pub url: String,
    pub body: String,
}

pub open spec fn request_url(p: Provider, base_url: Seq<char>) -> Seq<char> {
    match p {
        Provider::Gemini => base_url + "/api/gemini"@,
        Provider::Perplexity => base_url + "/api/perplexity"@,
        Provider::Local => LOCAL_ENDPOINT@,
    }
}

/// The body of a request to provider `p`, from the JSON encodings of the
/// model name and of the prompt.
pub open spec fn body_from(p: Provider, quoted_model: Seq<char>, quoted_prompt: Seq<char>) -> Seq<
    char,
> {
    "{\"model\":"@ + quoted_model + ",\"prompt\":"@ + quoted_prompt + match p {
        Provider::Local => ",\"stream\":true}"@,
        _ => ",\"temperature\":0.7,\"maxTokens\":2048,\"stream\":true}"@,
    }
}

/// The model name sent to provider `p` for a request naming `model`.
pub open spec fn wire_model(p: Provider, model: Seq<char>) -> Seq<char> {
    match p {
        Provider::Local => LOCAL_MODEL@,
        _ => model,
    }
}

pub open spec fn request_body(p: Provider, model: Seq<char>, prompt: Seq<char>) -> Seq<char> {
    body_from(p, json_quoted(wire_model(p, model)), json_quoted(prompt))
}

/// Assembles the JSON body of a request to provider `p` from the encoded
/// model name and prompt.
pub fn assemble_body(p: Provider, quoted_model: &str, quoted_prompt: &str) -> (r: String)
    ensures
        r@ == body_from(p, quoted_model@, quoted_prompt@),
{
    let tail = match p {
        Provider::Local => ",\"stream\":true}",
        _ => ",\"temperature\":0.7,\"maxTokens\":2048,\"stream\":true}",
    };
    String::from_str("{\"model\":").concat(quoted_model).concat(",\"prompt\":").concat(
        quoted_prompt,
    ).concat(tail)
}

/// Builds the request that asks provider `p` to continue `prompt`.
pub fn build_request(p: Provider, base_url: &str, model: &str, prompt: &str) -> (r: OutboundRequest)
    ensures
        r.url@ == request_url(p, base_url@),
        r.body@ == request_body(p, model@, prompt@),
{
    let url = match p {
        Provider::Gemini => String::from_str(base_url).concat("/api/gemini"),
        Provider::Perplexity => String::from_str(base_url).concat("/api/perplexity"),
        Provider::Local => String::from_str(LOCAL_ENDPOINT),
    };
    let quoted_model = match p {
        Provider::Local => json_quote(LOCAL_MODEL),
        _ => json_quote(model),
    };
    let quoted_prompt = json_quote(prompt);
    let body = assemble_body(p, quoted_model.as_str(), quoted_prompt.as_str());
    OutboundRequest { url, body }
}

/// The mathematical content of a normalized chunk.
pub struct ChunkView {
    pub text: Seq<char>,
    pub is_terminal: bool,
    pub error: Option<Seq<char>>,
}

/// One uniform unit of streamed output, whatever the wire format.
#[derive(Debug, PartialEq, Eq)]
pub struct NormalizedChunk {
    /// The incremental text delta.
    pub text: String,
    /// Whether the backend signalled the end of the stream.
    pub is_terminal: bool,
    /// An error the backend reported; it aborts the stream.
    pub error: Option<String>,
}

impl View for NormalizedChunk {
    type V = ChunkView;

    open spec fn view(&self) -> ChunkView {
        ChunkView { text: self.text@, is_terminal: self.is_terminal, error: opt_view(self.error) }
    }
}

pub open spec fn delta(text: Seq<char>) -> ChunkView {
    ChunkView { text, is_terminal: false, error: None }
}

pub open spec fn terminal(text: Seq<char>) -> ChunkView {
    ChunkView { text, is_terminal: true, error: None }
}

pub open spec fn failure(e: Seq<char>) -> ChunkView {
    ChunkView { text: Seq::empty(), is_terminal: false, error: Some(e) }
}

/// Whether nothing after `c` is to be read.
pub open spec fn ends_stream(c: ChunkView) -> bool {
    c.is_terminal || c.error is Some
}

/// What one server-sent-event line yields: `data: [DONE]` ends the stream, a
/// `data: ` payload with a string `content` is a delta, one with a string
/// `error` is a failure; every other line yields nothing.
pub open spec fn sse_line_chunk(line: Seq<char>) -> Option<ChunkView> {
    if !"data: "@.is_prefix_of(line) {
        None
    } else {
        let data = line.subrange(6, line.len() as int);
        if data == "[DONE]"@ {
            Some(terminal(Seq::empty()))
        } else {
            sse_payload_chunk(json_text_member(data, "content"@), json_text_member(data, "error"@))
        }
    }
}

/// What a decoded `data: ` payload yields, from its string members
/// `content` and `error`: a delta, else a failure, else nothing.
pub open spec fn sse_payload_chunk(content: Option<Seq<char>>, error: Option<Seq<char>>) -> Option<
    ChunkView,
> {
    match content {
        Some(c) => Some(delta(c)),
        None => match error {
            Some(e) => Some(failure(e)),
            None => None,
        },
    }
}

/// What one line-delimited JSON line yields: its `response` text as a delta,
/// terminal when `done` is true; a string `error` member is a failure; a line
/// with none of these members, or that is no JSON object, yields nothing.
pub open spec fn json_line_chunk(line: Seq<char>) -> Option<ChunkView> {
    json_line_from(
        json_text_member(line, "response"@),
        json_flag_member(line, "done"@),
        json_text_member(line, "error"@),
    )
}

/// What a line-delimited JSON line yields, from its members `response`,
/// `done` and `error`.
pub open spec fn json_line_from(
    response: Option<Seq<char>>,
    done: Option<bool>,
    error: Option<Seq<char>>,
) -> Option<ChunkView> {
    if response is None && done is None {
        match error {
            Some(e) => Some(failure(e)),
            None => None,
        }
    } else {
        Some(
            ChunkView {
                text: match response {
                    Some(t) => t,
                    None => Seq::empty(),
                },
                is_terminal: done == Some(true),
                error: None,
            },
        )
    }
}

pub open spec fn line_chunk(p: Provider, line: Seq<char>) -> Option<ChunkView> {
    match p {
        Provider::Local => json_line_chunk(line),
        _ => sse_line_chunk(line),
    }
}

/// The chunks that a sequence of lines yields, up to and including the first
/// one that ends the stream.
pub open spec fn chunks_of_lines(p: Provider, lines: Seq<Seq<char>>) -> Seq<ChunkView>
    decreases lines.len(),
{
    if lines.len() == 0 {
        Seq::empty()
    } else {
        let rest = chunks_of_lines(p, lines.drop_first());
        match line_chunk(p, lines[0]) {
            None => rest,
            Some(c) => if ends_stream(c) {
                seq![c]
            } else {
                seq![c] + rest
            },
        }
    }
}

pub open spec fn chunk_views(cs: Seq<NormalizedChunk>) -> Seq<ChunkView> {
    cs.map_values(|c: NormalizedChunk| c@)
}

fn text_of(t: Option<String>) -> (r: String)
    ensures
        r@ == match t {
            Some(s) => s@,
            None => Seq::<char>::empty(),
        },
{
    match t {
        Some(s) => s,
        None => String::new(),
    }
}

/// Parses one line of a server-sent-event stream.
pub fn parse_sse_line(line: &str) -> (r: Option<NormalizedChunk>)
    ensures
        match r {
            Some(c) => sse_line_chunk(line@) == Some(c@),
            None => sse_line_chunk(line@) is None,
        },
{
    if !starts_with(line, "data: ") {
        return None;
    }
    proof {
        reveal_strlit("data: ");
    }
    let data = line.substring_char(6, line.unicode_len());
    if same_text(data, "[DONE]") {
        let r = NormalizedChunk { text: String::new(), is_terminal: true, error: None };
        assert(r@ =~= terminal(Seq::empty()));
        return Some(r);
    }
    sse_payload(json_text_field(data, "content"), json_text_field(data, "error"))
}

/// The chunk for a decoded `data: ` payload with string members `content`
/// and `error`.
pub fn sse_payload(content: Option<String>, error: Option<String>) -> (r: Option<NormalizedChunk>)
    ensures
        match r {
            Some(c) => sse_payload_chunk(opt_view(content), opt_view(error)) == Some(c@),
            None => sse_payload_chunk(opt_view(content), opt_view(error)) is None,
        },
{
    match content {
        Some(c) => Some(NormalizedChunk { text: c, is_terminal: false, error: None }),
        None => match error {
            Some(e) => {
                let r = NormalizedChunk { text: String::new(), is_terminal: false, error: Some(e) };
                assert(r@.text =~= Seq::<char>::empty());
                Some(r)
            },
            None => None,
        },
    }
}

/// Parses one line of a line-delimited JSON stream.
pub fn parse_json_line(line: &str) -> (r: Option<NormalizedChunk>)
    ensures
        match r {
            Some(c) => json_line_chunk(line@) == Some(c@),
            None => json_line_chunk(line@) is None,
        },
{
    json_line(
        json_text_field(line, "response"),
        json_flag_field(line, "done"),
        json_text_field(line, "error"),
    )
}

/// The chunk for a line-delimited JSON line with members `response`, `done`
/// and `error`.
pub fn json_line(response: Option<String>, done: Option<bool>, error: Option<String>) -> (r: Option<
    NormalizedChunk,
>)
    ensures
        match r {
            Some(c) => json_line_from(opt_view(response), done, opt_view(error)) == Some(c@),
            None => json_line_from(opt_view(response), done, opt_view(error)) is None,
        },
{
    if response.is_none() && done.is_none() {
        match error {
            Some(e) => {
                let r = NormalizedChunk { text: String::new(), is_terminal: false, error: Some(e) };
                assert(r@.text =~= Seq::<char>::empty());
                Some(r)
            },
            None => None,
        }
    } else {
        let is_terminal = match done {
            Some(d) => d,
            None => false,
        };
        Some(NormalizedChunk { text: text_of(response), is_terminal, error: None })
    }
}

/// Parses one line in the wire format of provider `p`.
pub fn parse_line(p: Provider, line: &str) -> (r: Option<NormalizedChunk>)
    ensures
        match r {
            Some(c) => line_chunk(p, line@) == Some(c@),
            None => line_chunk(p, line@) is None,
        },
{
    match p {
        Provider::Local => parse_json_line(line),
        _ => parse_sse_line(line),
    }
}

/// Parses a block of response text in the wire format of provider `p`,
/// line by line, stopping after the first chunk that ends the stream.
pub fn parse_text(p: Provider, text: &str) -> (r: Vec<NormalizedChunk>)
    ensures
        chunk_views(r@) == chunks_of_lines(p, lines_of(text@)),
{
    let lines = split_lines(text);
    let ghost ls = lines@.map_values(|l: String| l@);
    let mut out: Vec<NormalizedChunk> = Vec::new();
    let mut k: usize = 0;
    assert(ls.skip(0) =~= ls);
    assert(chunk_views(out@) =~= Seq::<ChunkView>::empty());
    assert(Seq::<ChunkView>::empty() + chunks_of_lines(p, ls) =~= chunks_of_lines(p, ls));
    while k < lines.len()
        invariant
            k <= lines@.len(),
            ls == lines_of(text@),
            ls.len() == lines@.len(),
            forall|j: int| 0 <= j < ls.len() ==> #[trigger] ls[j] == lines@[j]@,
            chunk_views(out@) + chunks_of_lines(p, ls.skip(k as int)) == chunks_of_lines(p, ls),
        decreases lines@.len() - k,
    {
        let ghost suffix = ls.skip(k as int);
        proof {
            assert(suffix.drop_first() =~= ls.skip(k as int + 1));
            assert(suffix[0] == lines@[k as int]@);
        }
        match parse_line(p, lines[k].as_str()) {
            None => {},
            Some(c) => {
                let stop = c.is_terminal || c.error.is_some();
                let ghost prev = out@;
                out.push(c);
                assert(chunk_views(out@) =~= chunk_views(prev).push(c@));
                if stop {
                    assert(chunk_views(out@) =~= chunks_of_lines(p, ls)) by {
                        assert(chunks_of_lines(p, suffix) == seq![c@]);
                        assert(chunk_views(prev) + seq![c@] =~= chunk_views(prev).push(c@));
                    }
                    return out;
                }
                assert(chunk_views(prev) + chunks_of_lines(p, suffix) =~= chunk_views(out@)
                    + chunks_of_lines(p, ls.skip(k as int + 1)));
            },
        }
        k = k + 1;
    }
    assert(ls.skip(k as int) =~= Seq::<Seq<char>>::empty());
    assert(chunk_views(out@) + Seq::<ChunkView>::empty() =~= chunk_views(out@));
    out
}

} // verus!
