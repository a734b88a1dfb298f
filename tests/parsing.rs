use overlay_assistant::lines::{same_text, split_lines, starts_with};
use overlay_assistant::provider::{
    assemble_body, build_request, json_flag_field, json_line, json_text_field, sse_payload, parse_json_line, parse_line, parse_sse_line, parse_text, resolve_base_url,
    select_provider, NormalizedChunk, Provider, DEFAULT_PROXY_URL, LOCAL_ENDPOINT,
};

fn delta(t: &str) -> NormalizedChunk {
    NormalizedChunk { text: t.to_string(), is_terminal: false, error: None }
}

fn last(t: &str) -> NormalizedChunk {
    NormalizedChunk { text: t.to_string(), is_terminal: true, error: None }
}

fn failure(e: &str) -> NormalizedChunk {
    NormalizedChunk { text: String::new(), is_terminal: false, error: Some(e.to_string()) }
}

#[test]
fn split_lines_handles_crlf_and_trailing_newline() {
    assert_eq!(split_lines("a\r\nb\n"), vec!["a".to_string(), "b".to_string()]);
    assert_eq!(split_lines("a\n\nb"), vec!["a".to_string(), String::new(), "b".to_string()]);
    assert_eq!(split_lines(""), Vec::<String>::new());
    assert_eq!(split_lines("\n"), vec![String::new()]);
    assert_eq!(split_lines("x\r"), vec!["x\r".to_string()]);
    assert_eq!(split_lines("héllo\nwörld"), vec!["héllo".to_string(), "wörld".to_string()]);
}

#[test]
fn split_lines_agrees_with_std_lines() {
    for s in ["a\r\nb\n", "a\n\nb", "", "\n", "one", "\r\n\r\n", "a\rb\nc"] {
        let ours = split_lines(s);
        let std: Vec<String> = s.lines().map(|l| l.to_string()).collect();
        assert_eq!(ours, std, "input {:?}", s);
    }
}

#[test]
fn prefix_and_equality() {
    assert!(starts_with("data: x", "data: "));
    assert!(!starts_with("dat", "data: "));
    assert!(starts_with("abc", ""));
    assert!(same_text("sonar", "sonar"));
    assert!(!same_text("sonar", "sonar2"));
    assert!(!same_text("sonar", "sonaR"));
}

#[test]
fn model_selection() {
    assert_eq!(select_provider("gemini-1.5-flash"), Some(Provider::Gemini));
    assert_eq!(select_provider("gemini"), Some(Provider::Gemini));
    assert_eq!(select_provider("sonar"), Some(Provider::Perplexity));
    assert_eq!(select_provider("sonar-pro"), None);
    assert_eq!(select_provider("local"), Some(Provider::Local));
    assert_eq!(select_provider("gpt-4"), None);
    assert_eq!(select_provider(""), None);
}

#[test]
fn base_url_falls_back_to_default() {
    assert_eq!(resolve_base_url(None), DEFAULT_PROXY_URL);
    assert_eq!(resolve_base_url(Some("http://x".to_string())), "http://x");
}

#[test]
fn request_bodies_per_provider() {
    let r = build_request(Provider::Perplexity, "http://proxy", "sonar", "hi");
    assert_eq!(r.url, "http://proxy/api/perplexity");
    assert_eq!(
        r.body,
        "{\"model\":\"sonar\",\"prompt\":\"hi\",\"temperature\":0.7,\"maxTokens\":2048,\"stream\":true}"
    );
    let g = build_request(Provider::Gemini, "http://proxy", "gemini-pro", "hi");
    assert_eq!(g.url, "http://proxy/api/gemini");
    assert_eq!(
        g.body,
        "{\"model\":\"gemini-pro\",\"prompt\":\"hi\",\"temperature\":0.7,\"maxTokens\":2048,\"stream\":true}"
    );
    let l = build_request(Provider::Local, "http://proxy", "local", "hi");
    assert_eq!(l.url, LOCAL_ENDPOINT);
    assert_eq!(l.body, "{\"model\":\"llama3\",\"prompt\":\"hi\",\"stream\":true}");
}

#[test]
fn request_body_escapes_prompt() {
    let r = build_request(Provider::Perplexity, "u", "sonar", "say \"hi\"\nnow");
    assert_eq!(
        r.body,
        "{\"model\":\"sonar\",\"prompt\":\"say \\\"hi\\\"\\nnow\",\"temperature\":0.7,\"maxTokens\":2048,\"stream\":true}"
    );
    let v: serde_json::Value = serde_json::from_str(&r.body).unwrap();
    assert_eq!(v["prompt"].as_str(), Some("say \"hi\"\nnow"));
}

#[test]
fn sse_content_then_done() {
    let chunks = parse_text(Provider::Perplexity, "data: {\"content\":\"Hi\"}\ndata: [DONE]\n");
    assert_eq!(chunks, vec![delta("Hi"), last("")]);
}

#[test]
fn sse_error_stops_processing() {
    let chunks = parse_text(
        Provider::Gemini,
        "data: {\"error\":\"boom\"}\ndata: {\"content\":\"late\"}\ndata: [DONE]\n",
    );
    assert_eq!(chunks, vec![failure("boom")]);
}

#[test]
fn sse_ignores_noise() {
    let chunks = parse_text(
        Provider::Gemini,
        ": keep-alive\nevent: x\ndata: not json\ndata: {\"other\":1}\ndata: {\"content\":\"ok\"}\n",
    );
    assert_eq!(chunks, vec![delta("ok")]);
    assert_eq!(parse_sse_line("data:{\"content\":\"x\"}"), None);
    assert_eq!(parse_sse_line("data: [DONE]"), Some(last("")));
    assert_eq!(parse_sse_line("data: {\"content\":\"\"}"), Some(delta("")));
}

#[test]
fn sse_done_stops_processing() {
    let chunks = parse_text(Provider::Gemini, "data: [DONE]\ndata: {\"content\":\"late\"}\n");
    assert_eq!(chunks, vec![last("")]);
}

#[test]
fn json_lines_deltas_then_done() {
    let chunks = parse_text(
        Provider::Local,
        "{\"response\":\"Hel\",\"done\":false}\n{\"response\":\"lo\",\"done\":true}\n",
    );
    assert_eq!(chunks, vec![delta("Hel"), last("lo")]);
    let text: String = chunks.iter().map(|c| c.text.as_str()).collect();
    assert_eq!(text, "Hello");
}

#[test]
fn json_lines_skip_blank_and_malformed() {
    let chunks = parse_text(
        Provider::Local,
        "\n   \n{broken\n{\"response\":\"a\",\"done\":false}\n{\"response\":\"b\",\"done\":true}\n{\"response\":\"c\",\"done\":false}\n",
    );
    assert_eq!(chunks, vec![delta("a"), last("b")]);
}

#[test]
fn json_line_error_and_done_only() {
    assert_eq!(parse_json_line("{\"error\":\"model not found\"}"), Some(failure("model not found")));
    assert_eq!(parse_json_line("{\"done\":true}"), Some(last("")));
    assert_eq!(parse_json_line("[1,2]"), None);
    assert_eq!(parse_line(Provider::Local, "{\"response\":\"z\"}"), Some(delta("z")));
    assert_eq!(parse_line(Provider::Perplexity, "{\"response\":\"z\"}"), None);
}

#[test]
fn payload_members_decide_the_chunk() {
    assert_eq!(sse_payload(Some("a".to_string()), None), Some(delta("a")));
    assert_eq!(sse_payload(Some("a".to_string()), Some("e".to_string())), Some(delta("a")));
    assert_eq!(sse_payload(None, Some("e".to_string())), Some(failure("e")));
    assert_eq!(sse_payload(None, None), None);
    assert_eq!(json_line(Some("x".to_string()), Some(true), None), Some(last("x")));
    assert_eq!(json_line(Some("x".to_string()), None, None), Some(delta("x")));
    assert_eq!(json_line(None, Some(false), None), Some(delta("")));
    assert_eq!(json_line(None, None, Some("e".to_string())), Some(failure("e")));
    assert_eq!(json_line(None, None, None), None);
}

#[test]
fn json_members_are_read() {
    assert_eq!(json_text_field("{\"content\":\"Hi\"}", "content"), Some("Hi".to_string()));
    assert_eq!(json_text_field("{\"content\":3}", "content"), None);
    assert_eq!(json_text_field("{\"content\":\"a\\nb\"}", "content"), Some("a\nb".to_string()));
    assert_eq!(json_text_field("not json", "content"), None);
    assert_eq!(json_text_field("[\"content\"]", "content"), None);
    assert_eq!(json_flag_field("{\"done\":true}", "done"), Some(true));
    assert_eq!(json_flag_field("{\"done\":false}", "done"), Some(false));
    assert_eq!(json_flag_field("{\"done\":\"yes\"}", "done"), None);
}

#[test]
fn body_assembly() {
    assert_eq!(
        assemble_body(Provider::Local, "\"m\"", "\"p\""),
        "{\"model\":\"m\",\"prompt\":\"p\",\"stream\":true}"
    );
    assert_eq!(
        assemble_body(Provider::Gemini, "\"m\"", "\"p\""),
        "{\"model\":\"m\",\"prompt\":\"p\",\"temperature\":0.7,\"maxTokens\":2048,\"stream\":true}"
    );
}

#[test]
fn request_body_escapes_control_characters() {
    let r = build_request(Provider::Local, "u", "local", "a\u{1}b\tc\\d/e\u{7f}é");
    assert_eq!(
        r.body,
        "{\"model\":\"llama3\",\"prompt\":\"a\\u0001b\\tc\\\\d/e\u{7f}é\",\"stream\":true}"
    );
    let r2 = build_request(Provider::Local, "u", "local", "\u{8}\u{c}\r\u{1f}");
    assert_eq!(
        r2.body,
        "{\"model\":\"llama3\",\"prompt\":\"\\b\\f\\r\\u001f\",\"stream\":true}"
    );
}
