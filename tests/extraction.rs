use filing_extract::api::{
    backend_from_lowercase, backend_from_name, decode_envelope, plan_request, ExtractionError,
    Payload,
};
use filing_extract::batch::{
    build_markdown_for_pdf, checkpoint_path, format_duration, output_key_and_value,
    BatchProgress, DocumentDecision,
};
use filing_extract::document::{DocumentRun, DocumentStep};
use filing_extract::json::{get_field, take_field, unwrap_single_entry, wrap_single_entry};
use filing_extract::parser::{build_prompt, COMMON_PROMPT, OFFICE_BEARERS_RULES};
use filing_extract::{JsonValue, LlmBackend, LlmConfig, SectionParser};

fn s(x: &str) -> JsonValue {
    JsonValue::Str(x.to_string())
}

fn obj(entries: Vec<(&str, JsonValue)>) -> JsonValue {
    JsonValue::Object(entries.into_iter().map(|(k, v)| (k.to_string(), v)).collect())
}

fn keys(v: &JsonValue) -> Vec<String> {
    match v {
        JsonValue::Object(f) => f.iter().map(|e| e.0.clone()).collect(),
        _ => panic!("not an object"),
    }
}

fn as_str(v: &JsonValue) -> &str {
    match v {
        JsonValue::Str(t) => t.as_str(),
        _ => panic!("not a string"),
    }
}

fn config(backend: LlmBackend, key: Option<&str>) -> LlmConfig {
    LlmConfig {
        backend,
        openai_api_key: key.map(|k| k.to_string()),
        openai_model: "gpt-4.1-mini".to_string(),
        ollama_model: "qwen2.5:3b".to_string(),
        ollama_url: "http://localhost:11434".to_string(),
    }
}

#[test]
fn parsers_exist_for_the_structured_sections_only() {
    assert_eq!(SectionParser::from_section_index(0), Some(SectionParser::CompanyDetails));
    assert_eq!(SectionParser::from_section_index(4), Some(SectionParser::OfficeBearers));
    assert_eq!(SectionParser::from_section_index(6), None);
    assert_eq!(SectionParser::from_section_index(10), Some(SectionParser::ProfitAndLoss));
    assert_eq!(SectionParser::from_section_index(11), Some(SectionParser::BalanceSheet));
    assert_eq!(SectionParser::from_section_index(15), Some(SectionParser::RegistrationFee));
    assert_eq!(SectionParser::from_section_index(16), None);
}

#[test]
fn section_names_fall_back_past_the_catalog() {
    assert_eq!(SectionParser::section_name(1), "Business Details");
    assert_eq!(SectionParser::section_name(17), "Unknown Section");
}

#[test]
fn only_three_sections_have_their_own_rules() {
    assert!(SectionParser::CompanyDetails.prompt_rules().contains("KEY-VALUE"));
    assert!(SectionParser::BusinessDetails.prompt_rules().contains("Store it EXACTLY as \".\""));
    assert!(SectionParser::OfficeBearers.prompt_rules().contains("Country MUST be the LAST word"));
    assert_eq!(SectionParser::ShareHolders.prompt_rules(), "");
    assert_eq!(SectionParser::BusinessDetails.shape_name(), "BusinessDetailsList");
}

#[test]
fn prompt_is_common_rules_then_section_rules_then_content() {
    let p = build_prompt(&SectionParser::OfficeBearers, "Office Bearers", "DIRECTOR X");
    let expected = format!(
        "{}\n\n{}\n\nExtract information from the \"Office Bearers\" section.\n\nSection:\nDIRECTOR X\n",
        COMMON_PROMPT, OFFICE_BEARERS_RULES
    );
    assert_eq!(p, expected);
    let q = build_prompt(&SectionParser::ShareHolders, "Shareholders", "A 10");
    assert_eq!(
        q,
        format!("{}\n\n\n\nExtract information from the \"Shareholders\" section.\n\nSection:\nA 10\n", COMMON_PROMPT)
    );
}

#[test]
fn unwrap_of_wrap_gives_back_the_value() {
    let inner = JsonValue::Array(vec![obj(vec![("name", s("X"))])]);
    let w = wrap_single_entry("businessDetails".to_string(), JsonValue::Array(vec![obj(vec![("name", s("X"))])]));
    let u = unwrap_single_entry(w);
    assert_eq!(format!("{:?}", u), format!("{:?}", inner));
}

#[test]
fn objects_with_several_entries_are_not_unwrapped() {
    let v = obj(vec![("a", s("1")), ("b", s("2"))]);
    let u = unwrap_single_entry(v);
    assert_eq!(keys(&u), vec!["a", "b"]);
    let n = unwrap_single_entry(JsonValue::Null);
    assert!(matches!(n, JsonValue::Null));
}

#[test]
fn single_key_wrapper_is_stored_unwrapped() {
    let decoded = obj(vec![("businessDetails", JsonValue::Array(vec![obj(vec![("name", s("X"))])]))]);
    let (key, value) = output_key_and_value(1, decoded).unwrap();
    assert_eq!(key, "businessDetails");
    match value {
        JsonValue::Array(items) => {
            assert_eq!(items.len(), 1);
            assert_eq!(keys(&items[0]), vec!["name"]);
            assert_eq!(as_str(get_field(&items[0], "name").unwrap()), "X");
        }
        other => panic!("expected the inner array, got {:?}", other),
    }
}

#[test]
fn output_keys_of_stored_sections() {
    assert_eq!(output_key_and_value(0, JsonValue::Null).unwrap().0, "companyDetails");
    assert_eq!(output_key_and_value(4, JsonValue::Null).unwrap().0, "officeBearers");
    assert_eq!(output_key_and_value(5, JsonValue::Null).unwrap().0, "shareHolders");
    assert!(output_key_and_value(2, JsonValue::Null).is_none());
    assert!(output_key_and_value(15, JsonValue::Null).is_none());
}

#[test]
fn field_lookup_takes_the_first_entry() {
    let v = obj(vec![("a", s("1")), ("a", s("2")), ("b", s("3"))]);
    assert_eq!(as_str(get_field(&v, "a").unwrap()), "1");
    assert!(get_field(&v, "c").is_none());
    assert!(get_field(&JsonValue::Null, "a").is_none());
    assert_eq!(as_str(&take_field(v, "b").unwrap()), "3");
}

#[test]
fn local_request_body_has_the_wire_field_names() {
    let cfg = config(LlmBackend::Ollama, None);
    let req = plan_request(&cfg, &SectionParser::CompanyDetails, "PROMPT", s("SCHEMA")).unwrap();
    assert_eq!(req.url, "http://localhost:11434/api/chat");
    assert!(req.bearer_token.is_none());
    assert_eq!(keys(&req.body), vec!["model", "messages", "stream", "format"]);
    assert_eq!(as_str(get_field(&req.body, "model").unwrap()), "qwen2.5:3b");
    assert!(matches!(get_field(&req.body, "stream"), Some(JsonValue::Bool(false))));
    assert_eq!(as_str(get_field(&req.body, "format").unwrap()), "SCHEMA");
    match get_field(&req.body, "messages") {
        Some(JsonValue::Array(m)) => {
            assert_eq!(m.len(), 1);
            assert_eq!(as_str(get_field(&m[0], "role").unwrap()), "user");
            assert_eq!(as_str(get_field(&m[0], "content").unwrap()), "PROMPT");
        }
        _ => panic!("messages missing"),
    }
}

#[test]
fn hosted_request_body_has_the_wire_field_names() {
    let cfg = config(LlmBackend::OpenAI, Some("SECRET-REDACTED"));
    let req = plan_request(&cfg, &SectionParser::OfficeBearers, "PROMPT", s("SCHEMA")).unwrap();
    assert_eq!(req.url, "https://api.openai.com/v1/responses");
    assert_eq!(req.bearer_token.as_deref(), Some("SECRET-REDACTED"));
    assert_eq!(keys(&req.body), vec!["model", "input", "response_format"]);
    assert_eq!(as_str(get_field(&req.body, "model").unwrap()), "gpt-4.1-mini");
    let fmt = get_field(&req.body, "response_format").unwrap();
    assert_eq!(as_str(get_field(fmt, "type").unwrap()), "json_schema");
    let js = get_field(fmt, "json_schema").unwrap();
    assert_eq!(as_str(get_field(js, "name").unwrap()), "OfficeBearerList");
    assert_eq!(as_str(get_field(js, "schema").unwrap()), "SCHEMA");
    match get_field(&req.body, "input") {
        Some(JsonValue::Array(i)) => {
            assert_eq!(as_str(get_field(&i[0], "role").unwrap()), "user");
            match get_field(&i[0], "content") {
                Some(JsonValue::Array(c)) => {
                    assert_eq!(as_str(get_field(&c[0], "type").unwrap()), "input_text");
                    assert_eq!(as_str(get_field(&c[0], "text").unwrap()), "PROMPT");
                }
                _ => panic!("content missing"),
            }
        }
        _ => panic!("input missing"),
    }
}

#[test]
fn hosted_backend_without_credential_is_a_config_error() {
    let cfg = config(LlmBackend::OpenAI, None);
    let r = plan_request(&cfg, &SectionParser::CompanyDetails, "P", JsonValue::Null);
    assert!(matches!(r, Err(ExtractionError::Config)));
}

#[test]
fn error_status_is_a_transport_error() {
    let body = obj(vec![("message", obj(vec![("content", s("{}"))]))]);
    assert!(matches!(decode_envelope(LlmBackend::Ollama, 500, body), Err(ExtractionError::Transport)));
    assert!(matches!(decode_envelope(LlmBackend::OpenAI, 404, JsonValue::Null), Err(ExtractionError::Transport)));
    assert!(matches!(decode_envelope(LlmBackend::Ollama, 304, JsonValue::Null), Err(ExtractionError::Transport)));
    assert!(matches!(decode_envelope(LlmBackend::OpenAI, 101, JsonValue::Null), Err(ExtractionError::Transport)));
    let ok = obj(vec![("output_parsed", JsonValue::Null)]);
    assert!(matches!(decode_envelope(LlmBackend::OpenAI, 299, ok), Ok(Payload::Value(JsonValue::Null))));
}

#[test]
fn local_envelope_yields_the_content_text() {
    let body = obj(vec![("message", obj(vec![("role", s("assistant")), ("content", s("{\"a\":1}"))]))]);
    match decode_envelope(LlmBackend::Ollama, 200, body) {
        Ok(Payload::Text(t)) => assert_eq!(t, "{\"a\":1}"),
        _ => panic!("expected text"),
    }
    let bad = obj(vec![("message", obj(vec![("content", JsonValue::Null)]))]);
    assert!(matches!(decode_envelope(LlmBackend::Ollama, 200, bad), Err(ExtractionError::Decode)));
}

#[test]
fn hosted_envelope_yields_the_parsed_value() {
    let body = obj(vec![("id", s("r1")), ("output_parsed", obj(vec![("amount", s("100"))]))]);
    match decode_envelope(LlmBackend::OpenAI, 200, body) {
        Ok(Payload::Value(v)) => assert_eq!(as_str(get_field(&v, "amount").unwrap()), "100"),
        _ => panic!("expected a value"),
    }
    assert!(matches!(decode_envelope(LlmBackend::OpenAI, 200, obj(vec![])), Err(ExtractionError::Decode)));
}

#[test]
fn backend_names_are_case_insensitive() {
    assert_eq!(backend_from_name("OpenAI"), LlmBackend::OpenAI);
    assert_eq!(backend_from_name("OPENAI"), LlmBackend::OpenAI);
    assert_eq!(backend_from_name("ollama"), LlmBackend::Ollama);
    assert_eq!(backend_from_name("something"), LlmBackend::Ollama);
    assert_eq!(backend_from_lowercase("openai"), LlmBackend::OpenAI);
    assert_eq!(backend_from_lowercase("OpenAI"), LlmBackend::Ollama);
}

#[test]
fn config_defaults_apply_to_unset_settings() {
    let c = LlmConfig::from_settings(None, None, None, None, None);
    assert_eq!(c.backend, LlmBackend::Ollama);
    assert_eq!(c.openai_model, "gpt-4.1-mini");
    assert_eq!(c.ollama_model, "qwen2.5:3b");
    assert_eq!(c.ollama_url, "http://localhost:11434");
    assert!(c.openai_api_key.is_none());
    let d = LlmConfig::from_settings(Some("OpenAI"), Some("k".to_string()), Some("m".to_string()), None, Some("http://h:1".to_string()));
    assert_eq!(d.backend, LlmBackend::OpenAI);
    assert_eq!(d.openai_api_key.as_deref(), Some("k"));
    assert_eq!(d.openai_model, "m");
    assert_eq!(d.ollama_url, "http://h:1");
}

#[test]
fn checkpoint_path_is_under_the_output_dir() {
    assert_eq!(checkpoint_path("out", "77"), "out/77.json");
}

#[test]
fn durations_are_minutes_and_seconds() {
    assert_eq!(format_duration(0), "0m 0s");
    assert_eq!(format_duration(59), "0m 59s");
    assert_eq!(format_duration(125), "2m 5s");
    assert_eq!(format_duration(3600), "60m 0s");
}

#[test]
fn progress_reports_mean_based_eta() {
    let mut b = BatchProgress::new(4);
    assert_eq!(b.decide(true), DocumentDecision::Skip);
    assert_eq!(b.decide(false), DocumentDecision::Process);
    let r = b.finish_document(120_000_000_000);
    assert_eq!(r.completed, 2);
    assert_eq!(r.total, 4);
    assert_eq!(r.elapsed, "2m 0s");
    assert_eq!(r.eta, "2m 0s");
}

#[test]
fn second_run_skips_every_written_document() {
    let stems = ["a", "b"];
    let mut written: Vec<String> = Vec::new();
    let mut first = BatchProgress::new(stems.len());
    for st in stems.iter() {
        let path = checkpoint_path("out", st);
        if first.decide(written.contains(&path)) == DocumentDecision::Process {
            written.push(path);
            first.finish_document(1);
        }
    }
    assert_eq!(written.len(), 2);
    let mut second = BatchProgress::new(stems.len());
    for st in stems.iter() {
        let path = checkpoint_path("out", st);
        assert_eq!(second.decide(written.contains(&path)), DocumentDecision::Skip);
    }
}

fn record_keys(run: DocumentRun) -> Vec<String> {
    keys(&run.into_record())
}

#[test]
fn blank_sections_are_never_sent() {
    let text = "preamble\n   \nBusiness Details\nBeta Ltd".to_string();
    let mut run = DocumentRun::new("doc".to_string(), text, vec![0, 1]);
    match run.next_step() {
        DocumentStep::Extract { section_index, parser, prompt } => {
            assert_eq!(section_index, 1);
            assert_eq!(parser, SectionParser::BusinessDetails);
            assert!(prompt.contains("Section:\nBusiness Details\nBeta Ltd\n"));
        }
        DocumentStep::Finish => panic!("section 1 needs a call"),
    }
    run.complete_section(Ok(obj(vec![("businessDetails", JsonValue::Array(vec![]))])));
    assert!(matches!(run.next_step(), DocumentStep::Finish));
    assert_eq!(record_keys(run), vec!["filename", "businessDetails"]);
}

#[test]
fn transport_error_on_office_bearers_keeps_earlier_sections() {
    let text = "Company Details\nAlpha\nBusiness Details\nBeta\nOffice Bearers\nDIRECTOR X".to_string();
    let mut run = DocumentRun::new("77".to_string(), text, vec![0, 1, 4]);
    let mut seen = Vec::new();
    loop {
        match run.next_step() {
            DocumentStep::Extract { section_index, .. } => {
                seen.push(section_index);
                if section_index == 4 {
                    let failure = run.complete_section(Err(ExtractionError::Transport)).unwrap();
                    assert_eq!(failure.section_index, 4);
                    assert_eq!(failure.section_name, "Office Bearers");
                    assert_eq!(failure.cause, ExtractionError::Transport);
                } else {
                    run.complete_section(Ok(obj(vec![("name", s("n")), ("k", s("v"))])));
                }
            }
            DocumentStep::Finish => break,
        }
    }
    assert_eq!(seen, vec![0, 1, 4]);
    assert!(matches!(run.next_step(), DocumentStep::Finish));
    let rec = run.into_record();
    assert_eq!(keys(&rec), vec!["filename", "companyDetails", "businessDetails"]);
    assert_eq!(as_str(get_field(&rec, "filename").unwrap()), "77");
}

#[test]
fn all_failures_leave_only_the_filename() {
    let text = "Company Details\nAlpha".to_string();
    let mut run = DocumentRun::new("x".to_string(), text, vec![0, 2, 6]);
    while let DocumentStep::Extract { .. } = run.next_step() {
        run.complete_section(Err(ExtractionError::Decode));
    }
    assert_eq!(record_keys(run), vec!["filename"]);
}

#[test]
fn markdown_lists_non_blank_sections() {
    let text = "Company Details\nAlpha Corp\nBusiness Details\n\nOffice Bearers\nX";
    let md = build_markdown_for_pdf("77", text, &[0, 1, 4, 5, 20]);
    assert_eq!(
        md,
        "# Extracted Sections from `77`\n\n## Company Details\n\nCompany Details\nAlpha Corp\n\n---\n\n## Business Details\n\nBusiness Details\n\n---\n\n## Office Bearers\n\nOffice Bearers\nX\n\n---\n\n"
    );
}

#[test]
fn each_requested_section_is_sent_once_in_order() {
    let text = "Shareholders\nA\nCompany Details\nAlpha\nOffice Bearers\nX".to_string();
    let mut run = DocumentRun::new("d".to_string(), text, vec![0, 1, 4, 5, 2]);
    let mut seen = Vec::new();
    while let DocumentStep::Extract { section_index, .. } = run.next_step() {
        seen.push(section_index);
        run.complete_section(Ok(JsonValue::Null));
    }
    assert_eq!(seen, vec![0, 4, 5]);
    assert_eq!(record_keys(run), vec!["filename", "companyDetails", "officeBearers", "shareHolders"]);
}
