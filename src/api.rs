//! The two language-model backends: their configuration, the request bodies
//! sent to them, and the envelopes they answer with.
use vstd::prelude::*;

use crate::json::{field_of, get_field, is_str, key_is, take_field, JsonValue};
use crate::parser::{shape_name_spec, SectionParser};
use crate::text::{chars_equal, chars_of};

verus! {

/// Which backend serves extraction calls.
#[derive(Debug, Clone, Copy, PartialEq, Eq, Structural)]
pub enum LlmBackend {
    Ollama,
    OpenAI,
}

/// Process-wide backend configuration, settled once at start-up.
#[derive(Debug, Clone)]
pub struct LlmConfig {
    pub backend: LlmBackend,
    pub openai_api_key: Option<String>,
    pub openai_model: String,
    pub ollama_model: String,
    pub ollama_url: String,
}

/// What `str::to_lowercase` makes of a text.
pub uninterp spec fn lowercase_of(s: Seq<char>) -> Seq<char>;

/// Relies on `str::to_lowercase`: the lowercase form depends on the characters alone.
#[verifier::external_body]
fn lowercase(s: &str) -> (r: String)
    ensures
        r@ == lowercase_of(s@),
{
    s.to_lowercase()
}

/// The backend a lowercase backend name selects: "openai" selects the hosted
/// backend, anything else the local one.
pub open spec fn backend_named(lower: Seq<char>) -> LlmBackend {
    if lower == "openai"@ {
        LlmBackend::OpenAI
    } else {
        LlmBackend::Ollama
    }
}

/// The backend selected by a name already in lowercase.
pub fn backend_from_lowercase(lower: &str) -> (r: LlmBackend)
    ensures
        r == backend_named(lower@),
{
    let a = chars_of(lower);
    let b = chars_of("openai");
    if chars_equal(&a, &b) {
        LlmBackend::OpenAI
    } else {
        LlmBackend::Ollama
    }
}

/// The backend selected by a name, whatever its case.
pub fn backend_from_name(name: &str) -> (r: LlmBackend)
    ensures
        r == backend_named(lowercase_of(name@)),
{
    let lower = lowercase(name);
    backend_from_lowercase(lower.as_str())
}

/// The value of a setting, or its default when unset.
fn setting_or(v: Option<String>, default: &str) -> (r: String)
    ensures
        r@ == (match v {
            Some(s) => s@,
            None => default@,
        }),
{
    match v {
        Some(s) => s,
        None => default.to_owned(),
    }
}

impl LlmConfig {
    /// The configuration from the settings that are set: the backend name
    /// (local when unset), the hosted credential and model, and the local
    /// model and base URL.
    pub fn from_settings(
        backend: Option<&str>,
        openai_api_key: Option<String>,
        openai_model: Option<String>,
        ollama_model: Option<String>,
        ollama_url: Option<String>,
    ) -> (r: LlmConfig)
        ensures
            r.backend == (match backend {
                Some(b) => backend_named(lowercase_of(b@)),
                None => LlmBackend::Ollama,
            }),
            r.openai_api_key == openai_api_key,
            r.openai_model@ == (match openai_model {
                Some(s) => s@,
                None => "gpt-4.1-mini"@,
            }),
            r.ollama_model@ == (match ollama_model {
                Some(s) => s@,
                None => "qwen2.5:3b"@,
            }),
            r.ollama_url@ == (match ollama_url {
                Some(s) => s@,
                None => "http://localhost:11434"@,
            }),
    {
        let backend = match backend {
            Some(b) => backend_from_name(b),
            None => LlmBackend::Ollama,
        };
        LlmConfig {
            backend,
            openai_api_key,
            openai_model: setting_or(openai_model, "gpt-4.1-mini"),
            ollama_model: setting_or(ollama_model, "qwen2.5:3b"),
            ollama_url: setting_or(ollama_url, "http://localhost:11434"),
        }
    }
}

/// `v` is an object whose keys are `ks`, in that order.
pub open spec fn keys_are(v: JsonValue, ks: Seq<Seq<char>>) -> bool {
    &&& v is Object
    &&& v->Object_0@.len() == ks.len()
    &&& forall|i: int| 0 <= i < ks.len() ==> key_is(#[trigger] v->Object_0@[i], ks[i])
}

/// The value of entry `i` of object `v`.
pub open spec fn entry_value(v: JsonValue, i: int) -> JsonValue {
    v->Object_0@[i].1
}

/// An object with its entries in the order given.
fn object_of(entries: Vec<(String, JsonValue)>) -> (r: JsonValue)
    ensures
        r == JsonValue::Object(entries),
{
    JsonValue::Object(entries)
}

/// One chat message of a local chat request.
pub struct Message<'a> {
    pub role: &'a str,
    pub content: &'a str,
}

impl<'a> Message<'a> {
    /// `v` is the JSON form of this message.
    pub open spec fn json_form(self, v: JsonValue) -> bool {
        &&& keys_are(v, seq!["role"@, "content"@])
        &&& is_str(entry_value(v, 0), self.role@)
        &&& is_str(entry_value(v, 1), self.content@)
    }

    /// The JSON form of this message.
    pub fn to_json(&self) -> (r: JsonValue)
        ensures
            self.json_form(r),
    {
        let mut e: Vec<(String, JsonValue)> = Vec::new();
        e.push(("role".to_owned(), JsonValue::Str(self.role.to_owned())));
        e.push(("content".to_owned(), JsonValue::Str(self.content.to_owned())));
        proof {
            reveal_strlit("role");
            reveal_strlit("content");
        }
        object_of(e)
    }
}

/// A request to the local chat backend.
pub struct OllamaChatRequest<'a> {
    pub model: &'a str,
    pub messages: Vec<Message<'a>>,
    pub stream: bool,
    pub format: JsonValue,
}

impl<'a> OllamaChatRequest<'a> {
    /// `v` is the JSON form of this request.
    pub open spec fn json_form(self, v: JsonValue) -> bool {
        &&& keys_are(v, seq!["model"@, "messages"@, "stream"@, "format"@])
        &&& is_str(entry_value(v, 0), self.model@)
        &&& entry_value(v, 1) is Array
        &&& entry_value(v, 1)->Array_0@.len() == self.messages@.len()
        &&& forall|i: int|
            0 <= i < self.messages@.len() ==> (#[trigger] self.messages@[i]).json_form(
                entry_value(v, 1)->Array_0@[i],
            )
        &&& entry_value(v, 2) == JsonValue::Bool(self.stream)
        &&& entry_value(v, 3) == self.format
    }

    /// The JSON form of this request.
    pub fn into_json(self) -> (r: JsonValue)
        ensures
            self.json_form(r),
    {
        let OllamaChatRequest { model, messages, stream, format } = self;
        let mut ms: Vec<JsonValue> = Vec::new();
        for i in 0..messages.len()
            invariant
                ms@.len() == i,
                forall|j: int| 0 <= j < i ==> (#[trigger] messages@[j]).json_form(ms@[j]),
        {
            ms.push(messages[i].to_json());
        }
        let mut e: Vec<(String, JsonValue)> = Vec::new();
        e.push(("model".to_owned(), JsonValue::Str(model.to_owned())));
        e.push(("messages".to_owned(), JsonValue::Array(ms)));
        e.push(("stream".to_owned(), JsonValue::Bool(stream)));
        e.push(("format".to_owned(), format));
        proof {
            reveal_strlit("model");
            reveal_strlit("messages");
            reveal_strlit("stream");
            reveal_strlit("format");
        }
        object_of(e)
    }
}

/// One piece of content of a hosted request's input.
pub struct OpenAIContent {
    /// The content's type tag, sent under the key `type`.
    pub kind: String,
    pub text: String,
}

impl OpenAIContent {
    /// `v` is the JSON form of this content.
    pub open spec fn json_form(self, v: JsonValue) -> bool {
        &&& keys_are(v, seq!["type"@, "text"@])
        &&& is_str(entry_value(v, 0), self.kind@)
        &&& is_str(entry_value(v, 1), self.text@)
    }

    /// The JSON form of this content.
    pub fn into_json(self) -> (r: JsonValue)
        ensures
            self.json_form(r),
    {
        let mut e: Vec<(String, JsonValue)> = Vec::new();
        e.push(("type".to_owned(), JsonValue::Str(self.kind)));
        e.push(("text".to_owned(), JsonValue::Str(self.text)));
        proof {
            reveal_strlit("type");
            reveal_strlit("text");
        }
        object_of(e)
    }
}

/// One input message of a hosted request.
pub struct OpenAIInput {
    pub role: String,
    pub content: Vec<OpenAIContent>,
}

impl OpenAIInput {
    /// `v` is the JSON form of this input.
    pub open spec fn json_form(self, v: JsonValue) -> bool {
        &&& keys_are(v, seq!["role"@, "content"@])
        &&& is_str(entry_value(v, 0), self.role@)
        &&& entry_value(v, 1) is Array
        &&& entry_value(v, 1)->Array_0@.len() == self.content@.len()
        &&& forall|i: int|
            0 <= i < self.content@.len() ==> (#[trigger] self.content@[i]).json_form(
                entry_value(v, 1)->Array_0@[i],
            )
    }

    /// The JSON form of this input.
    pub fn into_json(self) -> (r: JsonValue)
        ensures
            self.json_form(r),
    {
        let OpenAIInput { role, content } = self;
        let ghost all = content@;
        let mut rest = content;
        let mut cs: Vec<JsonValue> = Vec::new();
        while rest.len() > 0
            invariant
                all.len() == cs@.len() + rest@.len(),
                forall|j: int| 0 <= j < cs@.len() ==> (#[trigger] all[j]).json_form(cs@[j]),
                forall|j: int| 0 <= j < rest@.len() ==> rest@[j] == all[cs@.len() + j],
            decreases rest@.len(),
        {
            let c = rest.remove(0);
            cs.push(c.into_json());
        }
        let mut e: Vec<(String, JsonValue)> = Vec::new();
        e.push(("role".to_owned(), JsonValue::Str(role)));
        e.push(("content".to_owned(), JsonValue::Array(cs)));
        proof {
            reveal_strlit("role");
            reveal_strlit("content");
        }
        object_of(e)
    }
}

/// The schema part of a hosted request's response format.
pub struct OpenAIJsonSchema {
    pub name: String,
    pub schema: JsonValue,
}

/// The response format of a hosted request.
pub struct OpenAIResponseFormat {
    /// The format's type tag, sent under the key `type`.
    pub kind: String,
    pub json_schema: OpenAIJsonSchema,
}

impl OpenAIResponseFormat {
    /// `v` is the JSON form of this response format.
    pub open spec fn json_form(self, v: JsonValue) -> bool {
        &&& keys_are(v, seq!["type"@, "json_schema"@])
        &&& is_str(entry_value(v, 0), self.kind@)
        &&& keys_are(entry_value(v, 1), seq!["name"@, "schema"@])
        &&& is_str(entry_value(entry_value(v, 1), 0), self.json_schema.name@)
        &&& entry_value(entry_value(v, 1), 1) == self.json_schema.schema
    }

    /// The JSON form of this response format.
    pub fn into_json(self) -> (r: JsonValue)
        ensures
            self.json_form(r),
    {
        let OpenAIResponseFormat { kind, json_schema } = self;
        let mut s: Vec<(String, JsonValue)> = Vec::new();
        s.push(("name".to_owned(), JsonValue::Str(json_schema.name)));
        s.push(("schema".to_owned(), json_schema.schema));
        let mut e: Vec<(String, JsonValue)> = Vec::new();
        e.push(("type".to_owned(), JsonValue::Str(kind)));
        e.push(("json_schema".to_owned(), object_of(s)));
        proof {
            reveal_strlit("name");
            reveal_strlit("schema");
            reveal_strlit("type");
            reveal_strlit("json_schema");
        }
        object_of(e)
    }
}

/// A request to the hosted structured-output backend.
pub struct OpenAIRequest {
    pub model: String,
    pub input: Vec<OpenAIInput>,
    pub response_format: OpenAIResponseFormat,
}

impl OpenAIRequest {
    /// `v` is the JSON form of this request.
    pub open spec fn json_form(self, v: JsonValue) -> bool {
        &&& keys_are(v, seq!["model"@, "input"@, "response_format"@])
        &&& is_str(entry_value(v, 0), self.model@)
        &&& entry_value(v, 1) is Array
        &&& entry_value(v, 1)->Array_0@.len() == self.input@.len()
        &&& forall|i: int|
            0 <= i < self.input@.len() ==> (#[trigger] self.input@[i]).json_form(
                entry_value(v, 1)->Array_0@[i],
            )
        &&& self.response_format.json_form(entry_value(v, 2))
    }

    /// The JSON form of this request.
    pub fn into_json(self) -> (r: JsonValue)
        ensures
            self.json_form(r),
    {
        let OpenAIRequest { model, input, response_format } = self;
        let ghost all = input@;
        let mut rest = input;
        let mut is: Vec<JsonValue> = Vec::new();
        while rest.len() > 0
            invariant
                all.len() == is@.len() + rest@.len(),
                forall|j: int| 0 <= j < is@.len() ==> (#[trigger] all[j]).json_form(is@[j]),
                forall|j: int| 0 <= j < rest@.len() ==> rest@[j] == all[is@.len() + j],
            decreases rest@.len(),
        {
            let c = rest.remove(0);
            is.push(c.into_json());
        }
        let mut e: Vec<(String, JsonValue)> = Vec::new();
        e.push(("model".to_owned(), JsonValue::Str(model)));
        e.push(("input".to_owned(), JsonValue::Array(is)));
        e.push(("response_format".to_owned(), response_format.into_json()));
        proof {
            reveal_strlit("model");
            reveal_strlit("input");
            reveal_strlit("response_format");
        }
        object_of(e)
    }
}

/// The message part of a local chat response.
pub struct MessageResponse {
    pub content: String,
}

/// A local chat response: the model's answer is JSON written as text.
pub struct OllamaChatResponse {
    pub message: MessageResponse,
}

/// The text under `message.content` of a local chat response, when it is there
/// and is a string.
pub open spec fn chat_content(v: JsonValue) -> Option<Seq<char>> {
    match field_of(v, "message"@) {
        Some(m) => match field_of(m, "content"@) {
            Some(c) => if c is Str {
                Some(c->Str_0@)
            } else {
                None
            },
            None => None,
        },
        None => None,
    }
}

impl OllamaChatResponse {
    /// Reads a local chat response out of its JSON body.
    pub fn from_json(v: &JsonValue) -> (r: Option<Self>)
        ensures
            r matches Some(x) ==> chat_content(*v) == Some(x.message.content@),
            r is None ==> chat_content(*v) is None,
    {
        match get_field(v, "message") {
            Some(m) => match get_field(m, "content") {
                Some(JsonValue::Str(c)) => Some(
                    OllamaChatResponse { message: MessageResponse { content: c.clone() } },
                ),
                _ => None,
            },
            None => None,
        }
    }
}

/// A hosted response: the structured value comes already decoded.
pub struct OpenAIResponse {
    pub output_parsed: JsonValue,
}

impl OpenAIResponse {
    /// Reads a hosted response out of its JSON body.
    pub fn from_json(v: JsonValue) -> (r: Option<Self>)
        ensures
            r matches Some(x) ==> field_of(v, "output_parsed"@) == Some(x.output_parsed),
            r is None ==> field_of(v, "output_parsed"@) is None,
    {
        match take_field(v, "output_parsed") {
            Some(x) => Some(OpenAIResponse { output_parsed: x }),
            None => None,
        }
    }
}

/// Why one extraction call failed.
#[derive(Debug, Clone, Copy, PartialEq, Eq, Structural)]
pub enum ExtractionError {
    /// The hosted backend is selected and no credential is configured.
    Config,
    /// The backend could not be reached or answered with an error status.
    Transport,
    /// The answer is not valid JSON or does not have the expected shape.
    Decode,
}

/// An HTTP request to send: a POST of `body` to `url`.
pub struct HttpRequest {
    pub url: String,
    pub bearer_token: Option<String>,
    pub body: JsonValue,
}

/// The local chat body: the model, one user message holding the prompt, no
/// streaming, and the schema as the required format.
pub open spec fn ollama_body(model: Seq<char>, prompt: Seq<char>, schema: JsonValue, v: JsonValue) -> bool {
    &&& keys_are(v, seq!["model"@, "messages"@, "stream"@, "format"@])
    &&& is_str(entry_value(v, 0), model)
    &&& entry_value(v, 1) is Array
    &&& entry_value(v, 1)->Array_0@.len() == 1
    &&& keys_are(entry_value(v, 1)->Array_0@[0], seq!["role"@, "content"@])
    &&& is_str(entry_value(entry_value(v, 1)->Array_0@[0], 0), "user"@)
    &&& is_str(entry_value(entry_value(v, 1)->Array_0@[0], 1), prompt)
    &&& entry_value(v, 2) == JsonValue::Bool(false)
    &&& entry_value(v, 3) == schema
}

/// The hosted body: the model, one user input holding the prompt as input
/// text, and a JSON-schema response format named after the shape.
pub open spec fn openai_body(
    model: Seq<char>,
    prompt: Seq<char>,
    name: Seq<char>,
    schema: JsonValue,
    v: JsonValue,
) -> bool {
    let input = entry_value(v, 1)->Array_0@[0];
    let content = entry_value(input, 1)->Array_0@[0];
    let format = entry_value(v, 2);
    &&& keys_are(v, seq!["model"@, "input"@, "response_format"@])
    &&& is_str(entry_value(v, 0), model)
    &&& entry_value(v, 1) is Array
    &&& entry_value(v, 1)->Array_0@.len() == 1
    &&& keys_are(input, seq!["role"@, "content"@])
    &&& is_str(entry_value(input, 0), "user"@)
    &&& entry_value(input, 1) is Array
    &&& entry_value(input, 1)->Array_0@.len() == 1
    &&& keys_are(content, seq!["type"@, "text"@])
    &&& is_str(entry_value(content, 0), "input_text"@)
    &&& is_str(entry_value(content, 1), prompt)
    &&& keys_are(format, seq!["type"@, "json_schema"@])
    &&& is_str(entry_value(format, 0), "json_schema"@)
    &&& keys_are(entry_value(format, 1), seq!["name"@, "schema"@])
    &&& is_str(entry_value(entry_value(format, 1), 0), name)
    &&& entry_value(entry_value(format, 1), 1) == schema
}

/// The address of the local chat endpoint under a base URL.
pub open spec fn chat_url(base: Seq<char>) -> Seq<char> {
    base + "/api/chat"@
}

/// `q` sends `prompt` and `schema` to the local chat backend of `config`.
pub open spec fn ollama_request(config: &LlmConfig, prompt: Seq<char>, schema: JsonValue, q: HttpRequest) -> bool {
    &&& q.url@ == chat_url(config.ollama_url@)
    &&& q.bearer_token is None
    &&& ollama_body(config.ollama_model@, prompt, schema, q.body)
}

/// `q` sends `prompt` and `schema` to the hosted backend of `config`, with its
/// credential.
pub open spec fn openai_request(
    config: &LlmConfig,
    parser: SectionParser,
    prompt: Seq<char>,
    schema: JsonValue,
    q: HttpRequest,
) -> bool {
    &&& q.url@ == "https://api.openai.com/v1/responses"@
    &&& q.bearer_token is Some
    &&& config.openai_api_key is Some
    &&& q.bearer_token->Some_0@ == config.openai_api_key->Some_0@
    &&& openai_body(config.openai_model@, prompt, shape_name_spec(parser), schema, q.body)
}

/// The request for one extraction call: the prompt and the shape's schema,
/// sent to the configured backend.
pub fn plan_request(config: &LlmConfig, parser: &SectionParser, prompt: &str, schema: JsonValue) -> (r:
    Result<HttpRequest, ExtractionError>)
    ensures
        config.backend == LlmBackend::Ollama ==> r is Ok && ollama_request(
            config,
            prompt@,
            schema,
            r->Ok_0,
        ),
        config.backend == LlmBackend::OpenAI && config.openai_api_key is None ==> r == Err::<
            HttpRequest,
            ExtractionError,
        >(ExtractionError::Config),
        config.backend == LlmBackend::OpenAI && config.openai_api_key is Some ==> r is Ok
            && openai_request(config, *parser, prompt@, schema, r->Ok_0),
{
    match config.backend {
        LlmBackend::Ollama => {
            let mut messages: Vec<Message> = Vec::new();
            messages.push(Message { role: "user", content: prompt });
            let req = OllamaChatRequest {
                model: config.ollama_model.as_str(),
                messages,
                stream: false,
                format: schema,
            };
            let ghost rq = req;
            let body = req.into_json();
            proof {
                assert(rq.messages@[0].json_form(entry_value(body, 1)->Array_0@[0]));
            }
            let mut url = config.ollama_url.clone();
            url.append("/api/chat");
            Ok(HttpRequest { url, bearer_token: None, body })
        },
        LlmBackend::OpenAI => {
            let key = match &config.openai_api_key {
                Some(k) => k.clone(),
                None => {
                    return Err(ExtractionError::Config);
                },
            };
            let mut content: Vec<OpenAIContent> = Vec::new();
            content.push(OpenAIContent { kind: "input_text".to_owned(), text: prompt.to_owned() });
            let mut input: Vec<OpenAIInput> = Vec::new();
            input.push(OpenAIInput { role: "user".to_owned(), content });
            let req = OpenAIRequest {
                model: config.openai_model.clone(),
                input,
                response_format: OpenAIResponseFormat {
                    kind: "json_schema".to_owned(),
                    json_schema: OpenAIJsonSchema {
                        name: parser.shape_name().to_owned(),
                        schema,
                    },
                },
            };
            let ghost rq = req;
            let body = req.into_json();
            proof {
                let i = rq.input@[0];
                assert(i.json_form(entry_value(body, 1)->Array_0@[0]));
                assert(i.content@[0].json_form(
                    entry_value(entry_value(body, 1)->Array_0@[0], 1)->Array_0@[0],
                ));
            }
            Ok(
                HttpRequest {
                    url: "https://api.openai.com/v1/responses".to_owned(),
                    bearer_token: Some(key),
                    body,
                },
            )
        },
    }
}

/// What an extraction call's answer holds once its envelope is taken off: JSON
/// still written as text, or a value already decoded.
pub enum Payload {
    Text(String),
    Value(JsonValue),
}

/// An HTTP status other than success (2xx).
pub open spec fn is_error_status(status: u16) -> bool {
    !(200 <= status < 300)
}

/// Takes the backend's envelope off an answer with status `status` and JSON
/// body `body`.
pub fn decode_envelope(backend: LlmBackend, status: u16, body: JsonValue) -> (r: Result<
    Payload,
    ExtractionError,
>)
    ensures
        is_error_status(status) ==> r == Err::<Payload, ExtractionError>(
            ExtractionError::Transport,
        ),
        !is_error_status(status) && backend == LlmBackend::Ollama ==> match chat_content(body) {
            Some(c) => r matches Ok(Payload::Text(t)) && t@ == c,
            None => r == Err::<Payload, ExtractionError>(ExtractionError::Decode),
        },
        !is_error_status(status) && backend == LlmBackend::OpenAI ==> match field_of(
            body,
            "output_parsed"@,
        ) {
            Some(x) => r == Ok::<Payload, ExtractionError>(Payload::Value(x)),
            None => r == Err::<Payload, ExtractionError>(ExtractionError::Decode),
        },
{
    if status < 200 || status >= 300 {
        return Err(ExtractionError::Transport);
    }
    match backend {
        LlmBackend::Ollama => match OllamaChatResponse::from_json(&body) {
            Some(resp) => Ok(Payload::Text(resp.message.content)),
            None => Err(ExtractionError::Decode),
        },
        LlmBackend::OpenAI => match OpenAIResponse::from_json(body) {
            Some(resp) => Ok(Payload::Value(resp.output_parsed)),
            None => Err(ExtractionError::Decode),
        },
    }
}

} // verus!
