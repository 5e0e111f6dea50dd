//! The provider client: what is sent to a chat endpoint, and how its answer
//! is read. Sending and receiving are the caller's.

use crate::adapter::{pairs_view, profile_of, AdapterProfile, Profile};
use crate::json::{
    items_view, json_of, lemma_items_view, lemma_members_view, members_view, parse, Json,
    JsonValue,
};
use crate::sse::{Event, StreamEvent};
use crate::text::{contains, str_contains};
use vstd::prelude::*;
use vstd::string::StringExecFns;

verus! {

/// Who speaks in a message.
#[derive(Clone, Copy, Debug, PartialEq, Eq, Structural)]
pub enum Role {
    System,
    User,
    Assistant,
}

impl Role {
    /// The name by which the wire format calls the role.
    pub open spec fn name(self) -> Seq<char> {
        match self {
            Role::System => "system"@,
            Role::User => "user"@,
            Role::Assistant => "assistant"@,
        }
    }

    /// The name by which the wire format calls the role.
    pub fn as_str(&self) -> (r: &'static str)
        ensures
            r@ == self.name(),
    {
        match self {
            Role::System => "system",
            Role::User => "user",
            Role::Assistant => "assistant",
        }
    }
}

/// One message of a conversation.
#[derive(Debug, PartialEq, Eq)]
pub struct Message {
    pub role: Role,
    pub content: String,
    pub name: Option<String>,
    /// A function call that the message carries, passed on as it is.
    pub function_call: Option<Json>,
}

/// The mathematical value of a [`Message`].
pub struct MessageValue {
    pub role: Role,
    pub content: Seq<char>,
    pub name: Option<Seq<char>>,
    pub function_call: Option<JsonValue>,
}

impl View for Message {
    type V = MessageValue;

    open spec fn view(&self) -> MessageValue {
        MessageValue {
            role: self.role,
            content: self.content@,
            name: match self.name {
                Some(n) => Some(n@),
                None => None,
            },
            function_call: match self.function_call {
                Some(f) => Some(f@),
                None => None,
            },
        }
    }
}

impl Clone for Message {
    fn clone(&self) -> (r: Message)
        ensures
            r@ == self@,
    {
        Message {
            role: self.role,
            content: self.content.clone(),
            name: match &self.name {
                Some(n) => Some(n.clone()),
                None => None,
            },
            function_call: match &self.function_call {
                Some(f) => Some(f.duplicate()),
                None => None,
            },
        }
    }
}

/// The messages of a history as mathematical values.
pub open spec fn history_view(messages: Seq<Message>) -> Seq<MessageValue> {
    Seq::new(messages.len(), |i: int| messages[i]@)
}

/// A function that the model may call.
#[derive(Debug, PartialEq, Eq)]
pub struct FunctionDef {
    pub name: String,
    pub description: String,
    pub parameters: Json,
}

/// The mathematical value of a [`FunctionDef`].
pub struct FunctionValue {
    pub name: Seq<char>,
    pub description: Seq<char>,
    pub parameters: JsonValue,
}

impl View for FunctionDef {
    type V = FunctionValue;

    open spec fn view(&self) -> FunctionValue {
        FunctionValue {
            name: self.name@,
            description: self.description@,
            parameters: self.parameters@,
        }
    }
}

impl Clone for FunctionDef {
    fn clone(&self) -> (r: FunctionDef)
        ensures
            r@ == self@,
    {
        FunctionDef {
            name: self.name.clone(),
            description: self.description.clone(),
            parameters: self.parameters.duplicate(),
        }
    }
}

/// Function definitions as mathematical values.
pub open spec fn functions_view(functions: Seq<FunctionDef>) -> Seq<FunctionValue> {
    Seq::new(functions.len(), |i: int| functions[i]@)
}

/// A message with nothing but a role and a content.
pub fn create_message(role: Role, content: String) -> (m: Message)
    ensures
        m@ == (MessageValue { role, content: content@, name: None, function_call: None }),
{
    Message { role, content, name: None, function_call: None }
}

/// What went wrong in a turn.
#[derive(Debug, PartialEq, Eq)]
pub enum ChatError {
    /// The endpoint answered with a status outside 200 to 299.
    Transport { status: u16, body: String },
    /// An answer that had to be JSON with a content was not.
    Decode { raw: String },
    /// The vendor reported an error.
    Vendor { message: String },
    /// The user stopped the turn.
    CancelledPartial { accumulated_text: String },
    /// The model's reply to an agent never became a JSON document.
    InvalidReplyFormat { raw: String },
    /// A command that an agent ran failed.
    ExecutionFailure { reason: String },
}

/// The mathematical value of a [`ChatError`].
pub enum ChatFault {
    Transport { status: u16, body: Seq<char> },
    Decode { raw: Seq<char> },
    Vendor { message: Seq<char> },
    CancelledPartial { accumulated_text: Seq<char> },
    InvalidReplyFormat { raw: Seq<char> },
    ExecutionFailure { reason: Seq<char> },
}

impl View for ChatError {
    type V = ChatFault;

    open spec fn view(&self) -> ChatFault {
        match *self {
            ChatError::Transport { status, body } => ChatFault::Transport { status, body: body@ },
            ChatError::Decode { raw } => ChatFault::Decode { raw: raw@ },
            ChatError::Vendor { message } => ChatFault::Vendor { message: message@ },
            ChatError::CancelledPartial { accumulated_text } => ChatFault::CancelledPartial {
                accumulated_text: accumulated_text@,
            },
            ChatError::InvalidReplyFormat { raw } => ChatFault::InvalidReplyFormat { raw: raw@ },
            ChatError::ExecutionFailure { reason } => ChatFault::ExecutionFailure {
                reason: reason@,
            },
        }
    }
}

impl Clone for ChatError {
    fn clone(&self) -> (r: ChatError)
        ensures
            r@ == self@,
    {
        match self {
            ChatError::Transport { status, body } => ChatError::Transport {
                status: *status,
                body: body.clone(),
            },
            ChatError::Decode { raw } => ChatError::Decode { raw: raw.clone() },
            ChatError::Vendor { message } => ChatError::Vendor { message: message.clone() },
            ChatError::CancelledPartial { accumulated_text } => ChatError::CancelledPartial {
                accumulated_text: accumulated_text.clone(),
            },
            ChatError::InvalidReplyFormat { raw } => ChatError::InvalidReplyFormat {
                raw: raw.clone(),
            },
            ChatError::ExecutionFailure { reason } => ChatError::ExecutionFailure {
                reason: reason.clone(),
            },
        }
    }
}

impl ChatFault {
    /// The text that the error carries.
    pub open spec fn detail(self) -> Seq<char> {
        match self {
            ChatFault::Transport { status, body } => body,
            ChatFault::Decode { raw } => raw,
            ChatFault::Vendor { message } => message,
            ChatFault::CancelledPartial { accumulated_text } => accumulated_text,
            ChatFault::InvalidReplyFormat { raw } => raw,
            ChatFault::ExecutionFailure { reason } => reason,
        }
    }
}

impl ChatError {
    /// The text that the error carries.
    pub fn detail(&self) -> (r: &str)
        ensures
            r@ == self@.detail(),
    {
        match self {
            ChatError::Transport { status, body } => body.as_str(),
            ChatError::Decode { raw } => raw.as_str(),
            ChatError::Vendor { message } => message.as_str(),
            ChatError::CancelledPartial { accumulated_text } => accumulated_text.as_str(),
            ChatError::InvalidReplyFormat { raw } => raw.as_str(),
            ChatError::ExecutionFailure { reason } => reason.as_str(),
        }
    }
}

/// The settings of one chat request, as mathematical values.
pub struct ProviderConfig {
    pub api_key: Seq<char>,
    pub api_url: Seq<char>,
    pub model: Seq<char>,
    pub json_mode: bool,
    pub functions: Option<Seq<FunctionValue>>,
}

/// The JSON that stands for one message on the wire.
pub open spec fn message_json(m: MessageValue) -> JsonValue {
    JsonValue::Object(
        seq![("role"@, JsonValue::Text(m.role.name())), ("content"@, JsonValue::Text(m.content))]
            + (match m.name {
            Some(n) => seq![("name"@, JsonValue::Text(n))],
            None => Seq::empty(),
        }) + (match m.function_call {
            Some(f) => seq![("function_call"@, f)],
            None => Seq::empty(),
        }),
    )
}

/// The JSON that stands for one function definition on the wire.
pub open spec fn function_json(f: FunctionValue) -> JsonValue {
    JsonValue::Object(
        seq![
            ("name"@, JsonValue::Text(f.name)),
            ("description"@, JsonValue::Text(f.description)),
            ("parameters"@, f.parameters),
        ],
    )
}

/// The hint that the answer must be a JSON object.
pub open spec fn json_object_format() -> JsonValue {
    JsonValue::Object(seq![("type"@, JsonValue::Text("json_object"@))])
}

/// The body of a chat request: the model, the messages in order, the
/// streaming flag, the hint that the answer must be JSON where JSON mode is
/// on, and the function definitions where there are any.
pub open spec fn request_json(
    config: ProviderConfig,
    messages: Seq<MessageValue>,
    stream: bool,
) -> JsonValue {
    JsonValue::Object(
        seq![
            ("model"@, JsonValue::Text(config.model)),
            ("messages"@, JsonValue::Array(messages.map_values(|m: MessageValue| message_json(m)))),
            ("stream"@, JsonValue::Bool(stream)),
        ] + (if config.json_mode {
            seq![("response_format"@, json_object_format())]
        } else {
            Seq::empty()
        }) + (match config.functions {
            Some(fs) => seq![
                (
                    "functions"@,
                    JsonValue::Array(fs.map_values(|f: FunctionValue| function_json(f))),
                ),
            ],
            None => Seq::empty(),
        }),
    )
}

/// The headers of a chat request: the content type, the bearer token, and
/// what the vendor's profile adds.
pub open spec fn request_headers(config: ProviderConfig) -> Seq<(Seq<char>, Seq<char>)> {
    seq![
        ("Content-Type"@, "application/json"@),
        ("Authorization"@, "Bearer "@ + config.api_key),
    ] + profile_of(config.api_url).extra_headers
}

/// A status that stands for success: 200 to 299.
pub open spec fn status_ok(status: u16) -> bool {
    200 <= status <= 299
}

/// The names of functions, with a comma and a blank between them.
pub open spec fn function_names(functions: Seq<FunctionValue>) -> Seq<char>
    decreases functions.len(),
{
    if functions.len() == 0 {
        Seq::empty()
    } else if functions.len() == 1 {
        functions[0].name
    } else {
        function_names(functions.drop_last()) + ", "@ + functions.last().name
    }
}

/// How the functions of a provider show in diagnostics: by their names.
pub open spec fn functions_text(functions: Option<Seq<FunctionValue>>) -> Seq<char> {
    match functions {
        Some(fs) => "Some(["@ + function_names(fs) + "])"@,
        None => "None"@,
    }
}

/// How a provider shows itself in diagnostics: the endpoint, the model, the
/// JSON mode and the functions. The API key is not part of it.
pub open spec fn diagnostic_text(config: ProviderConfig) -> Seq<char> {
    "Provider { api_url: "@ + config.api_url + ", model: "@ + config.model + ", json_mode: "@ + (
    if config.json_mode {
        "true"@
    } else {
        "false"@
    }) + ", functions: "@ + functions_text(config.functions)
        + ", api_key: [REDACTED] }"@
}

/// The text of a single complete response: what stands at the first of the
/// profile's paths for such a response that leads to a string.
pub open spec fn single_content(profile: Profile, value: JsonValue) -> Option<Seq<char>> {
    value.first_text(profile.single_paths)
}

/// What a single complete response body amounts to: one event with its text,
/// or a decode error that carries the body.
pub open spec fn single_result(profile: Profile, body: Seq<char>) -> Result<Event, ChatFault> {
    match json_of(body) {
        Some(value) => match single_content(profile, value) {
            Some(text) => Ok(Event::TextDelta(text)),
            None => Err(ChatFault::Decode { raw: body }),
        },
        None => Err(ChatFault::Decode { raw: body }),
    }
}

/// One JSON member.
fn member(key: &str, value: Json) -> (r: (String, Json))
    ensures
        r.0@ == key@,
        r.1@ == value@,
{
    (key.to_string(), value)
}

/// The JSON that stands for one message on the wire.
pub fn message_to_json(m: &Message) -> (r: Json)
    ensures
        r@ == message_json(m@),
{
    let mut members: Vec<(String, Json)> = Vec::new();
    members.push(member("role", Json::text(m.role.as_str())));
    members.push(member("content", Json::text(m.content.as_str())));
    match &m.name {
        Some(n) => {
            members.push(member("name", Json::text(n.as_str())));
        },
        None => {},
    }
    match &m.function_call {
        Some(f) => {
            members.push(member("function_call", f.duplicate()));
        },
        None => {},
    }
    proof {
        lemma_members_view(members@);
        assert(members_view(members@) =~= message_json(m@)->Object_0);
    }
    Json::Object(members)
}

/// The JSON that stands for one function definition on the wire.
pub fn function_to_json(f: &FunctionDef) -> (r: Json)
    ensures
        r@ == function_json(f@),
{
    let members = vec![
        member("name", Json::text(f.name.as_str())),
        member("description", Json::text(f.description.as_str())),
        member("parameters", f.parameters.duplicate()),
    ];
    proof {
        lemma_members_view(members@);
        assert(members_view(members@) =~= function_json(f@)->Object_0);
    }
    Json::Object(members)
}

/// The settings of one chat request. A builder makes a new value per option.
pub struct Provider {
    api_key: String,
    api_url: String,
    model: String,
    json_mode: bool,
    functions: Option<Vec<FunctionDef>>,
}

impl View for Provider {
    type V = ProviderConfig;

    closed spec fn view(&self) -> ProviderConfig {
        ProviderConfig {
            api_key: self.api_key@,
            api_url: self.api_url@,
            model: self.model@,
            json_mode: self.json_mode,
            functions: match self.functions {
                Some(fs) => Some(functions_view(fs@)),
                None => None,
            },
        }
    }
}

impl Clone for Provider {
    fn clone(&self) -> (r: Provider)
        ensures
            r@ == self@,
    {
        let functions = match &self.functions {
            Some(fs) => {
                let mut copy: Vec<FunctionDef> = Vec::new();
                let mut i: usize = 0;
                while i < fs.len()
                    invariant
                        i <= fs.len(),
                        copy.len() == i,
                        forall|k: int| 0 <= k < i ==> (#[trigger] copy@[k])@ == fs@[k]@,
                    decreases fs.len() - i,
                {
                    copy.push(fs[i].clone());
                    i += 1;
                }
                assert(functions_view(copy@) =~= functions_view(fs@));
                Some(copy)
            },
            None => None,
        };
        Provider {
            api_key: self.api_key.clone(),
            api_url: self.api_url.clone(),
            model: self.model.clone(),
            json_mode: self.json_mode,
            functions,
        }
    }
}

impl Provider {
    /// A provider with the given key for the default endpoint and model,
    /// without JSON mode and without functions.
    pub fn new(api_key: String) -> (p: Provider)
        ensures
            p@ == (ProviderConfig {
                api_key: api_key@,
                api_url: "https://api.openai.com/v1/chat/completions"@,
                model: "gpt-3.5-turbo"@,
                json_mode: false,
                functions: None,
            }),
    {
        Provider {
            api_key,
            api_url: "https://api.openai.com/v1/chat/completions".to_string(),
            model: "gpt-3.5-turbo".to_string(),
            json_mode: false,
            functions: None,
        }
    }

    /// The same provider for another endpoint.
    pub fn with_url(self, url: String) -> (p: Provider)
        ensures
            p@ == (ProviderConfig { api_url: url@, ..self@ }),
    {
        let mut p = self;
        p.api_url = url;
        p
    }

    /// The same provider for another model.
    pub fn with_model(self, model: String) -> (p: Provider)
        ensures
            p@ == (ProviderConfig { model: model@, ..self@ }),
    {
        let mut p = self;
        p.model = model;
        p
    }

    /// The same provider with JSON mode on or off.
    pub fn with_json_mode(self, enabled: bool) -> (p: Provider)
        ensures
            p@ == (ProviderConfig { json_mode: enabled, ..self@ }),
    {
        let mut p = self;
        p.json_mode = enabled;
        p
    }

    /// The same provider with function definitions to offer to the model.
    pub fn with_functions(self, functions: Vec<FunctionDef>) -> (p: Provider)
        ensures
            p@ == (ProviderConfig { functions: Some(functions_view(functions@)), ..self@ }),
    {
        let mut p = self;
        p.functions = Some(functions);
        p
    }

    /// Whether the endpoint is the `free.v36.cm` relay.
    pub fn is_v36(&self) -> (b: bool)
        ensures
            b == contains(self@.api_url, "free.v36.cm"@),
    {
        str_contains(self.api_url.as_str(), "free.v36.cm")
    }

    /// Whether the endpoint is DashScope-compatible.
    pub fn is_qwen(&self) -> (b: bool)
        ensures
            b == contains(self@.api_url, "dashscope.aliyuncs.com"@),
    {
        str_contains(self.api_url.as_str(), "dashscope.aliyuncs.com")
    }

    /// The URL to which the request goes.
    pub fn get_api_url(&self) -> (url: String)
        ensures
            url@ == self@.api_url,
    {
        self.api_url.clone()
    }

    /// The bearer token.
    pub fn api_key(&self) -> (key: &str)
        ensures
            key@ == self@.api_key,
    {
        self.api_key.as_str()
    }

    /// The model that is asked.
    pub fn model(&self) -> (model: &str)
        ensures
            model@ == self@.model,
    {
        self.model.as_str()
    }

    /// Whether the answer must be a JSON object.
    pub fn json_mode(&self) -> (b: bool)
        ensures
            b == self@.json_mode,
    {
        self.json_mode
    }

    /// The vendor profile that applies to the endpoint.
    pub fn profile(&self) -> (r: AdapterProfile)
        ensures
            r@ == profile_of(self@.api_url),
    {
        AdapterProfile::for_url(self.api_url.as_str())
    }

    /// How the provider shows itself in diagnostics, without the API key.
    pub fn debug_text(&self) -> (r: String)
        ensures
            r@ == diagnostic_text(self@),
    {
        let mut r = "Provider { api_url: ".to_string();
        r.append(self.api_url.as_str());
        r.append(", model: ");
        r.append(self.model.as_str());
        r.append(", json_mode: ");
        if self.json_mode {
            r.append("true");
        } else {
            r.append("false");
        }
        r.append(", functions: ");
        let functions = self.functions_text();
        r.append(functions.as_str());
        r.append(", api_key: [REDACTED] }");
        r
    }

    /// How the functions show in diagnostics.
    fn functions_text(&self) -> (r: String)
        ensures
            r@ == functions_text(self@.functions),
    {
        match &self.functions {
            Some(fs) => {
                let ghost all = functions_view(fs@);
                let mut names = String::new();
                let mut i: usize = 0;
                assert(all.take(0) =~= Seq::<FunctionValue>::empty());
                while i < fs.len()
                    invariant
                        i <= fs.len(),
                        all == functions_view(fs@),
                        names@ == function_names(all.take(i as int)),
                    decreases fs.len() - i,
                {
                    proof {
                        assert(all.take(i as int + 1).drop_last() =~= all.take(i as int));
                        assert(all.take(i as int + 1).last() == fs@[i as int]@);
                        assert(all.take(1)[0] == all[0]);
                        assert(Seq::<char>::empty() + fs@[i as int].name@ =~= fs@[i as int].name@);
                    }
                    if i > 0 {
                        names.append(", ");
                    }
                    names.append(fs[i].name.as_str());
                    i += 1;
                }
                assert(all.take(fs.len() as int) =~= all);
                let mut r = "Some([".to_string();
                r.append(names.as_str());
                r.append("])");
                r
            },
            None => "None".to_string(),
        }
    }

    /// The headers of the request.
    pub fn headers(&self) -> (r: Vec<(String, String)>)
        ensures
            pairs_view(r@) == request_headers(self@),
    {
        let mut bearer = "Bearer ".to_string();
        bearer.append(self.api_key.as_str());
        let mut r: Vec<(String, String)> = Vec::new();
        r.push(("Content-Type".to_string(), "application/json".to_string()));
        r.push(("Authorization".to_string(), bearer));
        let profile = self.profile();
        let extra = profile.extra_headers;
        let mut i: usize = 0;
        while i < extra.len()
            invariant
                i <= extra.len(),
                r.len() == 2 + i,
                pairs_view(extra@) == profile_of(self@.api_url).extra_headers,
                r@[0].0@ == "Content-Type"@,
                r@[0].1@ == "application/json"@,
                r@[1].0@ == "Authorization"@,
                r@[1].1@ == "Bearer "@ + self@.api_key,
                forall|k: int|
                    0 <= k < i ==> (#[trigger] r@[2 + k]).0@ == extra@[k].0@ && r@[2 + k].1@
                        == extra@[k].1@,
            decreases extra.len() - i,
        {
            r.push((extra[i].0.clone(), extra[i].1.clone()));
            i += 1;
        }
        proof {
            let want = request_headers(self@);
            let have = pairs_view(r@);
            assert(want.len() == have.len());
            assert forall|k: int| 0 <= k < have.len() implies have[k] == want[k] by {
                if k >= 2 {
                    assert(r@[2 + (k - 2)].0@ == extra@[k - 2].0@);
                    assert(pairs_view(extra@)[k - 2] == (extra@[k - 2].0@, extra@[k - 2].1@));
                }
            }
            assert(have =~= want);
        }
        r
    }

    /// The body of the request that asks for an answer to `messages`.
    pub fn request_body(&self, messages: &Vec<Message>, stream: bool) -> (r: Json)
        ensures
            r@ == request_json(self@, history_view(messages@), stream),
    {
        let ghost msgs = history_view(messages@);
        let mut list: Vec<Json> = Vec::new();
        let mut i: usize = 0;
        while i < messages.len()
            invariant
                i <= messages.len(),
                list.len() == i,
                forall|k: int| 0 <= k < i ==> (#[trigger] list@[k])@ == message_json(messages@[k]@),
            decreases messages.len() - i,
        {
            list.push(message_to_json(&messages[i]));
            i += 1;
        }
        proof {
            lemma_items_view(list@);
            assert(items_view(list@) =~= msgs.map_values(|m: MessageValue| message_json(m)));
        }
        let mut members: Vec<(String, Json)> = Vec::new();
        members.push(member("model", Json::text(self.model.as_str())));
        members.push(member("messages", Json::Array(list)));
        members.push(member("stream", Json::Bool(stream)));
        if self.json_mode {
            let format = vec![member("type", Json::text("json_object"))];
            proof {
                lemma_members_view(format@);
                assert(members_view(format@) =~= json_object_format()->Object_0);
            }
            members.push(member("response_format", Json::Object(format)));
        }
        match &self.functions {
            Some(fs) => {
                let mut defs: Vec<Json> = Vec::new();
                let mut j: usize = 0;
                while j < fs.len()
                    invariant
                        j <= fs.len(),
                        defs.len() == j,
                        forall|k: int|
                            0 <= k < j ==> (#[trigger] defs@[k])@ == function_json(fs@[k]@),
                    decreases fs.len() - j,
                {
                    defs.push(function_to_json(&fs[j]));
                    j += 1;
                }
                proof {
                    lemma_items_view(defs@);
                    assert(items_view(defs@) =~= functions_view(fs@).map_values(
                        |f: FunctionValue| function_json(f),
                    ));
                }
                members.push(member("functions", Json::Array(defs)));
            },
            None => {},
        }
        proof {
            lemma_members_view(members@);
            assert(members_view(members@) =~= request_json(self@, msgs, stream)->Object_0);
        }
        Json::Object(members)
    }
}

/// One chat request, ready to be sent: a POST of the body, as JSON, to the URL
/// with the headers.
#[derive(Debug, PartialEq, Eq)]
pub struct ChatRequest {
    pub method: &'static str,
    pub url: String,
    pub headers: Vec<(String, String)>,
    pub body: Json,
}

impl Provider {
    /// The request that asks for an answer to `messages`.
    pub fn request(&self, messages: &Vec<Message>, stream: bool) -> (r: ChatRequest)
        ensures
            r.method@ == "POST"@,
            r.url@ == self@.api_url,
            pairs_view(r.headers@) == request_headers(self@),
            r.body@ == request_json(self@, history_view(messages@), stream),
    {
        ChatRequest {
            method: "POST",
            url: self.get_api_url(),
            headers: self.headers(),
            body: self.request_body(messages, stream),
        }
    }
}

/// Whether a status stands for success.
pub fn is_success(status: u16) -> (b: bool)
    ensures
        b == status_ok(status),
{
    200 <= status && status <= 299
}

/// Accepts the answer of an endpoint by its status: a status from 200 to 299
/// lets the body through; any other status is a transport error that carries
/// the status and the body as they came.
pub fn accept_response(status: u16, body: String) -> (r: Result<String, ChatError>)
    ensures
        status_ok(status) ==> r == Ok::<String, ChatError>(body),
        !status_ok(status) ==> r == Err::<String, ChatError>(ChatError::Transport { status, body }),
{
    if is_success(status) {
        Ok(body)
    } else {
        Err(ChatError::Transport { status, body })
    }
}

/// The text of a single complete response.
pub fn content_of(profile: &AdapterProfile, value: &Json) -> (r: Option<String>)
    ensures
        match r {
            Some(text) => single_content(profile@, value@) == Some(text@),
            None => single_content(profile@, value@) is None,
        },
{
    match value.first_text(&profile.single_paths) {
        Some(text) => Some(text.to_string()),
        None => None,
    }
}

/// Reads a single complete response body: the one event that a request
/// without streaming yields.
pub fn single_event(profile: &AdapterProfile, body: &str) -> (r: Result<StreamEvent, ChatError>)
    ensures
        match r {
            Ok(e) => single_result(profile@, body@) == Ok::<Event, ChatFault>(e@),
            Err(e) => single_result(profile@, body@) == Err::<Event, ChatFault>(e@),
        },
{
    match parse(body) {
        Some(value) => match content_of(profile, &value) {
            Some(text) => Ok(StreamEvent::TextDelta(text)),
            None => Err(ChatError::Decode { raw: body.to_string() }),
        },
        None => Err(ChatError::Decode { raw: body.to_string() }),
    }
}

} // verus!
