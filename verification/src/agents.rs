//! Agent presets, the set of agents known to the client, and the agent turn
//! loop: the machine that takes the model's replies and decides between
//! running a command, answering the user and asking the model again.

use crate::executor::CommandExecutor;
use crate::json::{object_of, parse_object, Json, JsonValue};
use crate::llm_provider::{
    create_message, history_view, ChatError, ChatFault, Message, MessageValue, Provider,
    ProviderConfig, Role,
};
use crate::string_map::StringMap;
use vstd::prelude::*;
use crate::text::{opt_text, str_eq, to_chars};
use vstd::string::{StrSliceExecFns, StringExecFns};

verus! {

/// What every agent is told about its task.
pub const ROLE_INTRO: &'static str =
    "作为一个命令执行专家，你需要：\n1. 仔细理解用户的需求\n2. 选择合适的命令来完成任务\n3. 如果需要使用多个命令，将它们组合在一起\n4. 确保命令的语法正确\n\n";

/// What stands above the list of environment variables.
pub const ENV_HEAD: &'static str = "系统已配置以下环境变量，你可以在命令中使用它们：\n";

/// What stands below the list of environment variables.
pub const ENV_TAIL: &'static str =
    "\n使用变量时，请用{{变量名}}的格式，例如: {{chrome}}\n你可以选择使用或不使用这些变量，具体取决于任务需求\n\n";

/// What stands above the list of command templates.
pub const TEMPLATES_HEAD: &'static str = "可用的命令模板：\n";

/// What stands below the list of command templates.
pub const TEMPLATES_TAIL: &'static str = "需要时你可以基于这些模板创建新的命令\n\n";

/// The reply format that every agent is held to.
pub const REPLY_RULES: &'static str = r#"请严格按照以下 JSON 格式回复：

{
    "thought": "详细分析用户需求和你的解决方案",
    "command": "具体要执行的命令"
}

或者当不需要执行命令时：

{
    "thought": "详细解释为什么不需要执行命令",
    "response": "给用户的具体回复"
}

注意事项：
1. thought 必须详细解释你的思考过程
2. command 必须是可以直接执行的完整命令
3. 如果用户的请求不清晰，使用 response 请求更多信息
4. 始终确保命令的安全性和正确性

示例：
用户: "打开Chrome浏览器访问百度"
{
    "thought": "用户想要使用Chrome浏览器访问百度。我们可以使用配置的chrome变量来启动浏览器，并指定网址。",
    "command": "start {{chrome}} https://www.baidu.com"
}
示例二
用户: "打开记事本"
{
    "thought": "用户想要打开记事本",
    "response": "start notepad"
}
"#;

/// What the model is told when its reply names neither a command nor a response.
pub const RETRY_MESSAGE: &'static str = "响应格式错误，请重试";

/// What stands before the output of a command that succeeded.
pub const COMMAND_SUCCEEDED: &'static str = "命令执行成功: ";

/// What stands before the reason for which a command failed.
pub const COMMAND_FAILED: &'static str = "命令执行失败: ";

/// An agent preset: a system prompt with the environment variables and the
/// command templates that the model may use when it proposes a command.
#[derive(Debug, PartialEq, Eq)]
pub struct Agent {
    pub name: String,
    pub description: Option<String>,
    pub system_prompt: String,
    /// Variables that a command may refer to as `{{name}}`.
    pub env: StringMap<String>,
    /// Command templates, by name.
    pub templates: StringMap<String>,
}

/// The agents known to the client, by name.
#[derive(Debug)]
pub struct AgentManager {
    pub agents: StringMap<Agent>,
}

impl AgentManager {
    /// A manager that knows no agent.
    pub fn new() -> (m: Self)
        ensures
            m.agents@ == Map::<Seq<char>, Agent>::empty(),
            m.agents.keys() == Seq::<Seq<char>>::empty(),
    {
        AgentManager { agents: StringMap::new() }
    }

    /// Registers `config` under `name`, in place of any agent of that name.
    pub fn load_agent(&mut self, name: &str, config: Agent)
        ensures
            final(self).agents@ == old(self).agents@.insert(name@, config),
            final(self).agents.keys() == old(self).agents.keys_with(name@),
    {
        let _ = self.agents.insert(name.to_string(), config);
    }

    /// The agent registered under `name`.
    pub fn get_agent(&self, name: &str) -> (r: Option<&Agent>)
        ensures
            match r {
                Some(a) => self.agents.value_of(name@) == Some(*a),
                None => self.agents.value_of(name@) is None,
            },
    {
        self.agents.get(name)
    }

    /// Forgets the agent registered under `name` and returns it.
    pub fn remove_agent(&mut self, name: &str) -> (r: Option<Agent>)
        ensures
            final(self).agents@ == old(self).agents@.remove(name@),
            final(self).agents.keys() == old(self).agents.keys_without(name@),
            r == old(self).agents.value_of(name@),
    {
        self.agents.remove(name)
    }
}

/// The extension of the files that keep agents.
pub const AGENT_FILE_EXTENSION: &'static str = "toml";

/// Where the last dot of a file name stands, if the name has one.
pub open spec fn last_dot(name: Seq<char>) -> Option<int>
    decreases name.len(),
{
    if name.len() == 0 {
        None
    } else if name.last() == '.' {
        Some(name.len() - 1)
    } else {
        last_dot(name.drop_last())
    }
}

/// The name of the agent that a file keeps: what stands before the last dot
/// of the file's name, where `toml` stands after it. A name that starts with
/// its only dot has no extension and keeps no agent.
pub open spec fn agent_of_file(file_name: Seq<char>) -> Option<Seq<char>> {
    match last_dot(file_name) {
        Some(dot) => if dot > 0 && file_name.skip(dot + 1) == AGENT_FILE_EXTENSION@ {
            Some(file_name.take(dot))
        } else {
            None
        },
        None => None,
    }
}

/// The name of the file that keeps the agent `name`.
pub fn agent_file_name(name: &str) -> (r: String)
    ensures
        r@ == name@ + "."@ + AGENT_FILE_EXTENSION@,
{
    let mut r = name.to_string();
    r.append(".");
    r.append(AGENT_FILE_EXTENSION);
    r
}

/// The name of the agent that the file `file_name` keeps.
pub fn agent_name_of_file(file_name: &str) -> (r: Option<String>)
    ensures
        opt_text(r) == agent_of_file(file_name@),
{
    let chars = to_chars(file_name);
    let n = chars.len();
    let mut i: usize = n;
    assert(chars@.take(n as int) =~= chars@);
    while i > 0 && chars[i - 1] != '.'
        invariant
            i <= n,
            n == chars.len(),
            last_dot(chars@) == last_dot(chars@.take(i as int)),
        decreases i,
    {
        assert(chars@.take(i as int).last() == chars@[i - 1]);
        assert(chars@.take(i as int).drop_last() =~= chars@.take(i - 1));
        i -= 1;
    }
    if i == 0 {
        return None;
    }
    assert(chars@.take(i as int).last() == chars@[i - 1]);
    let dot: usize = i - 1;
    if dot == 0 {
        return None;
    }
    let extension = file_name.substring_char(dot + 1, n);
    assert(extension@ =~= file_name@.skip(dot + 1));
    if str_eq(extension, AGENT_FILE_EXTENSION) {
        let stem = file_name.substring_char(0, dot);
        assert(stem@ =~= file_name@.take(dot as int));
        Some(stem.to_string())
    } else {
        None
    }
}

impl Default for AgentManager {
    fn default() -> (m: Self)
        ensures
            m.agents@ == Map::<Seq<char>, Agent>::empty(),
    {
        AgentManager::new()
    }
}

/// One line for each key: a dash, the key, a line feed.
pub open spec fn key_lines(keys: Seq<Seq<char>>) -> Seq<char>
    decreases keys.len(),
{
    if keys.len() == 0 {
        Seq::empty()
    } else {
        key_lines(keys.drop_last()) + "- "@ + keys.last() + "\n"@
    }
}

/// One line for each template: a dash, its name, a colon, and the template
/// between back-ticks.
pub open spec fn template_lines(names: Seq<Seq<char>>, templates: Map<Seq<char>, String>) -> Seq<
    char,
>
    decreases names.len(),
{
    if names.len() == 0 {
        Seq::empty()
    } else {
        template_lines(names.drop_last(), templates) + "- "@ + names.last() + ": `"@
            + templates[names.last()]@ + "`\n"@
    }
}

/// What the prompt says of the environment variables: nothing where there
/// are none, else their names between a head and a tail.
pub open spec fn env_section(keys: Seq<Seq<char>>) -> Seq<char> {
    if keys.len() == 0 {
        Seq::empty()
    } else {
        ENV_HEAD@ + key_lines(keys) + ENV_TAIL@
    }
}

/// What the prompt says of the command templates: nothing where there are
/// none, else the templates between a head and a tail.
pub open spec fn templates_section(names: Seq<Seq<char>>, templates: Map<Seq<char>, String>) -> Seq<
    char,
> {
    if names.len() == 0 {
        Seq::empty()
    } else {
        TEMPLATES_HEAD@ + template_lines(names, templates) + TEMPLATES_TAIL@
    }
}

/// What the prompt starts with: the description, where there is one, and a
/// blank line.
pub open spec fn description_section(description: Option<String>) -> Seq<char> {
    match description {
        Some(d) => d@ + "\n\n"@,
        None => Seq::empty(),
    }
}

/// The system prompt of an agent: its description, its own prompt, the task,
/// the environment variables, the command templates and the reply format.
pub open spec fn system_prompt_text(agent: Agent) -> Seq<char> {
    description_section(agent.description) + agent.system_prompt@ + "\n\n"@ + ROLE_INTRO@
        + env_section(agent.env.keys()) + templates_section(
        agent.templates.keys(),
        agent.templates@,
    ) + REPLY_RULES@
}

impl Agent {
    /// What the prompt says of the environment variables.
    fn env_text(&self) -> (r: String)
        ensures
            r@ == env_section(self.env.keys()),
    {
        let n = self.env.len();
        if n == 0 {
            return String::new();
        }
        let ghost keys = self.env.keys();
        let mut lines = String::new();
        let mut i: usize = 0;
        assert(keys.take(0) =~= Seq::<Seq<char>>::empty());
        while i < n
            invariant
                i <= n,
                n == keys.len(),
                keys == self.env.keys(),
                lines@ == key_lines(keys.take(i as int)),
            decreases n - i,
        {
            let key = self.env.key_at(i);
            proof {
                assert(keys.take(i as int + 1).drop_last() =~= keys.take(i as int));
                assert(keys.take(i as int + 1).last() == keys[i as int]);
            }
            lines.append("- ");
            lines.append(key.as_str());
            lines.append("\n");
            i += 1;
        }
        assert(keys.take(n as int) =~= keys);
        let mut r = ENV_HEAD.to_string();
        r.append(lines.as_str());
        r.append(ENV_TAIL);
        r
    }

    /// What the prompt says of the command templates.
    fn templates_text(&self) -> (r: String)
        ensures
            r@ == templates_section(self.templates.keys(), self.templates@),
    {
        let n = self.templates.len();
        if n == 0 {
            return String::new();
        }
        let ghost names = self.templates.keys();
        let mut lines = String::new();
        let mut i: usize = 0;
        assert(names.take(0) =~= Seq::<Seq<char>>::empty());
        while i < n
            invariant
                i <= n,
                n == names.len(),
                names == self.templates.keys(),
                lines@ == template_lines(names.take(i as int), self.templates@),
            decreases n - i,
        {
            let name = self.templates.key_at(i);
            let template = self.templates.value_at(i);
            proof {
                assert(names.take(i as int + 1).drop_last() =~= names.take(i as int));
                assert(names.take(i as int + 1).last() == names[i as int]);
            }
            lines.append("- ");
            lines.append(name.as_str());
            lines.append(": `");
            lines.append(template.as_str());
            lines.append("`\n");
            i += 1;
        }
        assert(names.take(n as int) =~= names);
        let mut r = TEMPLATES_HEAD.to_string();
        r.append(lines.as_str());
        r.append(TEMPLATES_TAIL);
        r
    }

    /// The system prompt of the agent.
    pub fn build_system_prompt(&self) -> (r: String)
        ensures
            r@ == system_prompt_text(*self),
    {
        let mut r = String::new();
        match &self.description {
            Some(d) => {
                r.append(d.as_str());
                r.append("\n\n");
                assert(r@ =~= description_section(self.description));
            },
            None => {},
        }
        r.append(self.system_prompt.as_str());
        r.append("\n\n");
        r.append(ROLE_INTRO);
        let env = self.env_text();
        r.append(env.as_str());
        let templates = self.templates_text();
        r.append(templates.as_str());
        r.append(REPLY_RULES);
        r
    }

    /// An executor with the agent's variables.
    pub fn executor(&self) -> (e: CommandExecutor)
        ensures
            e.env()@ == self.env@,
            e.env().keys() == self.env.keys(),
    {
        CommandExecutor::new(self.env.duplicate())
    }

    /// Starts a run of the agent on `prompt`: the provider asks for JSON, the
    /// history holds the agent's system prompt and the user's prompt, and the
    /// model is to be called.
    pub fn begin(&self, provider: Provider, prompt: &str) -> (r: (AgentLoop, AgentAction))
        ensures
            r.0@ == (AgentLoopState {
                phase: AgentStage::AwaitingModel,
                history: seq![
                    MessageValue {
                        role: Role::System,
                        content: system_prompt_text(*self),
                        name: None,
                        function_call: None,
                    },
                    MessageValue {
                        role: Role::User,
                        content: prompt@,
                        name: None,
                        function_call: None,
                    },
                ],
                provider: ProviderConfig { json_mode: true, ..provider@ },
            }),
            r.1@ == Next::CallModel,
    {
        let mut context = ConversationContext::new(provider.with_json_mode(true));
        context.add_message(Role::System, self.build_system_prompt());
        context.add_message(Role::User, prompt.to_string());
        assert(history_view(context.messages@) =~= seq![
            context.messages@[0]@,
            context.messages@[1]@,
        ]);
        (AgentLoop { context, phase: AgentPhase::AwaitingModel }, AgentAction::CallModel)
    }
}

/// The history of one conversation and the provider that it talks to.
pub struct ConversationContext {
    pub messages: Vec<Message>,
    pub provider: Provider,
}

impl ConversationContext {
    /// A conversation without messages.
    pub fn new(provider: Provider) -> (c: ConversationContext)
        ensures
            c.messages@.len() == 0,
            c.provider == provider,
    {
        ConversationContext { messages: Vec::new(), provider }
    }

    /// Appends a message to the history.
    pub fn add_message(&mut self, role: Role, content: String)
        ensures
            final(self).provider == old(self).provider,
            history_view(final(self).messages@) == history_view(old(self).messages@).push(
                MessageValue { role, content: content@, name: None, function_call: None },
            ),
    {
        self.messages.push(create_message(role, content));
        assert(history_view(self.messages@) =~= history_view(old(self).messages@).push(
            MessageValue { role, content: content@, name: None, function_call: None },
        ));
    }
}

/// What one reply of the model asks for.
#[derive(Debug, PartialEq, Eq)]
pub enum AgentTurnResult {
    /// Run this command.
    Command(String),
    /// Give the user this answer.
    Response(String),
    /// Neither: the reply has not the agreed shape.
    Malformed,
}

/// The mathematical value of an [`AgentTurnResult`].
pub enum Turn {
    Command(Seq<char>),
    Response(Seq<char>),
    Malformed,
}

impl View for AgentTurnResult {
    type V = Turn;

    open spec fn view(&self) -> Turn {
        match *self {
            AgentTurnResult::Command(c) => Turn::Command(c@),
            AgentTurnResult::Response(r) => Turn::Response(r@),
            AgentTurnResult::Malformed => Turn::Malformed,
        }
    }
}

/// What a reply asks for: the command, where its member `command` is a
/// string; else the response, where its member `response` is a string; else
/// the reply is malformed.
pub open spec fn turn_of(reply: JsonValue) -> Turn {
    match reply.text_member("command"@) {
        Some(c) => Turn::Command(c),
        None => match reply.text_member("response"@) {
            Some(r) => Turn::Response(r),
            None => Turn::Malformed,
        },
    }
}

/// What a parsed reply asks for.
pub fn parse_turn(reply: &Json) -> (r: AgentTurnResult)
    ensures
        r@ == turn_of(reply@),
{
    match reply.text_member("command") {
        Some(c) => AgentTurnResult::Command(c.to_string()),
        None => match reply.text_member("response") {
            Some(r) => AgentTurnResult::Response(r.to_string()),
            None => AgentTurnResult::Malformed,
        },
    }
}

/// What the text of a reply asks for; a text that is no JSON object is a
/// reply in an invalid format.
pub fn read_reply(text: &str) -> (r: Result<AgentTurnResult, ChatError>)
    ensures
        match r {
            Ok(t) => object_of(text@) matches Some(v) && t@ == turn_of(v),
            Err(e) => object_of(text@) is None && e@ == (ChatFault::InvalidReplyFormat {
                raw: text@,
            }),
        },
{
    match parse_object(text) {
        Some(value) => Ok(parse_turn(&value)),
        None => Err(ChatError::InvalidReplyFormat { raw: text.to_string() }),
    }
}

/// How a run of an agent ended.
#[derive(Debug, PartialEq, Eq)]
pub enum AgentEnd {
    /// The turn was cancelled before the model said anything.
    Cancelled,
    /// A command was run and succeeded.
    Executed,
    /// The model's answer was shown to the user.
    Responded,
    /// The run failed.
    Failed(ChatError),
}

/// The mathematical value of an [`AgentEnd`].
pub enum AgentOutcome {
    Cancelled,
    Executed,
    Responded,
    Failed(ChatFault),
}

impl View for AgentEnd {
    type V = AgentOutcome;

    open spec fn view(&self) -> AgentOutcome {
        match *self {
            AgentEnd::Cancelled => AgentOutcome::Cancelled,
            AgentEnd::Executed => AgentOutcome::Executed,
            AgentEnd::Responded => AgentOutcome::Responded,
            AgentEnd::Failed(e) => AgentOutcome::Failed(e@),
        }
    }
}

/// Where a run of an agent stands.
#[derive(Debug, PartialEq, Eq)]
pub enum AgentPhase {
    /// The model has been asked and has not answered yet.
    AwaitingModel,
    /// A reply has arrived and has not been looked at yet.
    ParsingReply(String),
    /// The command is being run.
    Executing(String),
    /// The answer is being shown to the user.
    Responding(String),
    /// The run is over; the model is not called again.
    Terminal(AgentEnd),
}

/// The mathematical value of an [`AgentPhase`].
pub enum AgentStage {
    AwaitingModel,
    ParsingReply(Seq<char>),
    Executing(Seq<char>),
    Responding(Seq<char>),
    Terminal(AgentOutcome),
}

impl View for AgentPhase {
    type V = AgentStage;

    open spec fn view(&self) -> AgentStage {
        match *self {
            AgentPhase::AwaitingModel => AgentStage::AwaitingModel,
            AgentPhase::ParsingReply(t) => AgentStage::ParsingReply(t@),
            AgentPhase::Executing(c) => AgentStage::Executing(c@),
            AgentPhase::Responding(r) => AgentStage::Responding(r@),
            AgentPhase::Terminal(e) => AgentStage::Terminal(e@),
        }
    }
}

/// What the caller of the loop has to do next.
#[derive(Debug, PartialEq, Eq)]
pub enum AgentAction {
    /// Ask the model for a reply to the history, and report the reply.
    CallModel,
    /// Have the reply that was received looked at.
    Parse,
    /// Run the command, and report how it went.
    Execute(String),
    /// Show the answer to the user, and report that it was shown.
    Respond(String),
    /// Stop: the run is over.
    Finish,
}

/// The mathematical value of an [`AgentAction`].
pub enum Next {
    CallModel,
    Parse,
    Execute(Seq<char>),
    Respond(Seq<char>),
    Finish,
}

impl View for AgentAction {
    type V = Next;

    open spec fn view(&self) -> Next {
        match *self {
            AgentAction::CallModel => Next::CallModel,
            AgentAction::Parse => Next::Parse,
            AgentAction::Execute(c) => Next::Execute(c@),
            AgentAction::Respond(r) => Next::Respond(r@),
            AgentAction::Finish => Next::Finish,
        }
    }
}

/// The state of a run as a mathematical value.
pub struct AgentLoopState {
    pub phase: AgentStage,
    /// The conversation so far, oldest message first.
    pub history: Seq<MessageValue>,
    /// The settings of the provider that the run talks to.
    pub provider: ProviderConfig,
}

/// A message with nothing but a role and a content.
pub open spec fn plain(role: Role, content: Seq<char>) -> MessageValue {
    MessageValue { role, content, name: None, function_call: None }
}

/// What a phase waits for.
pub open spec fn pending(phase: AgentStage) -> Next {
    match phase {
        AgentStage::AwaitingModel => Next::CallModel,
        AgentStage::ParsingReply(_) => Next::Parse,
        AgentStage::Executing(c) => Next::Execute(c),
        AgentStage::Responding(r) => Next::Respond(r),
        AgentStage::Terminal(_) => Next::Finish,
    }
}

/// The arrival of the model's reply. Outside `AwaitingModel` nothing changes.
/// An empty reply, which is what a turn cancelled before any content leaves,
/// ends the run without an error. Any other reply joins the history as the
/// assistant's message and waits to be looked at.
pub open spec fn receive(s: AgentLoopState, text: Seq<char>) -> AgentLoopState {
    if !(s.phase is AwaitingModel) {
        s
    } else if text.len() == 0 {
        AgentLoopState { phase: AgentStage::Terminal(AgentOutcome::Cancelled), ..s }
    } else {
        AgentLoopState {
            phase: AgentStage::ParsingReply(text),
            history: s.history.push(plain(Role::Assistant, text)),
            ..s
        }
    }
}

/// The look at a reply that has arrived. A reply that is no JSON object
/// ends the run with an error. A command is run; a response is shown. A reply
/// with neither makes the loop tell the model so and ask it again.
pub open spec fn interpret(s: AgentLoopState) -> AgentLoopState {
    match s.phase {
        AgentStage::ParsingReply(text) => match object_of(text) {
            None => AgentLoopState {
                phase: AgentStage::Terminal(
                    AgentOutcome::Failed(ChatFault::InvalidReplyFormat { raw: text }),
                ),
                ..s
            },
            Some(value) => match turn_of(value) {
                Turn::Command(c) => AgentLoopState { phase: AgentStage::Executing(c), ..s },
                Turn::Response(r) => AgentLoopState { phase: AgentStage::Responding(r), ..s },
                Turn::Malformed => AgentLoopState {
                    phase: AgentStage::AwaitingModel,
                    history: s.history.push(plain(Role::User, RETRY_MESSAGE@)),
                    ..s
                },
            },
        },
        _ => s,
    }
}

/// The arrival of a reply and the look at it, in one.
pub open spec fn reply(s: AgentLoopState, text: Seq<char>) -> AgentLoopState {
    interpret(receive(s, text))
}

/// The failure of the turn that was to bring the reply: the run ends with
/// that error. Outside `AwaitingModel` nothing changes.
pub open spec fn reply_failed(s: AgentLoopState, error: ChatFault) -> AgentLoopState {
    if s.phase is AwaitingModel {
        AgentLoopState { phase: AgentStage::Terminal(AgentOutcome::Failed(error)), ..s }
    } else {
        s
    }
}

/// The end of a command. Its output joins the history as a message of the
/// user and the run is over; its failure joins the history in the same way,
/// with the text that the failure carries, and the model is asked again.
/// Outside `Executing` nothing changes.
pub open spec fn executed(s: AgentLoopState, result: Result<Seq<char>, ChatFault>) -> AgentLoopState {
    if !(s.phase is Executing) {
        s
    } else {
        match result {
            Ok(output) => AgentLoopState {
                phase: AgentStage::Terminal(AgentOutcome::Executed),
                history: s.history.push(plain(Role::User, COMMAND_SUCCEEDED@ + output)),
                ..s
            },
            Err(fault) => AgentLoopState {
                phase: AgentStage::AwaitingModel,
                history: s.history.push(plain(Role::User, COMMAND_FAILED@ + fault.detail())),
                ..s
            },
        }
    }
}

/// The answer has been shown: the run is over. Outside `Responding` nothing
/// changes.
pub open spec fn responded(s: AgentLoopState) -> AgentLoopState {
    if s.phase is Responding {
        AgentLoopState { phase: AgentStage::Terminal(AgentOutcome::Responded), ..s }
    } else {
        s
    }
}

/// A reply that names a command is run once: its output joins the history
/// as a message of the user that contains the output, and the run is over
/// without another call of the model.
pub proof fn lemma_command_round_trip(
    s: AgentLoopState,
    text: Seq<char>,
    value: JsonValue,
    command: Seq<char>,
    output: Seq<char>,
)
    requires
        s.phase is AwaitingModel,
        text.len() > 0,
        object_of(text) == Some(value),
        turn_of(value) == Turn::Command(command),
    ensures
        pending(reply(s, text).phase) == Next::Execute(command),
        executed(reply(s, text), Ok(output)).phase == AgentStage::Terminal(AgentOutcome::Executed),
        pending(executed(reply(s, text), Ok(output)).phase) == Next::Finish,
        executed(reply(s, text), Ok(output)).history == s.history.push(
            plain(Role::Assistant, text),
        ).push(plain(Role::User, COMMAND_SUCCEEDED@ + output)),
        crate::text::contains(executed(reply(s, text), Ok(output)).history.last().content, output),
{
    let content = COMMAND_SUCCEEDED@ + output;
    let at = COMMAND_SUCCEEDED@.len() as int;
    assert(content.subrange(at, at + output.len()) =~= output);
    assert(crate::text::occurs_at(content, output, at));
}

/// A reply that names a response and no command is shown to the user, and
/// the run is over: no command is run and the model is not called again.
pub proof fn lemma_response_ends(
    s: AgentLoopState,
    text: Seq<char>,
    value: JsonValue,
    answer: Seq<char>,
)
    requires
        s.phase is AwaitingModel,
        text.len() > 0,
        object_of(text) == Some(value),
        turn_of(value) == Turn::Response(answer),
    ensures
        pending(reply(s, text).phase) == Next::Respond(answer),
        responded(reply(s, text)).phase == AgentStage::Terminal(AgentOutcome::Responded),
        pending(responded(reply(s, text)).phase) == Next::Finish,
        responded(reply(s, text)).history == s.history.push(plain(Role::Assistant, text)),
{
}

/// A reply that names neither a command nor a response makes the loop append
/// the corrective message and call the model once more.
pub proof fn lemma_malformed_asks_again(s: AgentLoopState, text: Seq<char>, value: JsonValue)
    requires
        s.phase is AwaitingModel,
        text.len() > 0,
        object_of(text) == Some(value),
        value.text_member("command"@) is None,
        value.text_member("response"@) is None,
    ensures
        reply(s, text).phase is AwaitingModel,
        pending(reply(s, text).phase) == Next::CallModel,
        reply(s, text).history == s.history.push(plain(Role::Assistant, text)).push(
            plain(Role::User, RETRY_MESSAGE@),
        ),
{
}

/// The run is over exactly when nothing but stopping is left to do, and a
/// run that is over stays as it is whatever is reported to it.
pub proof fn lemma_terminal_stays(
    s: AgentLoopState,
    text: Seq<char>,
    error: ChatFault,
    result: Result<Seq<char>, ChatFault>,
)
    requires
        s.phase is Terminal,
    ensures
        pending(s.phase) == Next::Finish,
        reply(s, text) == s,
        reply_failed(s, error) == s,
        executed(s, result) == s,
        responded(s) == s,
{
}

/// A run of an agent.
pub struct AgentLoop {
    context: ConversationContext,
    phase: AgentPhase,
}

impl View for AgentLoop {
    type V = AgentLoopState;

    closed spec fn view(&self) -> AgentLoopState {
        AgentLoopState {
            phase: self.phase@,
            history: history_view(self.context.messages@),
            provider: self.context.provider@,
        }
    }
}

impl AgentLoop {
    /// The conversation so far, oldest message first.
    pub fn history(&self) -> (h: &Vec<Message>)
        ensures
            history_view(h@) == self@.history,
    {
        &self.context.messages
    }

    /// The provider that the run talks to.
    pub fn get_provider(&self) -> (p: &Provider)
        ensures
            p@ == self@.provider,
    {
        &self.context.provider
    }

    /// Whether the run is over.
    pub fn is_terminal(&self) -> (b: bool)
        ensures
            b == (self@.phase is Terminal),
    {
        match self.phase {
            AgentPhase::Terminal(_) => true,
            _ => false,
        }
    }

    /// What the loop waits for.
    pub fn pending_action(&self) -> (a: AgentAction)
        ensures
            a@ == pending(self@.phase),
    {
        match &self.phase {
            AgentPhase::AwaitingModel => AgentAction::CallModel,
            AgentPhase::ParsingReply(_) => AgentAction::Parse,
            AgentPhase::Executing(c) => AgentAction::Execute(c.clone()),
            AgentPhase::Responding(r) => AgentAction::Respond(r.clone()),
            AgentPhase::Terminal(_) => AgentAction::Finish,
        }
    }

    /// What the run gave: nothing while it is not over, the error where it
    /// failed, and success in every other case.
    pub fn into_result(self) -> (r: Option<Result<(), ChatError>>)
        ensures
            match self@.phase {
                AgentStage::Terminal(AgentOutcome::Failed(e)) => r matches Some(Err(f)) && f@ == e,
                AgentStage::Terminal(_) => r == Some(Ok::<(), ChatError>(())),
                _ => r is None,
            },
    {
        match self.phase {
            AgentPhase::Terminal(AgentEnd::Failed(e)) => Some(Err(e)),
            AgentPhase::Terminal(_) => Some(Ok(())),
            _ => None,
        }
    }

    /// Takes the model's reply.
    pub fn receive_reply(&mut self, text: String) -> (a: AgentAction)
        ensures
            final(self)@ == receive(old(self)@, text@),
            a@ == pending(final(self)@.phase),
    {
        match self.phase {
            AgentPhase::AwaitingModel => {
                if text.as_str().is_empty() {
                    self.phase = AgentPhase::Terminal(AgentEnd::Cancelled);
                } else {
                    self.context.add_message(Role::Assistant, text.clone());
                    self.phase = AgentPhase::ParsingReply(text);
                }
            },
            _ => {},
        }
        self.pending_action()
    }

    /// Looks at the reply that has arrived.
    pub fn interpret_reply(&mut self) -> (a: AgentAction)
        ensures
            final(self)@ == interpret(old(self)@),
            a@ == pending(final(self)@.phase),
    {
        let turn = match &self.phase {
            AgentPhase::ParsingReply(text) => Some(read_reply(text.as_str())),
            _ => None,
        };
        match turn {
            Some(Ok(AgentTurnResult::Command(c))) => {
                self.phase = AgentPhase::Executing(c);
            },
            Some(Ok(AgentTurnResult::Response(r))) => {
                self.phase = AgentPhase::Responding(r);
            },
            Some(Ok(AgentTurnResult::Malformed)) => {
                self.context.add_message(Role::User, RETRY_MESSAGE.to_string());
                self.phase = AgentPhase::AwaitingModel;
            },
            Some(Err(e)) => {
                self.phase = AgentPhase::Terminal(AgentEnd::Failed(e));
            },
            None => {},
        }
        self.pending_action()
    }

    /// Takes the model's reply and looks at it.
    pub fn on_reply(&mut self, text: String) -> (a: AgentAction)
        ensures
            final(self)@ == reply(old(self)@, text@),
            a@ == pending(final(self)@.phase),
    {
        let _ = self.receive_reply(text);
        self.interpret_reply()
    }

    /// Takes the failure of the turn that was to bring the reply.
    pub fn on_reply_failed(&mut self, error: ChatError) -> (a: AgentAction)
        ensures
            final(self)@ == reply_failed(old(self)@, error@),
            a@ == pending(final(self)@.phase),
    {
        match self.phase {
            AgentPhase::AwaitingModel => {
                self.phase = AgentPhase::Terminal(AgentEnd::Failed(error));
            },
            _ => {},
        }
        self.pending_action()
    }

    /// Takes the end of the command: its output, or the failure.
    pub fn on_executed(&mut self, result: Result<String, ChatError>) -> (a: AgentAction)
        ensures
            final(self)@ == executed(
                old(self)@,
                match result {
                    Ok(output) => Ok(output@),
                    Err(fault) => Err(fault@),
                },
            ),
            a@ == pending(final(self)@.phase),
    {
        match self.phase {
            AgentPhase::Executing(_) => {
                match result {
                    Ok(output) => {
                        let mut content = COMMAND_SUCCEEDED.to_string();
                        content.append(output.as_str());
                        self.context.add_message(Role::User, content);
                        self.phase = AgentPhase::Terminal(AgentEnd::Executed);
                    },
                    Err(fault) => {
                        let mut content = COMMAND_FAILED.to_string();
                        content.append(fault.detail());
                        self.context.add_message(Role::User, content);
                        self.phase = AgentPhase::AwaitingModel;
                    },
                }
            },
            _ => {},
        }
        self.pending_action()
    }

    /// Takes the news that the answer was shown to the user.
    pub fn on_responded(&mut self) -> (a: AgentAction)
        ensures
            final(self)@ == responded(old(self)@),
            a@ == pending(final(self)@.phase),
    {
        match self.phase {
            AgentPhase::Responding(_) => {
                self.phase = AgentPhase::Terminal(AgentEnd::Responded);
            },
            _ => {},
        }
        self.pending_action()
    }
}

} // verus!
