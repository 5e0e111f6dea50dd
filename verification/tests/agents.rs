use gpt_shell::agents::{
    agent_file_name, agent_name_of_file, parse_turn, read_reply, Agent, AgentAction, AgentManager,
    AgentTurnResult, ConversationContext, COMMAND_FAILED, COMMAND_SUCCEEDED, ENV_HEAD, ENV_TAIL,
    REPLY_RULES, RETRY_MESSAGE, ROLE_INTRO, TEMPLATES_HEAD, TEMPLATES_TAIL,
};
use gpt_shell::json::parse;
use gpt_shell::llm_provider::{create_message, ChatError, Message, Provider, Role};
use gpt_shell::string_map::StringMap;

fn agent(name: &str, prompt: &str) -> Agent {
    Agent {
        name: name.to_string(),
        description: None,
        system_prompt: prompt.to_string(),
        env: StringMap::new(),
        templates: StringMap::new(),
    }
}

fn provider() -> Provider {
    Provider::new("k".to_string())
}

fn user(s: &str) -> Message {
    create_message(Role::User, s.to_string())
}

fn assistant(s: &str) -> Message {
    create_message(Role::Assistant, s.to_string())
}

#[test]
fn manager_starts_empty() {
    let manager = AgentManager::new();
    assert!(manager.agents.is_empty());
    assert!(manager.get_agent("shell").is_none());
    assert!(AgentManager::default().agents.is_empty());
}

#[test]
fn manager_loads_and_finds_agent() {
    let mut manager = AgentManager::new();
    manager.load_agent("shell", agent("shell", "run commands"));
    let found = manager.get_agent("shell").expect("agent was loaded");
    assert_eq!(found.system_prompt, "run commands");
    assert!(manager.get_agent("other").is_none());
    assert_eq!(manager.agents.len(), 1);
}

#[test]
fn manager_replaces_an_agent_of_the_same_name() {
    let mut manager = AgentManager::new();
    manager.load_agent("shell", agent("shell", "old"));
    manager.load_agent("shell", agent("shell", "new"));
    assert_eq!(manager.agents.len(), 1);
    assert_eq!(manager.get_agent("shell").unwrap().system_prompt, "new");
    manager.load_agent("other", agent("other", "o"));
    assert_eq!(manager.agents.len(), 2);
    assert_eq!(manager.agents.key_at(0), "shell");
    assert_eq!(manager.agents.key_at(1), "other");
}

#[test]
fn manager_removes_and_returns_the_agent() {
    let mut manager = AgentManager::new();
    manager.load_agent("a", agent("a", "pa"));
    manager.load_agent("b", agent("b", "pb"));
    let gone = manager.remove_agent("a").expect("agent was there");
    assert_eq!(gone, agent("a", "pa"));
    assert!(manager.get_agent("a").is_none());
    assert_eq!(manager.get_agent("b"), Some(&agent("b", "pb")));
    assert_eq!(manager.remove_agent("a"), None);
    assert_eq!(manager.agents.len(), 1);
}

#[test]
fn agent_files_end_in_toml() {
    assert_eq!(agent_file_name("shell"), "shell.toml");
    assert_eq!(agent_name_of_file("shell.toml"), Some("shell".to_string()));
    assert_eq!(agent_name_of_file("my.agent.toml"), Some("my.agent".to_string()));
    assert_eq!(agent_name_of_file("shell.json"), None);
    assert_eq!(agent_name_of_file("shell"), None);
    assert_eq!(agent_name_of_file(".toml"), None);
    assert_eq!(agent_name_of_file("shell.toml.bak"), None);
    assert_eq!(agent_name_of_file("shell."), None);
    assert_eq!(agent_name_of_file(""), None);
    assert_eq!(agent_name_of_file("toml"), None);
}

#[test]
fn the_prompt_of_a_bare_agent() {
    let prompt = agent("a", "You run commands.").build_system_prompt();
    assert_eq!(prompt, format!("You run commands.\n\n{}{}", ROLE_INTRO, REPLY_RULES));
}

#[test]
fn the_prompt_starts_with_the_description() {
    let mut a = agent("a", "System.");
    a.description = Some("Describes itself".to_string());
    let prompt = a.build_system_prompt();
    assert_eq!(
        prompt,
        format!("Describes itself\n\nSystem.\n\n{}{}", ROLE_INTRO, REPLY_RULES)
    );
}

#[test]
fn the_prompt_lists_variables_and_templates() {
    let mut a = agent("a", "S");
    a.env.insert("chrome".to_string(), "/usr/bin/chrome".to_string());
    a.env.insert("editor".to_string(), "vim".to_string());
    a.templates.insert("open".to_string(), "start {{chrome}} {url}".to_string());
    let prompt = a.build_system_prompt();
    let expected = format!(
        "S\n\n{}{}- chrome\n- editor\n{}{}- open: `start {{{{chrome}}}} {{url}}`\n{}{}",
        ROLE_INTRO, ENV_HEAD, ENV_TAIL, TEMPLATES_HEAD, TEMPLATES_TAIL, REPLY_RULES
    );
    assert_eq!(prompt, expected);
    assert!(!prompt.contains("/usr/bin/chrome"));
}

#[test]
fn the_fixed_texts_of_the_prompt() {
    assert!(ROLE_INTRO.starts_with("作为一个命令执行专家，你需要：\n1. "));
    assert!(ROLE_INTRO.ends_with("4. 确保命令的语法正确\n\n"));
    assert_eq!(ENV_HEAD, "系统已配置以下环境变量，你可以在命令中使用它们：\n");
    assert!(ENV_TAIL.contains("{{chrome}}"));
    assert!(REPLY_RULES.starts_with("请严格按照以下 JSON 格式回复：\n\n{\n    \"thought\""));
    assert!(REPLY_RULES.ends_with("\"response\": \"start notepad\"\n}\n"));
    assert!(REPLY_RULES.contains("\"command\": \"start {{chrome}} https://www.baidu.com\""));
}

#[test]
fn a_reply_with_a_command_asks_for_the_command() {
    let reply = parse("{\"thought\":\"t\",\"command\":\"echo hi\"}").unwrap();
    assert_eq!(parse_turn(&reply), AgentTurnResult::Command("echo hi".to_string()));
}

#[test]
fn a_reply_with_a_response_asks_for_the_response() {
    let reply = parse("{\"thought\":\"t\",\"response\":\"done\"}").unwrap();
    assert_eq!(parse_turn(&reply), AgentTurnResult::Response("done".to_string()));
}

#[test]
fn the_command_wins_over_the_response() {
    let reply = parse("{\"response\":\"r\",\"command\":\"c\"}").unwrap();
    assert_eq!(parse_turn(&reply), AgentTurnResult::Command("c".to_string()));
    let not_a_string = parse("{\"response\":\"r\",\"command\":7}").unwrap();
    assert_eq!(parse_turn(&not_a_string), AgentTurnResult::Response("r".to_string()));
}

#[test]
fn a_reply_with_neither_is_malformed() {
    for text in ["{\"thought\":\"t\"}", "{}", "[]", "\"command\"", "{\"command\":null}"] {
        assert_eq!(parse_turn(&parse(text).unwrap()), AgentTurnResult::Malformed);
    }
}

#[test]
fn read_reply_refuses_what_is_no_json() {
    assert_eq!(
        read_reply("{\"command\":\"ls\"}"),
        Ok(AgentTurnResult::Command("ls".to_string()))
    );
    assert_eq!(
        read_reply("not json"),
        Err(ChatError::InvalidReplyFormat { raw: "not json".to_string() })
    );
    assert_eq!(read_reply("{}"), Ok(AgentTurnResult::Malformed));
}

#[test]
fn read_reply_refuses_json_that_is_no_object() {
    for text in ["[]", "\"command\"", "7", "null"] {
        assert_eq!(
            read_reply(text),
            Err(ChatError::InvalidReplyFormat { raw: text.to_string() })
        );
    }
}

#[test]
fn a_reply_that_is_no_object_fails_the_run() {
    let (mut run, _) = agent("a", "S").begin(provider(), "hello");
    assert_eq!(run.on_reply("[\"command\"]".to_string()), AgentAction::Finish);
    assert_eq!(
        run.into_result(),
        Some(Err(ChatError::InvalidReplyFormat { raw: "[\"command\"]".to_string() }))
    );
}

#[test]
fn a_conversation_collects_messages_in_order() {
    let mut context = ConversationContext::new(provider());
    assert!(context.messages.is_empty());
    context.add_message(Role::System, "s".to_string());
    context.add_message(Role::User, "u".to_string());
    assert_eq!(context.messages, vec![create_message(Role::System, "s".to_string()), user("u")]);
}

#[test]
fn a_run_begins_with_system_and_user_message_and_a_call() {
    let a = agent("a", "S");
    let (run, action) = a.begin(provider(), "list files");
    assert_eq!(action, AgentAction::CallModel);
    assert_eq!(
        run.history(),
        &vec![create_message(Role::System, a.build_system_prompt()), user("list files")]
    );
    assert!(run.get_provider().json_mode());
    assert_eq!(run.get_provider().api_key(), "k");
    assert!(!run.is_terminal());
    assert_eq!(run.into_result(), None);
}

#[test]
fn a_command_is_run_once_and_its_output_ends_the_run() {
    let (mut run, _) = agent("a", "S").begin(provider(), "say hi");
    let reply = "{\"thought\":\"t\",\"command\":\"echo hi\"}";
    let action = run.on_reply(reply.to_string());
    assert_eq!(action, AgentAction::Execute("echo hi".to_string()));
    assert!(!run.is_terminal());
    let action = run.on_executed(Ok("hi\n".to_string()));
    assert_eq!(action, AgentAction::Finish);
    assert!(run.is_terminal());
    let history = run.history();
    assert_eq!(history.len(), 4);
    assert_eq!(history[2], assistant(reply));
    assert_eq!(history[3], user("命令执行成功: hi\n"));
    assert!(history[3].content.contains("hi"));
    assert_eq!(history[3].content, format!("{}hi\n", COMMAND_SUCCEEDED));
    assert_eq!(run.pending_action(), AgentAction::Finish);
    assert_eq!(run.into_result(), Some(Ok(())));
}

#[test]
fn a_response_is_shown_and_ends_the_run_without_a_command() {
    let (mut run, _) = agent("a", "S").begin(provider(), "hello");
    let reply = "{\"thought\":\"t\",\"response\":\"done\"}";
    let action = run.on_reply(reply.to_string());
    assert_eq!(action, AgentAction::Respond("done".to_string()));
    assert!(!run.is_terminal());
    assert_eq!(run.on_executed(Ok("never ran".to_string())), AgentAction::Respond("done".to_string()));
    assert_eq!(run.on_responded(), AgentAction::Finish);
    assert!(run.is_terminal());
    assert_eq!(run.history().len(), 3);
    assert_eq!(run.history()[2], assistant(reply));
    assert_eq!(run.into_result(), Some(Ok(())));
}

#[test]
fn a_malformed_reply_is_corrected_and_the_model_called_once_more() {
    let (mut run, first) = agent("a", "S").begin(provider(), "hello");
    assert_eq!(first, AgentAction::CallModel);
    let reply = "{\"thought\":\"no action\"}";
    let second = run.on_reply(reply.to_string());
    assert_eq!(second, AgentAction::CallModel);
    assert!(!run.is_terminal());
    let history = run.history();
    assert_eq!(history.len(), 4);
    assert_eq!(history[2], assistant(reply));
    assert_eq!(history[3], user(RETRY_MESSAGE));
    assert_eq!(RETRY_MESSAGE, "响应格式错误，请重试");
    let third = run.on_reply("{\"response\":\"ok\"}".to_string());
    assert_eq!(third, AgentAction::Respond("ok".to_string()));
}

#[test]
fn a_failed_command_is_fed_back_and_the_model_asked_again() {
    let (mut run, _) = agent("a", "S").begin(provider(), "do it");
    run.on_reply("{\"command\":\"false\"}".to_string());
    let failure = ChatError::ExecutionFailure { reason: "命令执行失败: boom".to_string() };
    let action = run.on_executed(Err(failure));
    assert_eq!(action, AgentAction::CallModel);
    assert!(!run.is_terminal());
    assert_eq!(run.history().len(), 4);
    assert_eq!(run.history()[3], user("命令执行失败: 命令执行失败: boom"));
    assert_eq!(run.history()[3].content, format!("{}命令执行失败: boom", COMMAND_FAILED));
}

#[test]
fn an_empty_reply_ends_the_run_without_an_error() {
    let (mut run, _) = agent("a", "S").begin(provider(), "hello");
    assert_eq!(run.on_reply(String::new()), AgentAction::Finish);
    assert!(run.is_terminal());
    assert_eq!(run.history().len(), 2);
    assert_eq!(run.into_result(), Some(Ok(())));
}

#[test]
fn a_reply_that_is_no_json_fails_the_run() {
    let (mut run, _) = agent("a", "S").begin(provider(), "hello");
    assert_eq!(run.on_reply("{\"thought\":".to_string()), AgentAction::Finish);
    assert!(run.is_terminal());
    assert_eq!(run.history().len(), 3);
    assert_eq!(
        run.into_result(),
        Some(Err(ChatError::InvalidReplyFormat { raw: "{\"thought\":".to_string() }))
    );
}

#[test]
fn a_failed_turn_fails_the_run() {
    let (mut run, _) = agent("a", "S").begin(provider(), "hello");
    let error = ChatError::Transport { status: 500, body: "oops".to_string() };
    assert_eq!(run.on_reply_failed(error.clone()), AgentAction::Finish);
    assert_eq!(run.into_result(), Some(Err(error)));
}

#[test]
fn the_reply_can_be_taken_and_looked_at_in_two_steps() {
    let (mut run, _) = agent("a", "S").begin(provider(), "hello");
    assert_eq!(run.receive_reply("{\"command\":\"ls\"}".to_string()), AgentAction::Parse);
    assert_eq!(run.history().len(), 3);
    assert_eq!(run.interpret_reply(), AgentAction::Execute("ls".to_string()));
    assert_eq!(run.interpret_reply(), AgentAction::Execute("ls".to_string()));
}

#[test]
fn a_finished_run_stays_finished() {
    let (mut run, _) = agent("a", "S").begin(provider(), "hello");
    run.on_reply(String::new());
    assert_eq!(run.on_reply("{\"command\":\"ls\"}".to_string()), AgentAction::Finish);
    assert_eq!(run.on_executed(Ok("x".to_string())), AgentAction::Finish);
    assert_eq!(run.on_responded(), AgentAction::Finish);
    assert_eq!(run.history().len(), 2);
}

#[test]
fn the_executor_of_an_agent_has_its_variables() {
    let mut a = agent("a", "S");
    a.env.insert("name".to_string(), "world".to_string());
    assert_eq!(a.executor().substitute("echo {{name}}"), "echo world");
}
