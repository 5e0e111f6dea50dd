use gpt_shell::executor::{
    conclude, names_variable, CommandExecutor, EXECUTION_FAILED, UNRESOLVED_VARIABLE,
};
use gpt_shell::llm_provider::ChatError;
use gpt_shell::string_map::StringMap;

fn executor(pairs: &[(&str, &str)]) -> CommandExecutor {
    let mut env = StringMap::new();
    for (k, v) in pairs {
        env.insert(k.to_string(), v.to_string());
    }
    CommandExecutor::new(env)
}

#[test]
fn a_command_without_variables_stays_as_it_is() {
    let e = executor(&[("chrome", "/usr/bin/chrome")]);
    assert_eq!(e.substitute("ls -la"), "ls -la");
    assert_eq!(e.prepare("ls -la"), Ok("ls -la".to_string()));
    assert_eq!(executor(&[]).prepare("echo hi"), Ok("echo hi".to_string()));
}

#[test]
fn every_occurrence_of_a_variable_is_replaced() {
    let e = executor(&[("x", "1"), ("name", "world")]);
    assert_eq!(e.substitute("echo {{x}} {{name}} {{x}}{{x}}"), "echo 1 world 11");
    assert_eq!(e.prepare("start {{name}}"), Ok("start world".to_string()));
}

#[test]
fn variables_are_replaced_one_after_the_other() {
    let e = executor(&[("a", "{{b}}"), ("b", "done")]);
    assert_eq!(e.substitute("{{a}}"), "done");
    let reversed = executor(&[("b", "done"), ("a", "{{b}}")]);
    assert_eq!(reversed.substitute("{{a}}"), "{{b}}");
}

#[test]
fn a_variable_that_is_left_fails_the_command() {
    let e = executor(&[("chrome", "c")]);
    assert_eq!(
        e.prepare("start {{firefox}} {{chrome}}"),
        Err(ChatError::ExecutionFailure {
            reason: "命令中存在未替换的变量: start {{firefox}} c".to_string()
        })
    );
    assert_eq!(UNRESOLVED_VARIABLE, "命令中存在未替换的变量: ");
}

#[test]
fn braces_of_one_kind_alone_are_no_variable() {
    let e = executor(&[]);
    assert_eq!(e.prepare("echo {{"), Ok("echo {{".to_string()));
    assert_eq!(e.prepare("echo }}"), Ok("echo }}".to_string()));
    assert_eq!(e.prepare("echo {x}"), Ok("echo {x}".to_string()));
}

#[test]
fn closing_braces_before_opening_braces_are_no_variable() {
    let e = executor(&[]);
    assert_eq!(e.prepare("echo '}} {{'"), Ok("echo '}} {{'".to_string()));
    assert_eq!(e.prepare("}}{{"), Ok("}}{{".to_string()));
    assert_eq!(e.prepare("{{}"), Ok("{{}".to_string()));
    assert_eq!(e.prepare("{{{"), Ok("{{{".to_string()));
}

#[test]
fn an_opening_followed_by_a_closing_is_a_variable() {
    assert!(names_variable("{{x}}"));
    assert!(names_variable("{{}}"));
    assert!(names_variable("a {{ b c }} d"));
    assert!(names_variable("}} {{ }}"));
    assert!(names_variable("{{{}}"));
    assert!(!names_variable("{{}"));
    assert!(!names_variable("{}}"));
    assert!(!names_variable("}} {{"));
    assert!(!names_variable(""));
    let e = executor(&[]);
    assert!(e.prepare("echo }} {{ }}").is_err());
}

#[test]
fn a_successful_run_gives_its_output() {
    assert_eq!(conclude(true, "hi\n".to_string(), "warn".to_string()), Ok("hi\n".to_string()));
    assert_eq!(conclude(true, String::new(), String::new()), Ok(String::new()));
}

#[test]
fn a_failed_run_gives_its_error_output() {
    assert_eq!(
        conclude(false, "partial".to_string(), "no such file".to_string()),
        Err(ChatError::ExecutionFailure { reason: "命令执行失败: no such file".to_string() })
    );
    assert_eq!(EXECUTION_FAILED, "命令执行失败: ");
}
