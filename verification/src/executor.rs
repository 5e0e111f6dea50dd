//! The command executor: what happens to a command before the shell sees it
//! and to what the shell gives back. Running the shell is the caller's.

use crate::llm_provider::{ChatError, ChatFault};
use crate::string_map::StringMap;
use crate::text::{find_from, occurs_at, replace_all, replace_in, to_chars};
use vstd::prelude::*;
use vstd::string::StringExecFns;

verus! {

/// What stands before a command in which a variable is left.
pub const UNRESOLVED_VARIABLE: &'static str = "命令中存在未替换的变量: ";

/// What stands before the error output of a command that failed.
pub const EXECUTION_FAILED: &'static str = "命令执行失败: ";

/// How a command names the variable `key`: the key between double braces.
pub open spec fn placeholder(key: Seq<char>) -> Seq<char> {
    "{{"@ + key + "}}"@
}

/// `command` after each of `keys`, in order, has had its placeholder
/// replaced by the value that `values` holds for it.
pub open spec fn substituted(
    command: Seq<char>,
    keys: Seq<Seq<char>>,
    values: Map<Seq<char>, String>,
) -> Seq<char>
    decreases keys.len(),
{
    if keys.len() == 0 {
        command
    } else {
        replace_all(
            substituted(command, keys.drop_last(), values),
            placeholder(keys.last()),
            values[keys.last()]@,
        )
    }
}

/// A command still names a variable: somewhere in it a `{{` is followed,
/// at once or later, by a `}}`.
pub open spec fn unresolved(command: Seq<char>) -> bool {
    exists|i: int, j: int|
        #[trigger] occurs_at(command, "{{"@, i) && #[trigger] occurs_at(command, "}}"@, j) && i + 2
            <= j
}

/// What a command is turned into before it runs: the command with its
/// variables filled in, or the failure that a variable is left.
pub open spec fn prepared(
    command: Seq<char>,
    keys: Seq<Seq<char>>,
    values: Map<Seq<char>, String>,
) -> Result<Seq<char>, ChatFault> {
    let filled = substituted(command, keys, values);
    if unresolved(filled) {
        Err(ChatFault::ExecutionFailure { reason: UNRESOLVED_VARIABLE@ + filled })
    } else {
        Ok(filled)
    }
}

/// What a run of the shell amounts to: its output where it succeeded, and
/// the failure with its error output where it did not.
pub open spec fn concluded(success: bool, stdout: Seq<char>, stderr: Seq<char>) -> Result<
    Seq<char>,
    ChatFault,
> {
    if success {
        Ok(stdout)
    } else {
        Err(ChatFault::ExecutionFailure { reason: EXECUTION_FAILED@ + stderr })
    }
}

/// Runs the commands that an agent proposes, with the agent's variables.
pub struct CommandExecutor {
    env: StringMap<String>,
}

impl CommandExecutor {
    /// The variables that commands may name.
    pub closed spec fn env(&self) -> StringMap<String> {
        self.env
    }

    /// An executor with the variables `env`.
    pub fn new(env: StringMap<String>) -> (e: CommandExecutor)
        ensures
            e.env() == env,
    {
        CommandExecutor { env }
    }

    /// `command` with the placeholder of each variable replaced by its value,
    /// variable after variable in their order.
    pub fn substitute(&self, command: &str) -> (r: String)
        ensures
            r@ == substituted(command@, self.env().keys(), self.env()@),
    {
        let ghost keys = self.env.keys();
        let n = self.env.len();
        let mut r = command.to_string();
        let mut i: usize = 0;
        assert(keys.take(0) =~= Seq::<Seq<char>>::empty());
        while i < n
            invariant
                i <= n,
                n == keys.len(),
                keys == self.env.keys(),
                r@ == substituted(command@, keys.take(i as int), self.env@),
            decreases n - i,
        {
            let key = self.env.key_at(i);
            let value = self.env.value_at(i);
            proof {
                assert(keys.take(i as int + 1).drop_last() =~= keys.take(i as int));
                assert(keys.take(i as int + 1).last() == keys[i as int]);
            }
            let mut pattern = "{{".to_string();
            pattern.append(key.as_str());
            pattern.append("}}");
            r = replace_in(r.as_str(), pattern.as_str(), value.as_str());
            i += 1;
        }
        assert(keys.take(n as int) =~= keys);
        r
    }

    /// Makes `command` ready to run: fills in its variables, and fails if
    /// one is left.
    pub fn prepare(&self, command: &str) -> (r: Result<String, ChatError>)
        ensures
            match r {
                Ok(c) => prepared(command@, self.env().keys(), self.env()@) == Ok::<
                    Seq<char>,
                    ChatFault,
                >(c@),
                Err(e) => prepared(command@, self.env().keys(), self.env()@) == Err::<
                    Seq<char>,
                    ChatFault,
                >(e@),
            },
    {
        let filled = self.substitute(command);
        if names_variable(filled.as_str()) {
            let mut reason = UNRESOLVED_VARIABLE.to_string();
            reason.append(filled.as_str());
            Err(ChatError::ExecutionFailure { reason })
        } else {
            Ok(filled)
        }
    }
}

/// Whether a command still names a variable.
pub fn names_variable(command: &str) -> (b: bool)
    ensures
        b == unresolved(command@),
{
    let text = to_chars(command);
    let open = to_chars("{{");
    let close = to_chars("}}");
    proof {
        reveal_strlit("{{");
        reveal_strlit("}}");
    }
    match find_from(&text, &open, 0) {
        Some(first) => {
            assert(open@.len() == 2);
            assert(first + 2 <= text.len());
            match find_from(&text, &close, first + 2) {
                Some(_) => true,
                None => {
                    assert forall|i: int, j: int|
                        #[trigger] occurs_at(text@, "{{"@, i) && #[trigger] occurs_at(
                            text@,
                            "}}"@,
                            j,
                        ) implies !(i + 2 <= j) by {
                        assert(first <= i);
                    }
                    false
                },
            }
        },
        None => false,
    }
}

/// Reads the end of a run of the shell.
pub fn conclude(success: bool, stdout: String, stderr: String) -> (r: Result<String, ChatError>)
    ensures
        match r {
            Ok(out) => concluded(success, stdout@, stderr@) == Ok::<Seq<char>, ChatFault>(out@),
            Err(e) => concluded(success, stdout@, stderr@) == Err::<Seq<char>, ChatFault>(e@),
        },
{
    if success {
        Ok(stdout)
    } else {
        let mut reason = EXECUTION_FAILED.to_string();
        reason.append(stderr.as_str());
        Err(ChatError::ExecutionFailure { reason })
    }
}

} // verus!
