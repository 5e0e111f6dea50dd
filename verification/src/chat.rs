//! Plain chat: how a conversation opens, what a line typed by the user
//! means, and what of a turn goes into the history.

use crate::bots::{BotsConfig, BotsError, BotsFault};
use crate::config::Config;
use crate::llm_provider::{create_message, history_view, Message, MessageValue, Role};
use crate::text::{opt_text, str_eq, trim, trimmed};
use vstd::prelude::*;

verus! {

/// The word that ends an interactive conversation.
pub const EXIT_WORD: &'static str = "exit";

/// What a line typed by the user means.
#[derive(Debug, PartialEq, Eq)]
pub enum ReplInput {
    /// Nothing: the line is blank.
    Skip,
    /// Leave the conversation.
    Exit,
    /// Send this text to the model.
    Send(String),
}

/// The mathematical value of a [`ReplInput`].
pub enum ReplLine {
    Skip,
    Exit,
    Send(Seq<char>),
}

impl View for ReplInput {
    type V = ReplLine;

    open spec fn view(&self) -> ReplLine {
        match *self {
            ReplInput::Skip => ReplLine::Skip,
            ReplInput::Exit => ReplLine::Exit,
            ReplInput::Send(t) => ReplLine::Send(t@),
        }
    }
}

/// What a line means, the white space around it aside: nothing where it is
/// blank, the end of the conversation where it is the word `exit`, and else
/// a text for the model.
pub open spec fn line_meaning(line: Seq<char>) -> ReplLine {
    let text = trim(line);
    if text.len() == 0 {
        ReplLine::Skip
    } else if text == EXIT_WORD@ {
        ReplLine::Exit
    } else {
        ReplLine::Send(text)
    }
}

/// What a line typed by the user means.
pub fn read_input(line: &str) -> (r: ReplInput)
    ensures
        r@ == line_meaning(line@),
{
    let text = trimmed(line);
    if text.is_empty() {
        ReplInput::Skip
    } else if str_eq(text, EXIT_WORD) {
        ReplInput::Exit
    } else {
        ReplInput::Send(text.to_string())
    }
}

/// The system prompt with which a conversation opens: that of the bot that
/// was asked for, which must exist; else that of the bot in use; else the
/// configuration's; else none.
pub open spec fn opening_prompt(bot_name: Option<Seq<char>>, bots: BotsConfig, config: Config) -> Result<
    Option<Seq<char>>,
    BotsFault,
> {
    match bot_name {
        Some(name) => match bots.bots.value_of(name) {
            Some(bot) => Ok(Some(bot.system_prompt@)),
            None => Err(BotsFault::BotNotFound(name)),
        },
        None => match current_bot_prompt(bots) {
            Some(p) => Ok(Some(p)),
            None => Ok(opt_text(config.system_prompt)),
        },
    }
}

/// The system prompt of the bot in use, where a bot is in use and exists.
pub open spec fn current_bot_prompt(bots: BotsConfig) -> Option<Seq<char>> {
    match bots.current {
        Some(name) => match bots.bots.value_of(name@) {
            Some(bot) => Some(bot.system_prompt@),
            None => None,
        },
        None => None,
    }
}

/// The history with which a conversation opens: the system prompt, where
/// there is one, as the only message.
pub open spec fn opening_history(prompt: Option<Seq<char>>) -> Seq<MessageValue> {
    match prompt {
        Some(p) => seq![
            MessageValue { role: Role::System, content: p, name: None, function_call: None },
        ],
        None => Seq::empty(),
    }
}

/// The history with which a conversation opens.
pub fn opening_messages(bot_name: Option<&str>, bots: &BotsConfig, config: &Config) -> (r: Result<
    Vec<Message>,
    BotsError,
>)
    ensures
        match r {
            Ok(h) => match opening_prompt(
                match bot_name {
                    Some(n) => Some(n@),
                    None => None,
                },
                *bots,
                *config,
            ) {
                Ok(p) => history_view(h@) == opening_history(p),
                Err(_) => false,
            },
            Err(e) => opening_prompt(
                match bot_name {
                    Some(n) => Some(n@),
                    None => None,
                },
                *bots,
                *config,
            ) == Err::<Option<Seq<char>>, BotsFault>(e@),
        },
{
    let prompt: Option<String> = match bot_name {
        Some(name) => match bots.get_bot(name) {
            Some(bot) => Some(bot.system_prompt.clone()),
            None => {
                return Err(BotsError::BotNotFound(name.to_string()));
            },
        },
        None => match bots.get_current() {
            Some(bot) => Some(bot.system_prompt.clone()),
            None => match &config.system_prompt {
                Some(p) => Some(p.clone()),
                None => None,
            },
        },
    };
    let mut history: Vec<Message> = Vec::new();
    match prompt {
        Some(p) => {
            history.push(create_message(Role::System, p));
            assert(history_view(history@) =~= opening_history(Some(p@)));
        },
        None => {
            assert(history_view(history@) =~= opening_history(None));
        },
    }
    Ok(history)
}

/// Appends what the user said to the history.
pub fn push_user(history: &mut Vec<Message>, text: String)
    ensures
        history_view(final(history)@) == history_view(old(history)@).push(
            MessageValue { role: Role::User, content: text@, name: None, function_call: None },
        ),
{
    history.push(create_message(Role::User, text));
    assert(history_view(history@) =~= history_view(old(history)@).push(
        MessageValue { role: Role::User, content: text@, name: None, function_call: None },
    ));
}

/// Appends the model's reply to the history, unless it is empty: a turn
/// that gave no text leaves no message.
pub fn record_reply(history: &mut Vec<Message>, reply: String)
    ensures
        reply@.len() == 0 ==> history_view(final(history)@) == history_view(old(history)@),
        reply@.len() > 0 ==> history_view(final(history)@) == history_view(old(history)@).push(
            MessageValue {
                role: Role::Assistant,
                content: reply@,
                name: None,
                function_call: None,
            },
        ),
{
    if !reply.as_str().is_empty() {
        history.push(create_message(Role::Assistant, reply));
        assert(history_view(history@) =~= history_view(old(history)@).push(
            MessageValue {
                role: Role::Assistant,
                content: reply@,
                name: None,
                function_call: None,
            },
        ));
    }
}

/// The bot that raised alias flags ask for: the bot of the first raised
/// alias that stands for one.
pub open spec fn bot_of_aliases(raised: Seq<Seq<char>>, aliases: Map<Seq<char>, String>) -> Option<
    Seq<char>,
>
    decreases raised.len(),
{
    if raised.len() == 0 {
        None
    } else if aliases.dom().contains(raised[0]) {
        Some(aliases[raised[0]]@)
    } else {
        bot_of_aliases(raised.drop_first(), aliases)
    }
}

/// The aliases as character sequences.
pub open spec fn texts(list: Seq<String>) -> Seq<Seq<char>> {
    Seq::new(list.len(), |i: int| list[i]@)
}

/// The name of the bot that the command line asks for: the bot of the first
/// raised alias that stands for one, else the bot that was named.
pub fn choose_bot(bots: &BotsConfig, raised: &Vec<String>, named: Option<String>) -> (r: Option<
    String,
>)
    ensures
        opt_text(r) == match bot_of_aliases(texts(raised@), bots.aliases@) {
            Some(b) => Some(b),
            None => opt_text(named),
        },
{
    let ghost all = texts(raised@);
    let mut i: usize = 0;
    assert(all.skip(0) =~= all);
    while i < raised.len()
        invariant
            i <= raised.len(),
            all == texts(raised@),
            bot_of_aliases(all, bots.aliases@) == bot_of_aliases(all.skip(i as int), bots.aliases@),
        decreases raised.len() - i,
    {
        assert(all.skip(i as int)[0] == raised@[i as int]@);
        assert(all.skip(i as int).drop_first() =~= all.skip(i as int + 1));
        match bots.get_bot_by_alias(raised[i].as_str()) {
            Some(bot) => {
                return Some(bot.clone());
            },
            None => {},
        }
        i += 1;
    }
    named
}

/// Where an interactive conversation stands.
#[derive(Clone, Copy, Debug, PartialEq, Eq, Structural)]
pub enum ReplPhase {
    /// The user is to type a line.
    AwaitingLine,
    /// The model is to answer.
    AwaitingReply,
    /// The user has left.
    Ended,
}

/// Something for the caller of an interactive conversation to do.
#[derive(Clone, Copy, Debug, PartialEq, Eq, Structural)]
pub enum ReplEffect {
    /// Set the cancellation flag to running: a new turn starts.
    Rearm,
    /// Show the prompt and read a line.
    Prompt,
    /// Ask the model for an answer to the history.
    Ask,
    /// Say good-bye.
    Farewell,
}

/// The state of an interactive conversation as a mathematical value.
pub struct ReplState {
    pub phase: ReplPhase,
    pub history: Seq<MessageValue>,
}

/// A message with nothing but a role and a content.
pub open spec fn said(role: Role, content: Seq<char>) -> MessageValue {
    MessageValue { role, content, name: None, function_call: None }
}

/// What a line does to a conversation that waits for one. The end of the
/// input and the word `exit` end the conversation. A blank line starts the
/// next turn. Any other line joins the history as the user's message, and the
/// model is asked.
pub open spec fn repl_line(s: ReplState, line: Option<Seq<char>>) -> (ReplState, Seq<ReplEffect>) {
    if s.phase != ReplPhase::AwaitingLine {
        (s, Seq::empty())
    } else {
        match line {
            None => (ReplState { phase: ReplPhase::Ended, ..s }, seq![ReplEffect::Farewell]),
            Some(l) => match line_meaning(l) {
                ReplLine::Skip => (s, seq![ReplEffect::Rearm, ReplEffect::Prompt]),
                ReplLine::Exit => (
                    ReplState { phase: ReplPhase::Ended, ..s },
                    seq![ReplEffect::Farewell],
                ),
                ReplLine::Send(text) => (
                    ReplState {
                        phase: ReplPhase::AwaitingReply,
                        history: s.history.push(said(Role::User, text)),
                    },
                    seq![ReplEffect::Ask],
                ),
            },
        }
    }
}

/// What the model's answer does to a conversation that waits for it: the
/// answer joins the history unless it is empty, and the next turn starts.
pub open spec fn repl_reply(s: ReplState, reply: Seq<char>) -> (ReplState, Seq<ReplEffect>) {
    if s.phase != ReplPhase::AwaitingReply {
        (s, Seq::empty())
    } else {
        (
            ReplState {
                phase: ReplPhase::AwaitingLine,
                history: if reply.len() > 0 {
                    s.history.push(said(Role::Assistant, reply))
                } else {
                    s.history
                },
            },
            seq![ReplEffect::Rearm, ReplEffect::Prompt],
        )
    }
}

/// In `effects`, the flag is re-armed just before each prompt.
pub open spec fn rearmed_before_prompt(effects: Seq<ReplEffect>) -> bool {
    forall|i: int|
        0 <= i < effects.len() && #[trigger] effects[i] == ReplEffect::Prompt ==> i > 0
            && effects[i - 1] == ReplEffect::Rearm
}

/// Every new turn starts with the cancellation flag re-armed: whatever a
/// conversation is told, it asks for a prompt only right after it has asked
/// for the flag to be set to running.
pub proof fn lemma_rearm_starts_each_turn(s: ReplState, line: Option<Seq<char>>, reply: Seq<char>)
    ensures
        rearmed_before_prompt(repl_line(s, line).1),
        rearmed_before_prompt(repl_reply(s, reply).1),
{
}

/// An interactive conversation.
pub struct Repl {
    phase: ReplPhase,
    history: Vec<Message>,
}

impl View for Repl {
    type V = ReplState;

    closed spec fn view(&self) -> ReplState {
        ReplState { phase: self.phase, history: history_view(self.history@) }
    }
}

impl Repl {
    /// Opens a conversation on `history`: the first turn starts.
    pub fn open(history: Vec<Message>) -> (r: (Repl, Vec<ReplEffect>))
        ensures
            r.0@ == (ReplState {
                phase: ReplPhase::AwaitingLine,
                history: history_view(history@),
            }),
            r.1@ == seq![ReplEffect::Rearm, ReplEffect::Prompt],
    {
        (
            Repl { phase: ReplPhase::AwaitingLine, history },
            vec![ReplEffect::Rearm, ReplEffect::Prompt],
        )
    }

    /// Where the conversation stands.
    pub fn phase(&self) -> (p: ReplPhase)
        ensures
            p == self@.phase,
    {
        self.phase
    }

    /// The conversation so far, oldest message first.
    pub fn history(&self) -> (h: &Vec<Message>)
        ensures
            history_view(h@) == self@.history,
    {
        &self.history
    }

    /// Takes the line that the user typed; `None` where the input has ended.
    pub fn on_line(&mut self, line: Option<&str>) -> (effects: Vec<ReplEffect>)
        ensures
            final(self)@ == repl_line(
                old(self)@,
                match line {
                    Some(l) => Some(l@),
                    None => None,
                },
            ).0,
            effects@ == repl_line(
                old(self)@,
                match line {
                    Some(l) => Some(l@),
                    None => None,
                },
            ).1,
    {
        match self.phase {
            ReplPhase::AwaitingLine => {},
            _ => {
                return Vec::new();
            },
        }
        let meaning = match line {
            Some(l) => read_input(l),
            None => ReplInput::Exit,
        };
        match meaning {
            ReplInput::Skip => vec![ReplEffect::Rearm, ReplEffect::Prompt],
            ReplInput::Exit => {
                self.phase = ReplPhase::Ended;
                vec![ReplEffect::Farewell]
            },
            ReplInput::Send(text) => {
                push_user(&mut self.history, text);
                self.phase = ReplPhase::AwaitingReply;
                vec![ReplEffect::Ask]
            },
        }
    }

    /// Takes the model's answer.
    pub fn on_reply(&mut self, reply: String) -> (effects: Vec<ReplEffect>)
        ensures
            final(self)@ == repl_reply(old(self)@, reply@).0,
            effects@ == repl_reply(old(self)@, reply@).1,
    {
        match self.phase {
            ReplPhase::AwaitingReply => {},
            _ => {
                return Vec::new();
            },
        }
        record_reply(&mut self.history, reply);
        self.phase = ReplPhase::AwaitingLine;
        vec![ReplEffect::Rearm, ReplEffect::Prompt]
    }
}

} // verus!
