//! Bot presets: named system prompts, one-letter aliases for them, and the
//! bot that is in use. Reading and writing the file that keeps them is the
//! caller's.

use crate::string_map::StringMap;
use crate::text::{byte_len, opt_text};
use vstd::prelude::*;
use vstd::string::{StringExecFns, StringSliceAdditionalSpecFns};

verus! {

/// A bot preset: a named system prompt.
#[derive(Debug, PartialEq, Eq)]
pub struct Bot {
    pub name: String,
    pub system_prompt: String,
}

/// The bots that the client knows.
#[derive(Debug)]
pub struct BotsConfig {
    pub bots: StringMap<Bot>,
    /// From an alias to the name of the bot that it stands for.
    pub aliases: StringMap<String>,
    /// The name of the bot in use.
    pub current: Option<String>,
}

/// Why a change to the bots was refused.
#[derive(Debug, PartialEq, Eq)]
pub enum BotsError {
    /// No bot has this name.
    BotNotFound(String),
    /// An alias must be one character that takes one byte.
    AliasNotSingle,
    /// No alias of this name is set.
    AliasNotFound(String),
    /// The bot that was to be put in use does not exist.
    UnknownBot(String),
}

/// The mathematical value of a [`BotsError`].
pub enum BotsFault {
    BotNotFound(Seq<char>),
    AliasNotSingle,
    AliasNotFound(Seq<char>),
    UnknownBot(Seq<char>),
}

impl View for BotsError {
    type V = BotsFault;

    open spec fn view(&self) -> BotsFault {
        match *self {
            BotsError::BotNotFound(n) => BotsFault::BotNotFound(n@),
            BotsError::AliasNotSingle => BotsFault::AliasNotSingle,
            BotsError::AliasNotFound(a) => BotsFault::AliasNotFound(a@),
            BotsError::UnknownBot(n) => BotsFault::UnknownBot(n@),
        }
    }
}

impl BotsFault {
    /// What the user is told.
    pub open spec fn message(self) -> Seq<char> {
        match self {
            BotsFault::BotNotFound(n) => "bot not found: "@ + n,
            BotsFault::AliasNotSingle => "alias must be a single character"@,
            BotsFault::AliasNotFound(a) => "alias not found: "@ + a,
            BotsFault::UnknownBot(n) => "机器人不存在: "@ + n,
        }
    }
}

impl BotsError {
    /// What the user is told.
    pub fn message(&self) -> (r: String)
        ensures
            r@ == self@.message(),
    {
        match self {
            BotsError::BotNotFound(n) => {
                let mut r = "bot not found: ".to_string();
                r.append(n.as_str());
                r
            },
            BotsError::AliasNotSingle => "alias must be a single character".to_string(),
            BotsError::AliasNotFound(a) => {
                let mut r = "alias not found: ".to_string();
                r.append(a.as_str());
                r
            },
            BotsError::UnknownBot(n) => {
                let mut r = "机器人不存在: ".to_string();
                r.append(n.as_str());
                r
            },
        }
    }
}

impl BotsConfig {
    /// No bots, no aliases, no bot in use.
    pub fn new() -> (c: BotsConfig)
        ensures
            c.bots@ == Map::<Seq<char>, Bot>::empty(),
            c.bots.keys() == Seq::<Seq<char>>::empty(),
            c.aliases@ == Map::<Seq<char>, String>::empty(),
            c.aliases.keys() == Seq::<Seq<char>>::empty(),
            c.current is None,
    {
        BotsConfig { bots: StringMap::new(), aliases: StringMap::new(), current: None }
    }

    /// Adds the bot `name` with its system prompt, in place of any bot of
    /// that name.
    pub fn add_bot(&mut self, name: String, system_prompt: String)
        ensures
            final(self).bots@ == old(self).bots@.insert(name@, Bot { name, system_prompt }),
            final(self).bots.keys() == old(self).bots.keys_with(name@),
            final(self).aliases == old(self).aliases,
            final(self).current == old(self).current,
    {
        let key = name.clone();
        let _ = self.bots.insert(key, Bot { name, system_prompt });
    }

    /// Removes the bot `name`. Aliases and the bot in use stay as they are.
    pub fn remove_bot(&mut self, name: &str) -> (r: Result<(), BotsError>)
        ensures
            final(self).aliases == old(self).aliases,
            final(self).current == old(self).current,
            final(self).bots@ == old(self).bots@.remove(name@),
            final(self).bots.keys() == old(self).bots.keys_without(name@),
            match r {
                Ok(_) => old(self).bots@.dom().contains(name@),
                Err(e) => !old(self).bots@.dom().contains(name@) && e@ == BotsFault::BotNotFound(
                    name@,
                ),
            },
    {
        match self.bots.remove(name) {
            Some(_) => Ok(()),
            None => Err(BotsError::BotNotFound(name.to_string())),
        }
    }

    /// The bot `name`.
    pub fn get_bot(&self, name: &str) -> (r: Option<&Bot>)
        ensures
            match r {
                Some(b) => self.bots.value_of(name@) == Some(*b),
                None => self.bots.value_of(name@) is None,
            },
    {
        self.bots.get(name)
    }

    /// Lets `alias` stand for `bot`. The alias must take one byte and the
    /// bot must exist; the length is tested first.
    pub fn set_alias(&mut self, bot: String, alias: String) -> (r: Result<(), BotsError>)
        ensures
            final(self).bots == old(self).bots,
            final(self).current == old(self).current,
            match r {
                Ok(_) => {
                    &&& byte_len(alias@) == 1
                    &&& old(self).bots@.dom().contains(bot@)
                    &&& final(self).aliases@ == old(self).aliases@.insert(alias@, bot)
                    &&& final(self).aliases.keys() == old(self).aliases.keys_with(alias@)
                },
                Err(e) => {
                    &&& final(self).aliases == old(self).aliases
                    &&& byte_len(alias@) != 1 ==> e@ == BotsFault::AliasNotSingle
                    &&& byte_len(alias@) == 1 ==> !old(self).bots@.dom().contains(
                        bot@,
                    ) && e@ == BotsFault::BotNotFound(bot@)
                },
            },
    {
        if alias.as_str().as_bytes().len() != 1 {
            return Err(BotsError::AliasNotSingle);
        }
        if !self.bots.contains_key(bot.as_str()) {
            return Err(BotsError::BotNotFound(bot));
        }
        let _ = self.aliases.insert(alias, bot);
        Ok(())
    }

    /// Removes `alias` and returns the name of the bot that it stood for.
    pub fn remove_alias(&mut self, alias: &str) -> (r: Result<String, BotsError>)
        ensures
            final(self).bots == old(self).bots,
            final(self).current == old(self).current,
            final(self).aliases@ == old(self).aliases@.remove(alias@),
            final(self).aliases.keys() == old(self).aliases.keys_without(alias@),
            match r {
                Ok(bot) => old(self).aliases.value_of(alias@) == Some(bot),
                Err(e) => old(self).aliases.value_of(alias@) is None && e@
                    == BotsFault::AliasNotFound(alias@),
            },
    {
        match self.aliases.remove(alias) {
            Some(bot) => Ok(bot),
            None => Err(BotsError::AliasNotFound(alias.to_string())),
        }
    }

    /// The name of the bot that `alias` stands for.
    pub fn get_bot_by_alias(&self, alias: &str) -> (r: Option<&String>)
        ensures
            match r {
                Some(b) => self.aliases.value_of(alias@) == Some(*b),
                None => self.aliases.value_of(alias@) is None,
            },
    {
        self.aliases.get(alias)
    }

    /// Puts the bot `name` in use. The bot must exist.
    pub fn set_current(&mut self, name: &str) -> (r: Result<(), BotsError>)
        ensures
            final(self).bots == old(self).bots,
            final(self).aliases == old(self).aliases,
            match r {
                Ok(_) => old(self).bots@.dom().contains(name@) && opt_text(final(self).current)
                    == Some(name@),
                Err(e) => !old(self).bots@.dom().contains(name@) && final(self).current == old(self).current && e@ == BotsFault::UnknownBot(name@),
            },
    {
        if !self.bots.contains_key(name) {
            return Err(BotsError::UnknownBot(name.to_string()));
        }
        self.current = Some(name.to_string());
        Ok(())
    }

    /// Puts no bot in use.
    pub fn clear_current(&mut self)
        ensures
            final(self).bots == old(self).bots,
            final(self).aliases == old(self).aliases,
            final(self).current is None,
    {
        self.current = None;
    }

    /// The bot in use: the bot whose name is kept as current, if that bot
    /// exists.
    pub fn get_current(&self) -> (r: Option<&Bot>)
        ensures
            match r {
                Some(b) => self.current matches Some(n) && self.bots.value_of(n@) == Some(*b),
                None => self.current matches Some(n) ==> self.bots.value_of(n@) is None,
            },
    {
        match &self.current {
            Some(name) => self.bots.get(name.as_str()),
            None => None,
        }
    }
}

impl Default for BotsConfig {
    fn default() -> (c: BotsConfig)
        ensures
            c.bots@ == Map::<Seq<char>, Bot>::empty(),
            c.aliases@ == Map::<Seq<char>, String>::empty(),
            c.current is None,
    {
        BotsConfig::new()
    }
}

} // verus!
