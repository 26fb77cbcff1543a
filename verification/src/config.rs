//! The rule store: notification rules as configured, and as parsed.

use vstd::prelude::*;

use crate::error::ConfigError;
use crate::recurrence::{cron_parses, Recurrence};

verus! {

/// What a notification rule says: the mathematical content shared by a
/// configured record and the rule parsed from it.
pub struct Rule {
    pub name: Seq<char>,
    pub body: Seq<char>,
    pub icon: Option<Seq<char>>,
    pub cron: Seq<char>,
}

/// The text of an optional string; `None` stays `None`.
pub open spec fn optional_text(text: Option<String>) -> Option<Seq<char>> {
    match text {
        Some(text) => Some(text@),
        None => None,
    }
}

/// One notification rule as it stands in the configuration.
#[derive(Debug)]
pub struct RawNotification {
    pub name: String,
    pub body: String,
    pub icon: Option<String>,
    pub cron: String,
}

impl View for RawNotification {
    type V = Rule;

    open spec fn view(&self) -> Rule {
        Rule {
            name: self.name@,
            body: self.body@,
            icon: optional_text(self.icon),
            cron: self.cron@,
        }
    }
}

/// The configuration as loaded: the rules in the order they were declared.
#[derive(Debug)]
pub struct RawConfig {
    pub notifications: Vec<RawNotification>,
}

impl View for RawConfig {
    type V = Seq<Rule>;

    open spec fn view(&self) -> Seq<Rule> {
        self.notifications@.map_values(|record: RawNotification| record@)
    }
}

/// A notification rule whose cron expression has been parsed. It cannot be
/// changed once built.
#[derive(Debug)]
pub struct ParsedNotification {
    name: String,
    body: String,
    icon: Option<String>,
    cron: Recurrence,
}

impl View for ParsedNotification {
    type V = Rule;

    closed spec fn view(&self) -> Rule {
        Rule {
            name: self.name@,
            body: self.body@,
            icon: optional_text(self.icon),
            cron: self.cron.expression(),
        }
    }
}

impl ParsedNotification {
    /// Parses the cron expression of a configured rule. The rule is kept as
    /// configured; a malformed expression is reported with the rule's name and
    /// the expression as written.
    pub fn parse(raw: RawNotification) -> (r: Result<ParsedNotification, ConfigError>)
        ensures
            r is Ok <==> cron_parses(raw@.cron),
            r matches Ok(rule) ==> rule@ == raw@,
            r matches Err(error) ==> error.blames(raw@),
    {
        match Recurrence::parse(raw.cron.as_str()) {
            Some(cron) => Ok(
                ParsedNotification { name: raw.name, body: raw.body, icon: raw.icon, cron },
            ),
            None => Err(
                ConfigError::InvalidRecurrenceExpression { name: raw.name, expression: raw.cron },
            ),
        }
    }

    /// The rule's name, which is also the title of its notifications.
    pub fn name(&self) -> (r: &str)
        ensures
            r@ == self@.name,
    {
        self.name.as_str()
    }

    /// The message text.
    pub fn body(&self) -> (r: &str)
        ensures
            r@ == self@.body,
    {
        self.body.as_str()
    }

    /// The icon, if the rule names one.
    pub fn icon(&self) -> (r: Option<&str>)
        ensures
            r is Some == self@.icon is Some,
            r matches Some(icon) ==> self@.icon == Some(icon@),
    {
        match &self.icon {
            Some(icon) => Some(icon.as_str()),
            None => None,
        }
    }

    /// The parsed cron expression.
    pub fn recurrence(&self) -> (r: &Recurrence)
        ensures
            r.expression() == self@.cron,
    {
        &self.cron
    }
}

/// The rule store: the parsed rules in the order they were declared. It is
/// built once and read from then on.
#[derive(Debug)]
pub struct Config {
    notifications: Vec<ParsedNotification>,
}

impl View for Config {
    type V = Seq<Rule>;

    closed spec fn view(&self) -> Seq<Rule> {
        self.notifications@.map_values(|rule: ParsedNotification| rule@)
    }
}

/// Whether every record carries a cron expression that parses.
pub open spec fn all_parse(records: Seq<Rule>) -> bool {
    forall|i: int| 0 <= i < records.len() ==> cron_parses(#[trigger] records[i].cron)
}

/// Whether record `i` is the first whose cron expression does not parse.
pub open spec fn first_malformed(records: Seq<Rule>, i: int) -> bool {
    &&& 0 <= i < records.len()
    &&& !cron_parses(records[i].cron)
    &&& forall|j: int| 0 <= j < i ==> cron_parses(#[trigger] records[j].cron)
}

impl Config {
    /// Builds the rule store from the configured records: the same rules in
    /// the same order, each with its cron expression parsed. One malformed
    /// expression fails the whole construction; the error names the first
    /// such rule.
    pub fn parse(raw: RawConfig) -> (r: Result<Config, ConfigError>)
        ensures
            r is Ok <==> all_parse(raw@),
            r matches Ok(config) ==> config@ == raw@,
            r matches Err(error) ==> exists|i: int|
                first_malformed(raw@, i) && error.blames(#[trigger] raw@[i]),
    {
        let ghost records = raw@;
        let mut notifications: Vec<ParsedNotification> = Vec::new();
        for record in it: raw.notifications
            invariant
                notifications@.len() == it.index(),
                it.seq().map_values(|record: RawNotification| record@) == records,
                forall|j: int|
                    0 <= j < notifications@.len() ==> (#[trigger] notifications@[j])@
                        == records[j],
                forall|j: int| 0 <= j < it.index() ==> cron_parses(#[trigger] records[j].cron),
        {
            match ParsedNotification::parse(record) {
                Ok(rule) => {
                    notifications.push(rule);
                },
                Err(error) => {
                    assert(first_malformed(records, it.index() as int));
                    return Err(error);
                },
            }
        }
        let config = Config { notifications };
        assert(config@ =~= records);
        Ok(config)
    }

    /// The number of rules.
    pub fn len(&self) -> (n: usize)
        ensures
            n == self@.len(),
    {
        self.notifications.len()
    }

    /// Rule `i` in declaration order.
    pub fn get(&self, i: usize) -> (r: Option<&ParsedNotification>)
        ensures
            r is Some <==> i < self@.len(),
            r matches Some(rule) ==> rule@ == self@[i as int],
    {
        if i < self.notifications.len() {
            Some(&self.notifications[i])
        } else {
            None
        }
    }

    /// The rules in declaration order.
    pub fn rules(&self) -> (r: &Vec<ParsedNotification>)
        ensures
            r@.map_values(|rule: ParsedNotification| rule@) == self@,
    {
        &self.notifications
    }
}

} // verus!
