//! What can go wrong, and how it is reported.

use vstd::prelude::*;

use crate::config::Rule;
use crate::scheduler::NotificationRequest;

verus! {

/// A fatal error in the configuration. The scheduler does not start.
#[derive(Debug)]
pub enum ConfigError {
    /// The cron expression of a rule does not parse.
    InvalidRecurrenceExpression { name: String, expression: String },
    /// The configuration document could not be read.
    SourceUnreadable { reason: String },
    /// The configuration document is not a list of notification rules.
    SourceMalformed { reason: String },
}

impl ConfigError {
    /// Whether the error reports `rule` for its cron expression, by the rule's
    /// name and the expression as written.
    pub open spec fn blames(self, rule: Rule) -> bool {
        self matches ConfigError::InvalidRecurrenceExpression { name, expression } && name@
            == rule.name && expression@ == rule.cron
    }

    /// The diagnostic for the error.
    pub open spec fn text(self) -> Seq<char> {
        match self {
            ConfigError::InvalidRecurrenceExpression { name, expression } => "rule '"@ + name@
                + "': invalid cron expression '"@ + expression@ + "'"@,
            ConfigError::SourceUnreadable { reason } => "cannot read the configuration: "@
                + reason@,
            ConfigError::SourceMalformed { reason } => "malformed configuration: "@ + reason@,
        }
    }

    /// The diagnostic to print before giving up. For a malformed cron
    /// expression it names the rule and quotes the expression.
    pub fn message(&self) -> (r: String)
        ensures
            r@ == self.text(),
    {
        match self {
            ConfigError::InvalidRecurrenceExpression { name, expression } => {
                let mut message = String::from_str("rule '");
                message.append(name.as_str());
                message.append("': invalid cron expression '");
                message.append(expression.as_str());
                message.append("'");
                message
            },
            ConfigError::SourceUnreadable { reason } => {
                let mut message = String::from_str("cannot read the configuration: ");
                message.append(reason.as_str());
                message
            },
            ConfigError::SourceMalformed { reason } => {
                let mut message = String::from_str("malformed configuration: ");
                message.append(reason.as_str());
                message
            },
        }
    }
}

/// The notifier failed to show the notification of one rule. The failure is
/// logged and scheduling goes on.
#[derive(Debug)]
pub struct DeliveryError {
    pub rule: String,
    pub reason: String,
}

impl DeliveryError {
    /// The line to log.
    pub open spec fn text(self) -> Seq<char> {
        "notification for rule '"@ + self.rule@ + "' was not delivered: "@ + self.reason@
    }

    /// Records that `request` could not be delivered. The rule is named by
    /// the title of the request.
    pub fn new(request: &NotificationRequest, reason: &str) -> (r: DeliveryError)
        ensures
            r.rule@ == request.title@,
            r.reason@ == reason@,
    {
        DeliveryError { rule: request.title.clone(), reason: reason.to_owned() }
    }

    /// The line to log: the rule's name and the notifier's reason.
    pub fn message(&self) -> (r: String)
        ensures
            r@ == self.text(),
    {
        let mut message = String::from_str("notification for rule '");
        message.append(self.rule.as_str());
        message.append("' was not delivered: ");
        message.append(self.reason.as_str());
        message
    }
}

} // verus!
