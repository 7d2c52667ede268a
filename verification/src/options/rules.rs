//! Validation rule violations for configuration options.
use crate::text::{join, owned, spec_join, views_of};
use vstd::prelude::*;
use vstd::string::StringExecFns;

verus! {

/// Validation rule violation for a configuration option.
#[derive(Clone, Debug, Eq, PartialEq)]
pub enum OptionRule {
    /// Option usage has changed and the previous value is no longer accepted.
    ///
    /// Fields: option name, rejected value, explanation of the change.
    Changed(String, String, String),
    /// Required option is not set.
    ///
    /// Field: option name.
    NotSet(String),
    /// At least one of a set of options must be set.
    ///
    /// Field: option names.
    AtLeastOne(Vec<String>),
    /// Option requires another option to be set.
    ///
    /// Fields: dependent option name, required option name.
    Dependent(String, String),
    /// Option must have at least one value.
    ///
    /// Field: option name.
    IsEmpty(String),
    /// URL option does not start with `http://` or `https://`.
    ///
    /// Fields: option name, offending URL.
    UrlNotHttp(String, String),
    /// URL option has an invalid trailing `/`.
    ///
    /// Fields: option name, offending URL.
    UrlInvalidSuffix(String, String),
    /// File or directory path does not exist.
    ///
    /// Fields: option name, offending path.
    DoesNotExist(String, String),
    /// Duration string could not be parsed.
    ///
    /// Fields: option name, offending duration string.
    DurationInvalid(String, String),
    /// Hash string could not be parsed.
    ///
    /// Fields: option name, offending hash string.
    HashInvalid(String, String),
    /// Config file could not be deserialized.
    ///
    /// Field: deserialization error message.
    ConfigDeserialize(String),
    /// Option value could not be extracted from CLI arguments.
    ///
    /// Fields: option name, extraction error message.
    CliExtract(String, String),
}

/// The message of a rule violation.
pub open spec fn spec_rule_message(rule: OptionRule) -> Seq<char> {
    match rule {
        OptionRule::Changed(name, value, details) => name@ + " use has changed: "@ + value@ + "\n"@
            + details@,
        OptionRule::Dependent(this, that) => this@ + " requires "@ + that@ + " to be set"@,
        OptionRule::NotSet(name) => name@ + " is not set"@,
        OptionRule::AtLeastOne(names) => "at least one of "@ + spec_join(views_of(names@), ", "@)
            + " must be set"@,
        OptionRule::IsEmpty(name) => name@ + " must have at least one value"@,
        OptionRule::UrlNotHttp(name, value) => name@ + " must start with https:// or http://: "@
            + value@,
        OptionRule::UrlInvalidSuffix(name, value) => name@ + " must not end with /: "@ + value@,
        OptionRule::DoesNotExist(name, value) => name@ + " does not exist: "@ + value@,
        OptionRule::DurationInvalid(name, value) => name@ + " could not be parsed: "@ + value@,
        OptionRule::HashInvalid(name, value) => name@ + " could not be parsed as a hash: "@ + value@,
        OptionRule::ConfigDeserialize(details) => "config file could not be deserialized: "@
            + details@,
        OptionRule::CliExtract(name, details) => name@
            + " could not be extracted from CLI arguments: "@ + details@,
    }
}

/// Headline line that precedes the messages of a non-empty list of violations.
pub open spec fn invalid_headline() -> Seq<char> {
    "Invalid configuration"@
}

/// The lines shown for a list of violations: nothing when there are none,
/// otherwise the headline followed by one message per violation in order.
pub open spec fn spec_show(errors: Seq<OptionRule>) -> Seq<Seq<char>> {
    if errors.len() == 0 {
        Seq::empty()
    } else {
        seq![invalid_headline()] + Seq::new(errors.len(), |i: int| spec_rule_message(errors[i]))
    }
}

fn concat2(a: &str, b: &str) -> (res: String)
    ensures
        res@ == a@ + b@,
{
    let mut s = owned(a);
    s.append(b);
    s
}

fn concat3(a: &str, b: &str, c: &str) -> (res: String)
    ensures
        res@ == a@ + b@ + c@,
{
    let mut s = concat2(a, b);
    s.append(c);
    s
}

fn concat4(a: &str, b: &str, c: &str, d: &str) -> (res: String)
    ensures
        res@ == a@ + b@ + c@ + d@,
{
    let mut s = concat3(a, b, c);
    s.append(d);
    s
}

impl OptionRule {
    /// The message of this violation.
    pub fn to_string(&self) -> (res: String)
        ensures
            res@ == spec_rule_message(*self),
    {
        match self {
            OptionRule::Changed(name, value, details) => {
                let mut s = concat4(name.as_str(), " use has changed: ", value.as_str(), "\n");
                s.append(details.as_str());
                s
            },
            OptionRule::Dependent(this, that) => concat4(
                this.as_str(),
                " requires ",
                that.as_str(),
                " to be set",
            ),
            OptionRule::NotSet(name) => concat2(name.as_str(), " is not set"),
            OptionRule::AtLeastOne(names) => {
                let joined = join(names, ", ");
                concat3("at least one of ", joined.as_str(), " must be set")
            },
            OptionRule::IsEmpty(name) => concat2(name.as_str(), " must have at least one value"),
            OptionRule::UrlNotHttp(name, value) => concat3(
                name.as_str(),
                " must start with https:// or http://: ",
                value.as_str(),
            ),
            OptionRule::UrlInvalidSuffix(name, value) => concat3(
                name.as_str(),
                " must not end with /: ",
                value.as_str(),
            ),
            OptionRule::DoesNotExist(name, value) => concat3(
                name.as_str(),
                " does not exist: ",
                value.as_str(),
            ),
            OptionRule::DurationInvalid(name, value) => concat3(
                name.as_str(),
                " could not be parsed: ",
                value.as_str(),
            ),
            OptionRule::HashInvalid(name, value) => concat3(
                name.as_str(),
                " could not be parsed as a hash: ",
                value.as_str(),
            ),
            OptionRule::ConfigDeserialize(details) => concat2(
                "config file could not be deserialized: ",
                details.as_str(),
            ),
            OptionRule::CliExtract(name, details) => concat3(
                name.as_str(),
                " could not be extracted from CLI arguments: ",
                details.as_str(),
            ),
        }
    }

    /// The lines to log for a list of validation errors: nothing when there
    /// are none, otherwise the headline followed by each error's message.
    pub fn show(errors: &Vec<OptionRule>) -> (res: Vec<String>)
        ensures
            views_of(res@) == spec_show(errors@),
    {
        let mut lines: Vec<String> = Vec::new();
        if errors.len() == 0 {
            assert(views_of(lines@) =~= spec_show(errors@));
            return lines;
        }
        lines.push(owned("Invalid configuration"));
        let mut i: usize = 0;
        while i < errors.len()
            invariant
                i <= errors@.len(),
                errors@.len() > 0,
                lines@.len() == i + 1,
                lines@[0]@ == invalid_headline(),
                forall|k: int| 0 <= k < i ==> (#[trigger] lines@[k + 1])@ == spec_rule_message(errors@[k]),
            decreases errors@.len() - i,
        {
            let line = errors[i].to_string();
            lines.push(line);
            i = i + 1;
        }
        assert forall|k: int| 0 <= k < lines@.len() implies views_of(lines@)[k] == spec_show(errors@)[k] by {
            if k > 0 {
                assert(lines@[(k - 1) + 1]@ == spec_rule_message(errors@[k - 1]));
            }
        }
        assert(views_of(lines@) =~= spec_show(errors@));
        lines
    }
}

} // verus!
