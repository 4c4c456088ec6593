//! Debug logging of an agent's run: whether it is on, and how a log line reads. Writing the
//! lines, and reading `AG_UI_DEBUG` from the environment, is left to the caller.
use vstd::prelude::*;
use crate::error::{error_message, AgUiError};
use crate::text::{ascii_lower, char_to_lower, chars_eq, chars_of, concat3, owned, trim, trim_chars};

verus! {

/// Whether a value of `AG_UI_DEBUG` turns debug logging on: it does unless, trimmed and in
/// ASCII lower case, it is empty, `0`, `false`, `off` or `no`.
pub open spec fn debug_value_enables(value: Seq<char>) -> bool {
    let v = ascii_lower(trim(value));
    !(v == ""@ || v == "0"@ || v == "false"@ || v == "off"@ || v == "no"@)
}

/// Whether the environment's `AG_UI_DEBUG` turns debug logging on: never when it is unset.
pub open spec fn debug_env_enables(value: Option<Seq<char>>) -> bool {
    match value {
        Some(v) => debug_value_enables(v),
        None => false,
    }
}

/// The characters in ASCII lower case.
fn lower_chars(s: &Vec<char>) -> (r: Vec<char>)
    ensures
        r@ == ascii_lower(s@),
{
    let mut r: Vec<char> = Vec::new();
    let mut i: usize = 0;
    while i < s.len()
        invariant
            i <= s@.len(),
            r@ == ascii_lower(s@.take(i as int)),
        decreases s.len() - i,
    {
        r.push(char_to_lower(s[i]));
        assert(ascii_lower(s@.take(i + 1)) =~= ascii_lower(s@.take(i as int)).push(
            crate::text::lower_char(s@[i as int]),
        ));
        i += 1;
    }
    assert(s@.take(s.len() as int) =~= s@);
    r
}

/// Whether a value of `AG_UI_DEBUG` turns debug logging on, as `debug_value_enables` says.
pub fn debug_value_enabled(value: &str) -> (r: bool)
    ensures
        r == debug_value_enables(value@),
{
    let chars = chars_of(value);
    let trimmed = trim_chars(&chars);
    let v = lower_chars(&trimmed);
    let empty = chars_of("");
    let zero = chars_of("0");
    let falsy = chars_of("false");
    let off = chars_of("off");
    let no = chars_of("no");
    !(chars_eq(&v, &empty) || chars_eq(&v, &zero) || chars_eq(&v, &falsy) || chars_eq(&v, &off)
        || chars_eq(&v, &no))
}

/// A debug logger: whether it writes, and the prefix of its lines. Its view is that pair.
#[derive(Debug, Clone)]
pub struct DebugLogger {
    enabled: bool,
    prefix: String,
}

impl View for DebugLogger {
    type V = (bool, Seq<char>);

    closed spec fn view(&self) -> (bool, Seq<char>) {
        (self.enabled, self.prefix@)
    }
}

/// A log line: the prefix in square brackets, a space, and the text.
pub open spec fn log_line(prefix: Seq<char>, text: Seq<char>) -> Seq<char> {
    "["@ + prefix + "] "@ + text
}

impl DebugLogger {
    /// A logger with the given prefix, on exactly when the value of `AG_UI_DEBUG`
    /// (`None` when it is unset) turns it on.
    pub fn new(prefix: &str, debug_env: Option<&str>) -> (r: Self)
        ensures
            r@.0 == debug_env_enables(
                match debug_env {
                    Some(v) => Some(v@),
                    None => None,
                },
            ),
            r@.1 == prefix@,
    {
        let enabled = match debug_env {
            Some(v) => debug_value_enabled(v),
            None => false,
        };
        DebugLogger { enabled, prefix: owned(prefix) }
    }

    /// A logger with the given prefix that is on whatever the environment says.
    pub fn forced(prefix: &str) -> (r: Self)
        ensures
            r@ == (true, prefix@),
    {
        DebugLogger { enabled: true, prefix: owned(prefix) }
    }

    /// Whether the logger writes its lines.
    pub fn enabled(&self) -> (r: bool)
        ensures
            r == self@.0,
    {
        self.enabled
    }

    /// The prefix of the logger's lines.
    pub fn prefix(&self) -> (r: &str)
        ensures
            r@ == self@.1,
    {
        self.prefix.as_str()
    }

    /// The line for a message: `[prefix] message`.
    pub fn render_log(&self, msg: &str) -> (r: String)
        ensures
            r@ == log_line(self@.1, msg@),
    {
        let mut line = concat3("[", self.prefix.as_str(), "] ");
        line.append(msg);
        line
    }

    /// The line for an error: `[prefix] error: <message of the error>`.
    pub fn render_error(&self, err: &AgUiError) -> (r: String)
        ensures
            r@ == log_line(self@.1, "error: "@ + error_message(*err)),
    {
        let message = err.to_message();
        let mut line = concat3("[", self.prefix.as_str(), "] ");
        line.append("error: ");
        line.append(message.as_str());
        assert(line@ =~= log_line(self@.1, "error: "@ + error_message(*err)));
        line
    }
}

} // verus!
