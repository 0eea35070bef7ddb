//! Log lines for the messages of ffmpeg.

use crate::util::text::push_char;
use vstd::prelude::*;
use vstd::string::StringExecFns;

verus! {

/// The level a line is logged at.
#[derive(Debug, Clone, Copy, PartialEq, Eq, Structural)]
pub enum Level {
    Error,
    Warn,
    Info,
    Debug,
    Trace,
}

/// A text without the white space at its two ends.
pub uninterp spec fn trimmed(text: Seq<char>) -> Seq<char>;

/// A text without the white space at its two ends.
///
/// Trusted: `str::trim` of the standard library, which removes leading and
/// trailing white space as Unicode defines it.
#[verifier::external_body]
fn trim(text: &str) -> (inner: &str)
    ensures
        inner@ == trimmed(text@),
{
    text.trim()
}

/// The class of an ffmpeg level, from 0 to 7: the level divided by 8 and
/// rounded down, but no less than 0 and no more than 7.
pub open spec fn level_class(level: i32) -> int {
    if level < 0 {
        0
    } else if level / 8 > 7 {
        7
    } else {
        level / 8
    }
}

/// The level at which messages of a class are logged.
pub open spec fn class_level(class: int) -> Level {
    if class <= 2 {
        Level::Error
    } else if class == 3 {
        Level::Warn
    } else if class == 4 {
        Level::Info
    } else if class <= 6 {
        Level::Debug
    } else {
        Level::Trace
    }
}

/// The name that ffmpeg gives a class.
pub open spec fn class_label(class: int) -> Seq<char> {
    if class <= 0 {
        "PANIC"@
    } else if class == 1 {
        "FATAL"@
    } else if class == 2 {
        "ERROR"@
    } else if class == 3 {
        "WARN"@
    } else if class == 4 {
        "INFO"@
    } else if class == 5 {
        "VERB"@
    } else if class == 6 {
        "DEBUG"@
    } else {
        "TRACE"@
    }
}

/// A text moved to the right end of `width` columns by spaces in front; a
/// text that is longer is left as it is.
pub open spec fn right_aligned(text: Seq<char>, width: nat) -> Seq<char> {
    if text.len() >= width {
        text
    } else {
        Seq::new((width - text.len()) as nat, |i: int| ' ') + text
    }
}

/// The log line for a message: the class label in five columns, the name of
/// the sender if it is known, and the trimmed message.
pub open spec fn log_line(label: Seq<char>, sender: Option<Seq<char>>, message: Seq<char>) -> Seq<
    char,
> {
    match sender {
        Some(name) => "[ffmpeg:"@ + right_aligned(label, 5) + ":"@ + name + "] "@ + trimmed(
            message,
        ),
        None => "[ffmpeg:"@ + right_aligned(label, 5) + "] "@ + trimmed(message),
    }
}

/// Appends `text` to `line`, moved to the right end of `width` columns.
pub fn push_right_aligned(line: &mut String, text: &str, width: usize)
    ensures
        final(line)@ == old(line)@ + right_aligned(text@, width as nat),
{
    let len = text.unicode_len();
    let ghost start = line@;
    let mut used: usize = len;
    while used < width
        invariant
            len == text@.len(),
            len <= used,
            len < width ==> used <= width,
            len >= width ==> used == len,
            line@ == start + Seq::new((used - len) as nat, |i: int| ' '),
        decreases width - used,
    {
        push_char(line, ' ');
        used += 1;
    }
    line.append(text);
}

/// The class label and the level for an ffmpeg level.
pub fn classify(level: i32) -> (class: (Level, &'static str))
    ensures
        class.0 == class_level(level_class(level)),
        class.1@ == class_label(level_class(level)),
{
    let class: i32 = if level < 0 {
        0
    } else if level / 8 > 7 {
        7
    } else {
        level / 8
    };
    if class == 0 {
        (Level::Error, "PANIC")
    } else if class == 1 {
        (Level::Error, "FATAL")
    } else if class == 2 {
        (Level::Error, "ERROR")
    } else if class == 3 {
        (Level::Warn, "WARN")
    } else if class == 4 {
        (Level::Info, "INFO")
    } else if class == 5 {
        (Level::Debug, "VERB")
    } else if class == 6 {
        (Level::Debug, "DEBUG")
    } else {
        (Level::Trace, "TRACE")
    }
}

/// Turns a message of ffmpeg into a log entry: the level to log at, and the
/// line, which names the class of the message and its sender, if known.
pub fn log_callback(level: i32, sender: Option<&str>, message: &str) -> (entry: (Level, String))
    ensures
        entry.0 == class_level(level_class(level)),
        entry.1@ == log_line(
            class_label(level_class(level)),
            match sender {
                Some(name) => Some(name@),
                None => None,
            },
            message@,
        ),
{
    let (at, label) = classify(level);
    let mut line = String::from_str("[ffmpeg:");
    push_right_aligned(&mut line, label, 5);
    match sender {
        Some(name) => {
            line.append(":");
            line.append(name);
        },
        None => {},
    }
    line.append("] ");
    line.append(trim(message));
    (at, line)
}

} // verus!
