//! What an invocation asks for, and the text the program shows.

use vstd::prelude::*;

verus! {

/// The two mutually exclusive operations.
#[derive(Debug, PartialEq, Eq)]
pub enum Mode {
    /// Show today's daily file.
    Print,
    /// Append an entry made of these tokens.
    Append(Vec<String>),
}

/// An invocation that names neither or both operations.
#[derive(Debug, PartialEq, Eq)]
pub enum UsageError {
    /// No entry tokens and no print flag.
    MissingEntry,
    /// Both the print flag and entry tokens.
    PrintWithEntry,
}

/// The diagnostic for an invocation without entry tokens or print flag.
pub open spec fn missing_entry_text() -> Seq<char> {
    "The following required arguments were not provided:\n    <entry>..."@
}

/// The diagnostic for an invocation with both entry tokens and print flag.
pub open spec fn print_with_entry_text() -> Seq<char> {
    "The argument '--print' cannot be used with '<entry>...'"@
}

impl UsageError {
    /// The diagnostic shown on standard error.
    pub fn message(&self) -> (r: String)
        ensures
            r@ == match self {
                UsageError::MissingEntry => missing_entry_text(),
                UsageError::PrintWithEntry => print_with_entry_text(),
            },
    {
        match self {
            UsageError::MissingEntry => {
                String::from_str("The following required arguments were not provided:\n    <entry>...")
            },
            UsageError::PrintWithEntry => {
                String::from_str("The argument '--print' cannot be used with '<entry>...'")
            },
        }
    }
}

/// Picks the operation from the print flag and the entry tokens: printing
/// when only the flag is given, appending when only tokens are given, and
/// a usage error when both or neither are.
pub fn select_mode(print: bool, entry: Vec<String>) -> (r: Result<Mode, UsageError>)
    ensures
        print && entry@.len() > 0 ==> r == Err::<Mode, UsageError>(UsageError::PrintWithEntry),
        !print && entry@.len() == 0 ==> r == Err::<Mode, UsageError>(UsageError::MissingEntry),
        print && entry@.len() == 0 ==> r == Ok::<Mode, UsageError>(Mode::Print),
        !print && entry@.len() > 0 ==> r == Ok::<Mode, UsageError>(Mode::Append(entry)),
{
    if entry.len() == 0 {
        if print {
            Ok(Mode::Print)
        } else {
            Err(UsageError::MissingEntry)
        }
    } else if print {
        Err(UsageError::PrintWithEntry)
    } else {
        Ok(Mode::Append(entry))
    }
}

/// What print mode writes to standard output: the file's contents and a
/// line terminator.
pub fn printed_text(contents: &str) -> (r: String)
    ensures
        r@ == contents@ + "\n"@,
{
    let mut r = String::from_str(contents);
    r.append("\n");
    r
}

/// The confirmation after a successful append.
pub fn confirmation(path: &str) -> (r: String)
    ensures
        r@ == "Entry added to "@ + path@,
{
    let mut r = String::from_str("Entry added to ");
    r.append(path);
    r
}

/// The diagnostic when the daily file cannot be read, carrying the
/// operating system's error text.
pub fn read_failure(os_error: &str) -> (r: String)
    ensures
        r@ == "Failed to read the daily file: "@ + os_error@,
{
    let mut r = String::from_str("Failed to read the daily file: ");
    r.append(os_error);
    r
}

} // verus!
