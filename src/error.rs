use vstd::prelude::*;
use vstd::string::StringExecFns;

verus! {

#[verifier::external_type_specification]
#[verifier::external_body]
pub struct ExIoError(std::io::Error);

/// Errors returned by tray icon operations.
///
/// More kinds may be added later: callers should keep a fallback arm.
#[non_exhaustive]
#[derive(Debug)]
pub enum Error {
    /// A call into the operating system failed.
    OsError(std::io::Error),
    /// The operation was attempted on a thread where the platform forbids it.
    NotMainThread,
}

/// Relies on `io::Error`'s `Display` (through `ToString::to_string`) to
/// describe the operating system failure; nothing is assumed of the text.
#[verifier::external_body]
fn io_error_text(err: &std::io::Error) -> (r: String) {
    err.to_string()
}

pub open spec fn not_main_thread_text() -> Seq<char> {
    "Not on the main thread"@
}

pub open spec fn os_error_prefix() -> Seq<char> {
    "OS error: "@
}

/// The description of an operating system failure whose own text is `text`.
pub fn os_error_message(text: &str) -> (r: String)
    ensures
        r@ == os_error_prefix() + text@,
{
    proof {
        reveal_strlit("OS error: ");
    }
    String::from_str("OS error: ").concat(text)
}

impl Error {
    /// Human-readable description of the error. For an operating system
    /// failure it is "OS error: " followed by that failure's own text.
    pub fn message(&self) -> (r: String)
        ensures
            self is NotMainThread ==> r@ == not_main_thread_text(),
            self is OsError ==> exists|text: Seq<char>| r@ == os_error_prefix() + text,
    {
        match self {
            Error::OsError(err) => {
                let text = io_error_text(err);
                os_error_message(text.as_str())
            },
            Error::NotMainThread => {
                proof {
                    reveal_strlit("Not on the main thread");
                }
                String::from_str("Not on the main thread")
            },
        }
    }
}

} // verus!
