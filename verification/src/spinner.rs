//! Progress lines for long-running operations.

use vstd::prelude::*;
use vstd::string::StringExecFns;

verus! {

/// Spinner utility for long-running operations: it words the lines that
/// announce an operation and report how it ended.
pub struct Spinner {
    message: String,
}

impl Spinner {
    /// What the operation is called.
    pub closed spec fn spec_message(&self) -> Seq<char> {
        self.message@
    }

    /// Creates a spinner for the operation called `message`.
    pub fn new(message: &str) -> (r: Self)
        ensures
            r.spec_message() == message@,
    {
        Spinner { message: message.to_string() }
    }

    /// What the operation is called.
    pub fn message(&self) -> (r: &str)
        ensures
            r@ == self.spec_message(),
    {
        self.message.as_str()
    }

    /// The line that announces the operation.
    pub fn start_line(&self) -> (r: String)
        ensures
            r@ == "⏳ "@ + self.spec_message(),
    {
        String::from_str("⏳ ").concat(self.message.as_str())
    }

    /// The line that reports how the operation ended.
    pub fn finish_line(&self, success: bool) -> (r: String)
        ensures
            success ==> r@ == "✅ "@ + self.spec_message() + " completed"@,
            !success ==> r@ == "❌ "@ + self.spec_message() + " failed"@,
    {
        if success {
            String::from_str("✅ ").concat(self.message.as_str()).concat(" completed")
        } else {
            String::from_str("❌ ").concat(self.message.as_str()).concat(" failed")
        }
    }
}

} // verus!
