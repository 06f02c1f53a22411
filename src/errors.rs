use vstd::prelude::*;
use vstd::string::*;

verus! {

/// Why the broker task stopped.
pub enum MQTTError {
    /// A failure, with its description.
    Default(String),
    /// The task was asked to exit; this is not a failure.
    ExitingThread,
}

impl MQTTError {
    /// The text that describes the error.
    pub open spec fn spec_message(&self) -> Seq<char> {
        match self {
            MQTTError::Default(s) => "Default: "@ + s@,
            MQTTError::ExitingThread => "Received request for thread exit"@,
        }
    }

    /// The text that describes the error.
    pub fn message(&self) -> (r: String)
        ensures
            r@ == self.spec_message(),
    {
        match self {
            MQTTError::Default(s) => {
                let mut r = String::from_str("Default: ");
                r.append(s.as_str());
                r
            },
            MQTTError::ExitingThread => String::from_str("Received request for thread exit"),
        }
    }

    /// Whether the error stands for a requested exit rather than a failure.
    pub fn is_requested_exit(&self) -> (r: bool)
        ensures
            r == (self is ExitingThread),
    {
        match self {
            MQTTError::ExitingThread => true,
            MQTTError::Default(_) => false,
        }
    }
}

} // verus!
