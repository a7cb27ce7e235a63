use vstd::prelude::*;

verus! {

/// Errors that can occur during event processing.
/// The variant determines the retry strategy.
#[derive(Debug)]
pub enum ObserverError {
    /// Event can be safely skipped (e.g. duplicate, already processed).
    Skippable(String),
    /// Transient error that should be retried (e.g. RPC timeout, network issue).
    Retriable(String),
    /// Fatal error that should stop the handler (e.g. DB schema mismatch).
    Fatal(String),
}

/// The message an error carries, whatever its variant.
pub open spec fn error_message(e: ObserverError) -> Seq<char> {
    match e {
        ObserverError::Skippable(m) => m@,
        ObserverError::Retriable(m) => m@,
        ObserverError::Fatal(m) => m@,
    }
}

/// The text form of an error: its kind, a colon and its message.
pub open spec fn error_text(e: ObserverError) -> Seq<char> {
    match e {
        ObserverError::Skippable(m) => seq!['S', 'k', 'i', 'p', 'p', 'a', 'b', 'l', 'e', ':', ' '] + m@,
        ObserverError::Retriable(m) => seq!['R', 'e', 't', 'r', 'i', 'a', 'b', 'l', 'e', ':', ' '] + m@,
        ObserverError::Fatal(m) => seq!['F', 'a', 't', 'a', 'l', ':', ' '] + m@,
    }
}

impl ObserverError {
    pub fn is_skippable(&self) -> (r: bool)
        ensures
            r == (*self is Skippable),
    {
        matches!(self, ObserverError::Skippable(_))
    }

    pub fn is_retriable(&self) -> (r: bool)
        ensures
            r == (*self is Retriable),
    {
        matches!(self, ObserverError::Retriable(_))
    }

    pub fn is_fatal(&self) -> (r: bool)
        ensures
            r == (*self is Fatal),
    {
        matches!(self, ObserverError::Fatal(_))
    }

    /// An error that lets the event be skipped, carrying `msg`.
    pub fn skippable(msg: &str) -> (e: Self)
        ensures
            e matches ObserverError::Skippable(m) && m@ == msg@,
    {
        ObserverError::Skippable(String::from_str(msg))
    }

    /// A transient error that is worth retrying, carrying `msg`.
    pub fn retriable(msg: &str) -> (e: Self)
        ensures
            e matches ObserverError::Retriable(m) && m@ == msg@,
    {
        ObserverError::Retriable(String::from_str(msg))
    }

    /// An error that stops the handler, carrying `msg`.
    pub fn fatal(msg: &str) -> (e: Self)
        ensures
            e matches ObserverError::Fatal(m) && m@ == msg@,
    {
        ObserverError::Fatal(String::from_str(msg))
    }

    /// The message the error carries.
    pub fn message(&self) -> (r: &str)
        ensures
            r@ == error_message(*self),
    {
        match self {
            ObserverError::Skippable(m) => m.as_str(),
            ObserverError::Retriable(m) => m.as_str(),
            ObserverError::Fatal(m) => m.as_str(),
        }
    }

    /// The text form of the error, e.g. `Skippable: duplicate event`.
    pub fn to_string(&self) -> (r: String)
        ensures
            r@ == error_text(*self),
    {
        let (prefix, msg) = match self {
            ObserverError::Skippable(m) => {
                proof {
                    reveal_strlit("Skippable: ");
                }
                ("Skippable: ", m)
            },
            ObserverError::Retriable(m) => {
                proof {
                    reveal_strlit("Retriable: ");
                }
                ("Retriable: ", m)
            },
            ObserverError::Fatal(m) => {
                proof {
                    reveal_strlit("Fatal: ");
                }
                ("Fatal: ", m)
            },
        };
        let mut text = String::from_str(prefix);
        text.append(msg.as_str());
        text
    }
}

} // verus!
