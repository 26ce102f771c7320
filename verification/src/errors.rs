use vstd::prelude::*;
use vstd::std_specs::cmp::{PartialEqSpec, PartialEqSpecImpl};

verus! {

/// Error handed across the IPC boundary. A repository failure carries the
/// repository's message unchanged.
#[derive(Debug)]
pub enum AppError {
    Repository(String),
}

impl AppError {
    /// The text that the error displays: `repository error: ` and the message.
    pub fn to_string(&self) -> (s: String)
        ensures
            s@ == self.display_text(),
    {
        match self {
            AppError::Repository(m) => {
                let mut s = String::from_str("repository error: ");
                s.append(m.as_str());
                s
            }
        }
    }

    pub open spec fn display_text(&self) -> Seq<char> {
        match self {
            AppError::Repository(m) => "repository error: "@ + m@,
        }
    }
}

impl PartialEq for AppError {
    /// True exactly when the two messages are the same, character for character.
    fn eq(&self, other: &Self) -> (res: bool)
        ensures
            res == (self->Repository_0@ == other->Repository_0@),
    {
        let AppError::Repository(a) = self;
        let AppError::Repository(b) = other;
        *a == *b
    }
}

impl PartialEqSpecImpl for AppError {
    open spec fn obeys_eq_spec() -> bool {
        true
    }

    open spec fn eq_spec(&self, other: &Self) -> bool {
        match (self, other) {
            (AppError::Repository(a), AppError::Repository(b)) => a@ == b@,
        }
    }
}

impl Eq for AppError {
}

/// Two repository errors are equal exactly when their messages are the same
/// strings, character for character.
pub proof fn lemma_app_error_eq_compares_messages(a: String, b: String)
    ensures
        PartialEqSpec::eq_spec(&AppError::Repository(a), &AppError::Repository(b)) <==> a@ == b@,
{
}

} // verus!
