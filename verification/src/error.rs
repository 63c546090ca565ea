//! The one way a lookup fails.

use vstd::prelude::*;

verus! {

/// A failed lookup. It simply holds a string detailing what happened.
#[derive(Debug, Clone)]
pub struct EnvSearcherError {
    pub reason: String,
}

/// The reason carried by the error of a key that no source holds.
pub open spec fn no_such_var() -> Seq<char> {
    "No such env var"@
}

impl View for EnvSearcherError {
    type V = Seq<char>;

    /// An error is its reason, as text.
    open spec fn view(&self) -> Seq<char> {
        self.reason@
    }
}

impl EnvSearcherError {
    /// The error of a key that no source holds.
    pub fn not_found() -> (e: EnvSearcherError)
        ensures
            e@ == no_such_var(),
    {
        EnvSearcherError { reason: "No such env var".to_string() }
    }

    /// The reason, as an owned string.
    pub fn message(&self) -> (text: String)
        ensures
            text@ == self@,
    {
        self.reason.clone()
    }
}

/// The reason of a missing key is this text, letter for letter; so it is never
/// empty.
pub proof fn lemma_no_such_var_text()
    ensures
        no_such_var() == seq![
            'N', 'o', ' ', 's', 'u', 'c', 'h', ' ', 'e', 'n', 'v', ' ', 'v', 'a', 'r',
        ],
        no_such_var().len() == 15,
{
    reveal_strlit("No such env var");
    assert(no_such_var() =~= seq![
        'N', 'o', ' ', 's', 'u', 'c', 'h', ' ', 'e', 'n', 'v', ' ', 'v', 'a', 'r',
    ]);
}

} // verus!
