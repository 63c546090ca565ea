//! The lookup itself: which source is asked, and whose answer is returned.

use vstd::prelude::*;

use crate::error::{lemma_no_such_var_text, no_such_var, EnvSearcherError};

verus! {

/// What a lookup returns, as text: the value found, or the reason of the
/// failure.
pub type Outcome = Result<Seq<char>, Seq<char>>;

/// The outcome that a returned result stands for.
pub open spec fn outcome_of(result: Result<String, EnvSearcherError>) -> Outcome {
    match result {
        Ok(value) => Outcome::Ok(value@),
        Err(error) => Outcome::Err(error@),
    }
}

/// The outcome of looking a key up, given what each source answered for it:
/// `Some(value)` where the source holds the key, `None` where it does not.
/// The first source that holds the key decides; a key that neither holds is
/// an error.
pub open spec fn resolved(process: Option<Seq<char>>, dotfile: Option<Seq<char>>) -> Outcome {
    match (process, dotfile) {
        (Some(value), _) => Outcome::Ok(value),
        (None, Some(value)) => Outcome::Ok(value),
        (None, None) => Outcome::Err(no_such_var()),
    }
}

/// Whether the dotfile has to be asked at all, given what the process
/// environment answered: only when it does not hold the key.
pub fn dotfile_needed(process_value: &Option<String>) -> (needed: bool)
    ensures
        needed <==> process_value is None,
{
    process_value.is_none()
}

/// Gets the value of a key from what the two sources answered for it:
/// `process_value` from the environment of the process, `dotfile_value` from
/// the `.env` file. The process environment comes first, the file after it. If
/// neither holds the key, returns an `EnvSearcherError`.
///
/// A caller that did not ask the file, because `dotfile_needed` said so,
/// passes `None` for it.
pub fn get_var(process_value: Option<String>, dotfile_value: Option<String>) -> (result: Result<
    String,
    EnvSearcherError,
>)
    ensures
        outcome_of(result) == resolved(process_value.deep_view(), dotfile_value.deep_view()),
        result matches Err(error) ==> error@.len() > 0,
{
    if let Some(value) = process_value {
        return Ok(value);
    }
    if let Some(value) = dotfile_value {
        return Ok(value);
    }
    proof {
        lemma_no_such_var_text();
    }
    Err(EnvSearcherError::not_found())
}

/// A key that the process environment holds resolves to the value it has
/// there, whatever the dotfile holds for it, and so also where the dotfile was
/// not asked.
pub proof fn lemma_process_environment_wins(value: Seq<char>, dotfile: Option<Seq<char>>)
    ensures
        resolved(Some(value), dotfile) == Outcome::Ok(value),
        resolved(Some(value), dotfile) == resolved(Some(value), None),
{
}

/// A key that the process environment lacks and the dotfile holds resolves to
/// the value it has in the dotfile.
pub proof fn lemma_dotfile_is_fallback(value: Seq<char>)
    ensures
        resolved(None, Some(value)) == Outcome::Ok(value),
{
}

/// A key that neither source holds fails, and the reason given is the text
/// "No such env var", which is not empty.
pub proof fn lemma_unknown_key_fails()
    ensures
        resolved(None, None) == Outcome::Err(no_such_var()),
        no_such_var().len() > 0,
{
    lemma_no_such_var_text();
}

/// A lookup made again, while neither source has changed its answer, returns
/// what it returned before.
pub proof fn lemma_repeated_lookup_agrees(
    first_process: Option<Seq<char>>,
    first_dotfile: Option<Seq<char>>,
    second_process: Option<Seq<char>>,
    second_dotfile: Option<Seq<char>>,
)
    requires
        second_process == first_process,
        second_dotfile == first_dotfile,
    ensures
        resolved(second_process, second_dotfile) == resolved(first_process, first_dotfile),
{
}

} // verus!
