//! Typed failure values surfaced across the interface boundary.

use vstd::prelude::*;
use vstd::string::StringExecFns;

verus! {

/// Lookup failure: the registry was asked for a model identifier that no
/// provider has registered. Carries the requested identifier; the rendered
/// message is part of the external contract and is produced by [`Self::message`].
pub struct NoSuchModelError {
    model_id: String,
}

/// The exact rendered message owed for a failed lookup of `id`:
/// `No model named {id} found.`
pub open spec fn no_such_model_message(id: Seq<char>) -> Seq<char> {
    "No model named "@ + id + " found."@
}

impl NoSuchModelError {
    /// The identifier whose lookup failed, as an abstract sequence of characters.
    pub closed spec fn id(&self) -> Seq<char> {
        self.model_id@
    }

    pub fn new(model_id: String) -> (e: NoSuchModelError)
        ensures
            e.id() == model_id@,
    {
        NoSuchModelError { model_id }
    }

    /// The identifier whose lookup failed.
    pub fn model_id(&self) -> (id: &String)
        ensures
            id@ == self.id(),
    {
        &self.model_id
    }

    /// Renders the error message, exactly `No model named {model_id} found.`
    /// (single space before "found", trailing period, no localization).
    pub fn message(&self) -> (m: String)
        ensures
            m@ == no_such_model_message(self.id()),
    {
        let mut m = "No model named ".to_owned();
        m.append(self.model_id.as_str());
        m.append(" found.");
        m
    }
}

} // verus!
