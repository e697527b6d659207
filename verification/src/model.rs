//! Which model a request is for.

use vstd::prelude::*;
use vstd::std_specs::convert::FromSpecImpl;

verus! {

/// A model, by name and, where one is wanted, by version.
///
/// A bare name converts into a description without a version.
#[derive(Debug, Clone, PartialEq, Eq)]
pub struct ModelDescription<S> {
    /// Name of the model.
    pub name: S,
    /// Version of the model; `None` leaves the choice to the server.
    pub version: Option<i64>,
}

impl<S> From<S> for ModelDescription<S> {
    /// A description of the model named `s`, of no particular version.
    fn from(s: S) -> (description: Self)
        ensures
            description.name == s,
            description.version is None,
    {
        ModelDescription { name: s, version: None }
    }
}

impl<S> FromSpecImpl<S> for ModelDescription<S> {
    open spec fn obeys_from_spec() -> bool {
        true
    }

    open spec fn from_spec(s: S) -> Self {
        ModelDescription { name: s, version: None }
    }
}

/// The part of a request that names the model, its version and the signature
/// to run.
#[derive(Debug, Clone, PartialEq, Eq)]
pub struct ModelSpec {
    /// Name of the model.
    pub name: String,
    /// Version asked for, if any.
    pub version: Option<i64>,
    /// Name of the signature to run.
    pub signature_name: String,
}

/// What a model spec holds, with each string taken by its characters.
pub struct ModelSpecView {
    pub name: Seq<char>,
    pub version: Option<i64>,
    pub signature_name: Seq<char>,
}

impl View for ModelSpec {
    type V = ModelSpecView;

    open spec fn view(&self) -> ModelSpecView {
        ModelSpecView {
            name: self.name@,
            version: self.version,
            signature_name: self.signature_name@,
        }
    }
}

} // verus!
