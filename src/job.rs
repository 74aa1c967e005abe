use vstd::prelude::*;

verus! {

/// What starting a job returns: the execution's name and its full resource
/// path, which later status requests go to.
#[derive(Debug, Clone)]
pub struct JobStartResponse {
    pub name: String,
    pub id: String,
}

/// An environment variable of a job container; `secret_ref` names a secret
/// that supplies the value instead.
#[derive(Debug, Clone)]
pub struct EnvironmentVar {
    pub name: String,
    pub secret_ref: Option<String>,
    pub value: String,
}

} // verus!
