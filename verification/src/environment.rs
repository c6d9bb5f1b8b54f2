use vstd::prelude::*;

verus! {

/// The target platform environment.
///
/// A closed set of variants, each exposing the base URL of the API host for
/// that environment. The platform's certificate text is configuration that an
/// external collaborator supplies alongside the chosen variant; this core only
/// consumes it.
#[derive(Debug, Clone, Copy, PartialEq, Eq, Structural)]
pub enum Environment {
    Sandbox,
    Production,
}

impl Environment {
    /// The base URL of the API host for this environment.
    pub open spec fn spec_base_url(self) -> Seq<char> {
        match self {
            Environment::Sandbox => "https://sandbox.safaricom.co.ke"@,
            Environment::Production => "https://api.safaricom.co.ke"@,
        }
    }

    /// The base URL of the API host for this environment.
    pub fn base_url(&self) -> (r: &'static str)
        ensures
            r@ == self.spec_base_url(),
    {
        match self {
            Environment::Sandbox => "https://sandbox.safaricom.co.ke",
            Environment::Production => "https://api.safaricom.co.ke",
        }
    }
}

} // verus!
