use vstd::prelude::*;

verus! {

/// The name that stands in for the actor when the host environment does not give one.
pub open spec fn unknown_actor() -> Seq<char> {
    "unknown"@
}

/// The actor's display name: the environment's value when there is one, else `unknown`.
pub fn resolve_actor(value: Option<String>) -> (r: String)
    ensures
        r@ == match value {
            Some(v) => v@,
            None => unknown_actor(),
        },
{
    match value {
        Some(v) => v,
        None => String::from_str("unknown"),
    }
}

/// The host platforms, which differ in where they keep the user's name.
#[derive(Clone, Copy, Debug, PartialEq, Eq, Structural)]
pub enum Platform {
    Windows,
    Unix,
}

pub open spec fn actor_variable_name(p: Platform) -> Seq<char> {
    match p {
        Platform::Windows => "USERNAME"@,
        Platform::Unix => "USER"@,
    }
}

impl Platform {
    /// The environment variable that holds the user's display name on this platform.
    pub fn actor_variable(self) -> (r: &'static str)
        ensures
            r@ == actor_variable_name(self),
    {
        match self {
            Platform::Windows => "USERNAME",
            Platform::Unix => "USER",
        }
    }
}

} // verus!
