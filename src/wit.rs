use vstd::prelude::*;

verus! {

/// A configuration error reported to whoever drives the build.
#[derive(Debug, PartialEq, Eq, Structural)]
pub enum ConfigError {
    /// A WIT file was given without the world to use from it.
    WitWorldMissing,
    /// A dynamically linked module was asked for without a provider version.
    ProviderVersionMissing,
}

/// Options for using WIT in the code generation process.
#[derive(Debug)]
pub struct WitOptions {
    /// The path of the .wit file to use.
    pub path: Option<String>,
    /// The name of the WIT world to use.
    pub world: Option<String>,
}

/// What `WitOptions::from_tuple` returns for `opts`.
pub open spec fn spec_from_tuple(opts: (Option<String>, Option<String>)) -> Result<WitOptions, ConfigError> {
    match opts {
        (Some(_), None) => Err(ConfigError::WitWorldMissing),
        (None, _) => Ok(WitOptions { path: None, world: None }),
        (path, world) => Ok(WitOptions { path, world }),
    }
}

/// Building options from a pair keeps a full pair and an empty one as they
/// are, rejects a path without a world, and accepts a world without a path
/// but drops it, so the result is not defined.
pub proof fn lemma_from_tuple_outcomes(p: String, w: String)
    ensures
        spec_from_tuple((None, None)) == Ok::<WitOptions, ConfigError>(
            WitOptions { path: None, world: None },
        ),
        spec_from_tuple((Some(p), Some(w))) == Ok::<WitOptions, ConfigError>(
            WitOptions { path: Some(p), world: Some(w) },
        ),
        spec_from_tuple((Some(p), None)) == Err::<WitOptions, ConfigError>(ConfigError::WitWorldMissing),
        spec_from_tuple((None, Some(w))) is Ok,
        spec_from_tuple((None, Some(w)))->Ok_0.world is None,
        !spec_from_tuple((None, Some(w)))->Ok_0.is_defined(),
{
}

/// Options built from a pair are defined exactly when both the path and the
/// world were given: never with only one of them.
pub proof fn lemma_defined_iff_both(opts: (Option<String>, Option<String>))
    requires
        spec_from_tuple(opts) is Ok,
    ensures
        spec_from_tuple(opts)->Ok_0.is_defined() <==> (opts.0 is Some && opts.1 is Some),
{
}

impl WitOptions {
    /// Both a path and a world are present.
    pub open spec fn is_defined(&self) -> bool {
        self.path is Some && self.world is Some
    }

    /// Options with neither a path nor a world.
    pub fn none() -> (r: Self)
        ensures
            r.path is None,
            r.world is None,
    {
        WitOptions { path: None, world: None }
    }

    /// Builds options from a `(path, world)` pair.
    ///
    /// A path without a world is rejected. A world without a path is
    /// accepted and dropped, since it means nothing without a file.
    pub fn from_tuple(opts: (Option<String>, Option<String>)) -> (r: Result<Self, ConfigError>)
        ensures
            r == spec_from_tuple(opts),
    {
        match opts {
            (None, None) => Ok(WitOptions { path: None, world: None }),
            (None, Some(_)) => Ok(WitOptions { path: None, world: None }),
            (Some(_), None) => Err(ConfigError::WitWorldMissing),
            (path, world) => Ok(WitOptions { path, world }),
        }
    }

    /// Whether WIT options were defined: both a path and a world are present.
    pub fn defined(&self) -> (r: bool)
        ensures
            r == self.is_defined(),
    {
        self.path.is_some() && self.world.is_some()
    }

    /// The path of the .wit file; callers check `defined` first.
    pub fn unwrap_path(&self) -> (r: &String)
        requires
            self.path is Some,
        ensures
            self.path == Some(*r),
    {
        self.path.as_ref().unwrap()
    }

    /// The name of the WIT world; callers check `defined` first.
    pub fn unwrap_world(&self) -> (r: &String)
        requires
            self.world is Some,
        ensures
            self.world == Some(*r),
    {
        self.world.as_ref().unwrap()
    }
}

} // verus!
