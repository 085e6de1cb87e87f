//! The JavaScript engine, reached through the javy crate.
use vstd::prelude::*;

verus! {

#[verifier::external_type_specification]
#[verifier::external_body]
pub struct ExRuntime(javy::Runtime);

#[verifier::external_type_specification]
#[verifier::external_body]
pub struct ExError(anyhow::Error);

/// Relies on `javy::Runtime::new` with javy's default `Config`: a fresh
/// engine instance, or the error met while setting it up (QuickJS failing to
/// allocate its runtime or context).
#[verifier::external_body]
pub(crate) fn new_runtime() -> (r: Result<javy::Runtime, anyhow::Error>) {
    javy::Runtime::new(javy::Config::default())
}

/// The bytecode that javy's compiler produces for the ES module `source`
/// named `name`, on a runtime with javy's default `Config`; `None` where it
/// reports an error (a syntax error, an unsupported construct).
pub uninterp spec fn compiled_module(name: Seq<char>, source: Seq<char>) -> Option<Seq<u8>>;

/// Relies on `javy::Runtime::compile_to_bytecode`: compiles `contents` as an
/// ES module named `name`, returning its bytecode or the compiler's error.
/// Every runtime compiled on here comes fresh from `new_runtime`, with the
/// default `Config` (and so its default bytecode stripping), and compiles one
/// module, so the outcome depends on `name` and `contents` alone.
#[verifier::external_body]
pub(crate) fn compile_to_bytecode(runtime: &javy::Runtime, name: &str, contents: &str) -> (r:
    Result<Vec<u8>, anyhow::Error>)
    ensures
        r is Ok <==> compiled_module(name@, contents@) is Some,
        r is Ok ==> compiled_module(name@, contents@) == Some(r->Ok_0@),
{
    runtime.compile_to_bytecode(name, contents)
}

/// The diagnostic carried by an engine error.
pub(crate) fn error_message(e: &anyhow::Error) -> String {
    e.to_string()
}

} // verus!
