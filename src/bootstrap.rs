//! The process-wide state of the embedded runtime: an engine instance and
//! the bytecode compiled into it, stored once at initialization and taken
//! once by the single invocation that follows.
use vstd::prelude::*;
use vstd::string::StringExecFns;

use crate::engine::{compile_to_bytecode, compiled_module, error_message, new_runtime};

verus! {

/// The logical module name under which the source is compiled.
pub const FUNCTION_MODULE_NAME: &'static str = "function.mjs";

/// The module source that imports the export `name` of the module `module`
/// and calls it.
pub open spec fn spec_invocation_script(module: Seq<char>, name: Seq<char>) -> Seq<char> {
    "import { "@ + name + " } from '"@ + module + "'; "@ + name + "();"@
}

/// Builds the module source that calls the exported function `fn_name` of
/// the module `module`.
pub fn invocation_script(module: &str, fn_name: &str) -> (r: String)
    ensures
        r@ == spec_invocation_script(module@, fn_name@),
{
    let mut script = String::from_str("import { ");
    script.append(fn_name);
    script.append(" } from '");
    script.append(module);
    script.append("'; ");
    script.append(fn_name);
    script.append("();");
    proof {
        assert(script@ =~= spec_invocation_script(module@, fn_name@));
    }
    script
}

/// Why a bootstrap step failed.
#[derive(Debug, PartialEq, Eq)]
pub enum BootstrapError {
    /// The engine instance could not be created.
    Runtime(String),
    /// The source did not compile; holds the compiler's diagnostic.
    Compile(String),
    /// The state was populated already.
    AlreadyPopulated,
    /// The state holds nothing to take.
    NotPopulated,
}

/// The two cells of process-wide state: an engine handle and bytecode.
pub struct ProcessState<R> {
    runtime: Option<R>,
    bytecode: Option<Vec<u8>>,
}

impl<R> ProcessState<R> {
    /// The engine handle held, if any.
    pub closed spec fn runtime_cell(&self) -> Option<R> {
        self.runtime
    }

    /// The bytecode held, if any.
    pub closed spec fn bytecode_cell(&self) -> Option<Seq<u8>> {
        match self.bytecode {
            Some(b) => Some(b@),
            None => None,
        }
    }

    /// Neither cell holds a value.
    pub open spec fn is_empty(&self) -> bool {
        self.runtime_cell() is None && self.bytecode_cell() is None
    }

    /// Both cells hold a value.
    pub open spec fn is_full(&self) -> bool {
        self.runtime_cell() is Some && self.bytecode_cell() is Some
    }

    /// State with both cells empty, as at process start.
    pub fn new() -> (r: Self)
        ensures
            r.is_empty(),
    {
        ProcessState { runtime: None, bytecode: None }
    }

    /// Whether both cells hold a value.
    pub fn is_populated(&self) -> (r: bool)
        ensures
            r == self.is_full(),
    {
        self.runtime.is_some() && self.bytecode.is_some()
    }

    /// Stores the engine handle and the bytecode. Fails, changing nothing,
    /// when either cell is occupied already.
    pub fn populate(&mut self, runtime: R, bytecode: Vec<u8>) -> (r: Result<(), BootstrapError>)
        ensures
            r is Ok <==> old(self).is_empty(),
            r is Err ==> r == Err::<(), BootstrapError>(BootstrapError::AlreadyPopulated),
            r is Err ==> *final(self) == *old(self),
            r is Ok ==> final(self).runtime_cell() == Some(runtime),
            r is Ok ==> final(self).bytecode_cell() == Some(bytecode@),
    {
        if self.runtime.is_some() || self.bytecode.is_some() {
            return Err(BootstrapError::AlreadyPopulated);
        }
        self.runtime = Some(runtime);
        self.bytecode = Some(bytecode);
        Ok(())
    }

    /// Takes the engine handle and the bytecode out, emptying both cells.
    /// Fails, changing nothing, unless both cells hold a value.
    pub fn take(&mut self) -> (r: Result<(R, Vec<u8>), BootstrapError>)
        ensures
            r is Ok <==> old(self).is_full(),
            r is Err ==> r == Err::<(R, Vec<u8>), BootstrapError>(BootstrapError::NotPopulated),
            r is Err ==> *final(self) == *old(self),
            r is Ok ==> final(self).is_empty(),
            r is Ok ==> old(self).runtime_cell() == Some(r->Ok_0.0),
            r is Ok ==> old(self).bytecode_cell() == Some(r->Ok_0.1@),
    {
        if self.runtime.is_none() || self.bytecode.is_none() {
            return Err(BootstrapError::NotPopulated);
        }
        let runtime = self.runtime.take().unwrap();
        let bytecode = self.bytecode.take().unwrap();
        Ok((runtime, bytecode))
    }

    /// Takes the engine handle out, leaving the bytecode cell as it is.
    /// Fails, changing nothing, when the handle's cell is empty.
    pub fn take_runtime(&mut self) -> (r: Result<R, BootstrapError>)
        ensures
            r is Ok <==> old(self).runtime_cell() is Some,
            r is Err ==> r == Err::<R, BootstrapError>(BootstrapError::NotPopulated),
            r is Err ==> *final(self) == *old(self),
            r is Ok ==> old(self).runtime_cell() == Some(r->Ok_0),
            final(self).runtime_cell() is None,
            final(self).bytecode_cell() == old(self).bytecode_cell(),
    {
        match self.runtime.take() {
            Some(runtime) => Ok(runtime),
            None => Err(BootstrapError::NotPopulated),
        }
    }

    /// Stores `runtime` with the outcome of compiling the source into it: the
    /// bytecode on success, or the compiler's diagnostic as the error.
    pub fn store_compiled(&mut self, runtime: R, compiled: Result<Vec<u8>, String>) -> (r: Result<(), BootstrapError>)
        ensures
            compiled is Err ==> r == Err::<(), BootstrapError>(BootstrapError::Compile(compiled->Err_0)),
            compiled is Ok && !old(self).is_empty() ==> r == Err::<(), BootstrapError>(BootstrapError::AlreadyPopulated),
            compiled is Ok && old(self).is_empty() ==> r is Ok,
            r is Err ==> *final(self) == *old(self),
            r is Ok ==> final(self).runtime_cell() == Some(runtime),
            r is Ok ==> final(self).bytecode_cell() == Some(compiled->Ok_0@),
    {
        match compiled {
            Ok(bytecode) => self.populate(runtime, bytecode),
            Err(message) => Err(BootstrapError::Compile(message)),
        }
    }
}

/// Population happens at most once: after a successful `populate` the state
/// is not empty, so a second `populate` fails and changes nothing.
pub proof fn lemma_populate_at_most_once<R>(s: ProcessState<R>, runtime: R, bytecode: Seq<u8>)
    requires
        s.runtime_cell() == Some(runtime),
        s.bytecode_cell() == Some(bytecode),
    ensures
        !s.is_empty(),
{
}

/// A populated state is full, so `take` on it succeeds and yields the stored
/// engine handle and bytecode unchanged.
pub proof fn lemma_take_yields_stored<R>(s: ProcessState<R>, runtime: R, bytecode: Seq<u8>)
    requires
        s.runtime_cell() == Some(runtime),
        s.bytecode_cell() == Some(bytecode),
    ensures
        s.is_full(),
        s.bytecode_cell()->Some_0 == bytecode,
        s.runtime_cell()->Some_0 == runtime,
{
}

impl ProcessState<javy::Runtime> {
    /// Initialization phase: creates an engine, compiles `source` into it as
    /// the module `FUNCTION_MODULE_NAME`, and stores both. Fails, changing
    /// nothing, when the state is occupied already, when the engine cannot be
    /// created, or when the source does not compile; otherwise the stored
    /// bytecode is the compilation of `source`.
    pub fn initialize(&mut self, source: &str) -> (r: Result<(), BootstrapError>)
        ensures
            !old(self).is_empty() <==> r == Err::<(), BootstrapError>(BootstrapError::AlreadyPopulated),
            r != Err::<(), BootstrapError>(BootstrapError::NotPopulated),
            r is Err ==> *final(self) == *old(self),
            r is Ok ==> final(self).is_full(),
            r is Ok ==> final(self).bytecode_cell() == compiled_module(FUNCTION_MODULE_NAME@, source@),
            old(self).is_empty() && compiled_module(FUNCTION_MODULE_NAME@, source@) is Some ==> (
            r is Ok || r->Err_0 is Runtime),
            old(self).is_empty() && compiled_module(FUNCTION_MODULE_NAME@, source@) is None ==> (
            r->Err_0 is Compile || r->Err_0 is Runtime),
            r is Err && r->Err_0 is Compile ==> compiled_module(FUNCTION_MODULE_NAME@, source@) is None,
    {
        if self.runtime.is_some() || self.bytecode.is_some() {
            return Err(BootstrapError::AlreadyPopulated);
        }
        let runtime = match new_runtime() {
            Ok(rt) => rt,
            Err(e) => return Err(BootstrapError::Runtime(error_message(&e))),
        };
        let compiled = match compile_to_bytecode(&runtime, FUNCTION_MODULE_NAME, source) {
            Ok(bytecode) => Ok(bytecode),
            Err(e) => Err(error_message(&e)),
        };
        self.store_compiled(runtime, compiled)
    }
}

} // verus!
