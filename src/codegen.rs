use vstd::prelude::*;
use vstd::string::StringExecFns;

use crate::wit::{ConfigError, WitOptions};

verus! {

/// The fixed start of the import namespace of the engine provider module.
pub const PROVIDER_NAMESPACE_PREFIX: &'static str = "javy_quickjs_provider_v";

/// The import namespace that links a module against the provider of version `v`.
pub open spec fn import_namespace_for(v: Seq<char>) -> Seq<char> {
    PROVIDER_NAMESPACE_PREFIX@ + v
}

/// The kind of artifact that a caller asks the builder for.
#[derive(Debug, Clone, Copy, PartialEq, Eq, Structural)]
pub enum CodeGenType {
    /// The engine is compiled into the module itself.
    Static,
    /// The module imports the engine from a shared provider module.
    Dynamic,
}

/// Generates a self-contained module.
#[derive(Debug)]
pub struct StaticGenerator {
    /// Whether to compress the original JS source.
    pub source_compression: bool,
    /// WIT options for code generation.
    pub wit_opts: WitOptions,
}

/// Generates a module that links against a shared engine provider module.
#[derive(Debug)]
pub struct DynamicGenerator {
    /// Whether to compress the original JS source.
    pub source_compression: bool,
    /// The namespace under which the provider's exports are imported.
    pub import_namespace: String,
    /// WIT options for code generation.
    pub wit_opts: WitOptions,
}

/// A code generation strategy.
#[derive(Debug)]
pub enum CodeGen {
    Static(StaticGenerator),
    Dynamic(DynamicGenerator),
}

impl CodeGen {
    /// The kind of artifact this strategy produces.
    pub fn classify(&self) -> (r: CodeGenType)
        ensures
            r == CodeGenType::Static <==> self is Static,
    {
        match self {
            CodeGen::Static(_) => CodeGenType::Static,
            CodeGen::Dynamic(_) => CodeGenType::Dynamic,
        }
    }
}

/// A code generation builder.
#[derive(Debug)]
pub struct CodeGenBuilder {
    /// The QuickJS provider module version.
    provider_version: Option<&'static str>,
    /// WIT options for code generation.
    wit_opts: WitOptions,
    /// Whether to compress the original JS source.
    source_compression: bool,
}

impl CodeGenBuilder {
    /// The provider version set so far, if any.
    pub closed spec fn spec_provider_version(&self) -> Option<Seq<char>> {
        match self.provider_version {
            Some(v) => Some(v@),
            None => None,
        }
    }

    /// The WIT options set so far.
    pub closed spec fn spec_wit_opts(&self) -> WitOptions {
        self.wit_opts
    }

    /// The source compression flag set so far.
    pub closed spec fn spec_source_compression(&self) -> bool {
        self.source_compression
    }

    /// Create a new [`CodeGenBuilder`]: no provider version, no WIT options,
    /// no source compression.
    pub fn new() -> (r: Self)
        ensures
            r.spec_provider_version() is None,
            r.spec_wit_opts().path is None,
            r.spec_wit_opts().world is None,
            !r.spec_source_compression(),
    {
        CodeGenBuilder {
            provider_version: None,
            wit_opts: WitOptions::none(),
            source_compression: false,
        }
    }

    /// Set the provider version.
    pub fn provider_version(&mut self, v: &'static str) -> (r: &mut Self)
        ensures
            r.spec_provider_version() == Some(v@),
            r.spec_wit_opts() == old(self).spec_wit_opts(),
            r.spec_source_compression() == old(self).spec_source_compression(),
            *final(self) == *final(r),
    {
        self.provider_version = Some(v);
        self
    }

    /// Set the WIT options.
    pub fn wit_opts(&mut self, opts: WitOptions) -> (r: &mut Self)
        ensures
            r.spec_provider_version() == old(self).spec_provider_version(),
            r.spec_wit_opts() == opts,
            r.spec_source_compression() == old(self).spec_source_compression(),
            *final(self) == *final(r),
    {
        self.wit_opts = opts;
        self
    }

    /// Whether to compress the JS source.
    pub fn source_compression(&mut self, compress: bool) -> (r: &mut Self)
        ensures
            r.spec_provider_version() == old(self).spec_provider_version(),
            r.spec_wit_opts() == old(self).spec_wit_opts(),
            r.spec_source_compression() == compress,
            *final(self) == *final(r),
    {
        self.source_compression = compress;
        self
    }
    /// Build the strategy of the requested kind.
    ///
    /// A static strategy always succeeds. A dynamic strategy needs a provider
    /// version, from which its import namespace is derived.
    pub fn build(self, kind: CodeGenType) -> (r: Result<CodeGen, ConfigError>)
        ensures
            kind == CodeGenType::Static ==> r == Ok::<CodeGen, ConfigError>(
                CodeGen::Static(
                    StaticGenerator {
                        source_compression: self.spec_source_compression(),
                        wit_opts: self.spec_wit_opts(),
                    },
                ),
            ),
            kind == CodeGenType::Dynamic ==> (r is Err <==> self.spec_provider_version() is None),
            kind == CodeGenType::Dynamic ==> (r is Err ==> r == Err::<CodeGen, ConfigError>(
                ConfigError::ProviderVersionMissing,
            )),
            kind == CodeGenType::Dynamic && r is Ok ==> Self::is_dynamic_of(self, r->Ok_0),
    {
        match kind {
            CodeGenType::Static => self.build_static(),
            CodeGenType::Dynamic => self.build_dynamic(),
        }
    }

    /// `g` is the dynamic strategy that `b` configures.
    pub open spec fn is_dynamic_of(b: Self, g: CodeGen) -> bool {
        &&& b.spec_provider_version() is Some
        &&& g is Dynamic
        &&& g->Dynamic_0.import_namespace@ == import_namespace_for(b.spec_provider_version()->Some_0)
        &&& g->Dynamic_0.wit_opts == b.spec_wit_opts()
        &&& g->Dynamic_0.source_compression == b.spec_source_compression()
    }

    fn build_static(self) -> (r: Result<CodeGen, ConfigError>)
        ensures
            r == Ok::<CodeGen, ConfigError>(
                CodeGen::Static(
                    StaticGenerator {
                        source_compression: self.spec_source_compression(),
                        wit_opts: self.spec_wit_opts(),
                    },
                ),
            ),
    {
        let static_gen = StaticGenerator {
            source_compression: self.source_compression,
            wit_opts: self.wit_opts,
        };
        Ok(CodeGen::Static(static_gen))
    }

    fn build_dynamic(self) -> (r: Result<CodeGen, ConfigError>)
        ensures
            r is Err <==> self.spec_provider_version() is None,
            r is Err ==> r == Err::<CodeGen, ConfigError>(ConfigError::ProviderVersionMissing),
            r is Ok ==> Self::is_dynamic_of(self, r->Ok_0),
    {
        match self.provider_version {
            Some(v) => {
                let mut import_namespace = String::from_str(PROVIDER_NAMESPACE_PREFIX);
                import_namespace.append(v);
                let dynamic_gen = DynamicGenerator {
                    source_compression: self.source_compression,
                    import_namespace,
                    wit_opts: self.wit_opts,
                };
                Ok(CodeGen::Dynamic(dynamic_gen))
            },
            None => Err(ConfigError::ProviderVersionMissing),
        }
    }
}

} // verus!
