//! Structures that the commands share: feature switches, the choice of a
//! compiler, and where compiled modules are cached.

use vstd::prelude::*;

verus! {

/// The WebAssembly features that can be switched on from the command line.
#[derive(Debug, Clone, Copy, PartialEq, Eq, Structural)]
pub struct WasmFeatures {
    /// Support for the SIMD proposal.
    pub simd: bool,
    /// Support for the threads proposal.
    pub threads: bool,
    /// Support for the reference types proposal.
    pub reference_types: bool,
    /// Support for the multi value proposal.
    pub multi_value: bool,
    /// Support for the bulk memory proposal.
    pub bulk_memory: bool,
    /// Support for all pre-standard proposals.
    pub all: bool,
}

/// The compiler options. At most one compiler is chosen: each of the three
/// switches excludes the other two.
#[derive(Debug, Clone, Copy)]
pub struct Compiler {
    singlepass: bool,
    cranelift: bool,
    llvm: bool,
    features: WasmFeatures,
}

/// What a [`Compiler`] stands for.
pub struct CompilerModel {
    pub singlepass: bool,
    pub cranelift: bool,
    pub llvm: bool,
    pub features: WasmFeatures,
}

/// Whether no two of the three compiler switches are on.
pub open spec fn at_most_one(singlepass: bool, cranelift: bool, llvm: bool) -> bool {
    &&& !(singlepass && cranelift)
    &&& !(singlepass && llvm)
    &&& !(cranelift && llvm)
}

impl Compiler {
    #[verifier::type_invariant]
    spec fn exclusive(self) -> bool {
        at_most_one(self.singlepass, self.cranelift, self.llvm)
    }

    /// What the options stand for: the four settings.
    pub closed spec fn view(&self) -> CompilerModel {
        CompilerModel {
            singlepass: self.singlepass,
            cranelift: self.cranelift,
            llvm: self.llvm,
            features: self.features,
        }
    }

    /// The options with these switches, unless two compilers are chosen at
    /// once.
    pub fn new(
        singlepass: bool,
        cranelift: bool,
        llvm: bool,
        features: WasmFeatures,
    ) -> (made: Option<Compiler>)
        ensures
            made is Some <==> at_most_one(singlepass, cranelift, llvm),
            made matches Some(compiler) ==> compiler@ == (
                CompilerModel { singlepass, cranelift, llvm, features }
            ),
    {
        if (singlepass && cranelift) || (singlepass && llvm) || (cranelift && llvm) {
            None
        } else {
            Some(Compiler { singlepass, cranelift, llvm, features })
        }
    }

    /// Whether the Singlepass compiler is chosen.
    pub fn singlepass(&self) -> (on: bool)
        ensures
            on == self@.singlepass,
            on ==> !self@.cranelift && !self@.llvm,
    {
        proof {
            use_type_invariant(self);
        }
        self.singlepass
    }

    /// Whether the Cranelift compiler is chosen.
    pub fn cranelift(&self) -> (on: bool)
        ensures
            on == self@.cranelift,
            on ==> !self@.singlepass && !self@.llvm,
    {
        proof {
            use_type_invariant(self);
        }
        self.cranelift
    }

    /// Whether the LLVM compiler is chosen.
    pub fn llvm(&self) -> (on: bool)
        ensures
            on == self@.llvm,
            on ==> !self@.singlepass && !self@.cranelift,
    {
        proof {
            use_type_invariant(self);
        }
        self.llvm
    }

    /// The feature switches.
    pub fn features(&self) -> (features: WasmFeatures)
        ensures
            features == self@.features,
    {
        self.features
    }
}

/// The environment variable that names the cache directory.
pub const CACHE_DIR_VARIABLE: &'static str = "WASMER_CACHE_DIR";

/// The directory under the temporary directory that holds the cache where
/// none is configured.
pub const TEMPORARY_CACHE_NAME: &'static str = "wasmer";

/// The directory that a cache directory is built under.
#[derive(Clone, Debug, PartialEq, Eq)]
pub enum CacheRoot {
    /// The directory that the environment names.
    Configured(String),
    /// The temporary directory of the system.
    Temporary,
}

/// A cache directory: a root, and the path segments that lead from it to
/// the directory, outermost first.
#[derive(Clone, Debug, PartialEq, Eq)]
pub struct CacheDir {
    pub root: CacheRoot,
    pub segments: Vec<String>,
}

/// The texts of a sequence of strings, in order.
pub open spec fn texts(strings: Seq<String>) -> Seq<Seq<char>> {
    Seq::new(strings.len(), |i: int| strings[i]@)
}

/// The cache directory for the runtime of version `version`, given what the
/// environment configures. A configured directory is used as it is, with
/// one directory for the version in it. Without one the cache lies in the
/// temporary directory, under `wasmer` and then the version.
pub fn get_cache_dir(configured: Option<String>, version: &str) -> (dir: CacheDir)
    ensures
        dir.root == match configured {
            Some(path) => CacheRoot::Configured(path),
            None => CacheRoot::Temporary,
        },
        texts(dir.segments@) == match configured {
            Some(_) => seq![version@],
            None => seq![TEMPORARY_CACHE_NAME@, version@],
        },
{
    let mut segments: Vec<String> = Vec::new();
    match configured {
        Some(path) => {
            segments.push(version.to_owned());
            CacheDir { root: CacheRoot::Configured(path), segments }
        },
        None => {
            segments.push(TEMPORARY_CACHE_NAME.to_owned());
            segments.push(version.to_owned());
            CacheDir { root: CacheRoot::Temporary, segments }
        },
    }
}

} // verus!
