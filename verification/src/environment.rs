//! What the build takes from the environment of the process: the compilers
//! and the architecture of the target.

use vstd::prelude::*;
use crate::error::{failure_of, BuildError, BuildErrorView};

verus! {

/// An environment variable that the build reads.
#[derive(Debug, Clone, Copy, PartialEq, Eq)]
pub enum Variable {
    /// The C compiler.
    Cc,
    /// The C++ compiler.
    Cxx,
    /// The architecture that the library is built for. The build cannot do
    /// without it.
    TargetArch,
}

impl Variable {
    /// The name of the variable.
    pub open spec fn text(self) -> Seq<char> {
        match self {
            Variable::Cc => "CC"@,
            Variable::Cxx => "CXX"@,
            Variable::TargetArch => "CARGO_CFG_TARGET_ARCH"@,
        }
    }

    /// The name of the variable.
    pub fn name(&self) -> (name: &'static str)
        ensures
            name@ == self.text(),
    {
        match self {
            Variable::Cc => "CC",
            Variable::Cxx => "CXX",
            Variable::TargetArch => "CARGO_CFG_TARGET_ARCH",
        }
    }
}

/// What the three variables hold, each `None` where it is not set.
#[derive(Debug, Clone, PartialEq, Eq)]
pub struct Environment {
    pub cc: Option<String>,
    pub cxx: Option<String>,
    pub target_arch: Option<String>,
}

/// The compilers that the build runs.
#[derive(Debug, Clone, PartialEq, Eq)]
pub struct Toolchain {
    pub cc: String,
    pub cxx: String,
}

/// The C compiler where none is set.
pub open spec fn default_cc() -> Seq<char> {
    "clang"@
}

/// The C++ compiler where none is set.
pub open spec fn default_cxx() -> Seq<char> {
    "clang++"@
}

/// What a variable holds, or `fallback` where it is not set.
pub open spec fn value_or(value: Option<String>, fallback: Seq<char>) -> Seq<char> {
    match value {
        Some(text) => text@,
        None => fallback,
    }
}

/// The triple of the target for an architecture: the architecture, and
/// `-unknown-linux-gnu` after it.
pub open spec fn triple_of(arch: Seq<char>) -> Seq<char> {
    arch + "-unknown-linux-gnu"@
}

/// The triple of the target for an architecture.
pub fn target_triple(arch: &str) -> (triple: String)
    ensures
        triple@ == triple_of(arch@),
{
    let mut triple = String::from_str(arch);
    triple.append("-unknown-linux-gnu");
    triple
}

impl Environment {
    /// The variables that are to be set before CMake runs, each with its
    /// value: the C++ compiler and the C compiler, in this order, each only
    /// where it is not set yet. A variable that is set is never among them.
    pub open spec fn pending_exports(&self) -> Seq<(Variable, Seq<char>)> {
        (if self.cxx is None {
            seq![(Variable::Cxx, default_cxx())]
        } else {
            Seq::empty()
        }) + (if self.cc is None {
            seq![(Variable::Cc, default_cc())]
        } else {
            Seq::empty()
        })
    }

    /// The compilers that the build runs: those that are set, and `clang`
    /// and `clang++` where none is.
    pub fn toolchain(&self) -> (toolchain: Toolchain)
        ensures
            toolchain.cc@ == value_or(self.cc, default_cc()),
            toolchain.cxx@ == value_or(self.cxx, default_cxx()),
    {
        let cc = match &self.cc {
            Some(set) => set.clone(),
            None => String::from_str("clang"),
        };
        let cxx = match &self.cxx {
            Some(set) => set.clone(),
            None => String::from_str("clang++"),
        };
        Toolchain { cc, cxx }
    }

    /// The variables that are to be set before CMake runs, each with its
    /// value.
    pub fn exports(&self) -> (exports: Vec<(Variable, String)>)
        ensures
            exports@.map_values(|e: (Variable, String)| (e.0, e.1@)) == self.pending_exports(),
    {
        let mut exports: Vec<(Variable, String)> = Vec::new();
        if self.cxx.is_none() {
            exports.push((Variable::Cxx, String::from_str("clang++")));
        }
        if self.cc.is_none() {
            exports.push((Variable::Cc, String::from_str("clang")));
        }
        assert(exports@.map_values(|e: (Variable, String)| (e.0, e.1@))
            =~= self.pending_exports());
        exports
    }

    /// The triple of the target, or the failure that the architecture is not
    /// set.
    pub fn triple(&self) -> (triple: Result<String, BuildError>)
        ensures
            match self.target_arch {
                Some(arch) => triple matches Ok(text) && text@ == triple_of(arch@),
                None => failure_of(triple) == Some(
                    BuildErrorView::MissingEnvironment { variable: Variable::TargetArch },
                ),
            },
    {
        match &self.target_arch {
            Some(arch) => Ok(target_triple(arch.as_str())),
            None => Err(BuildError::MissingEnvironment { variable: Variable::TargetArch }),
        }
    }
}

/// Once the pending exports are made, both compilers are set, to what
/// [`Environment::toolchain`] says. A compiler that was set is not exported,
/// so its value stays, and the architecture is never exported.
pub proof fn lemma_exports(environment: Environment)
    ensures
        environment.cc is None <==> environment.pending_exports().contains(
            (Variable::Cc, default_cc()),
        ),
        environment.cxx is None <==> environment.pending_exports().contains(
            (Variable::Cxx, default_cxx()),
        ),
        forall|i: int|
            0 <= i < environment.pending_exports().len() ==> {
                let export = #[trigger] environment.pending_exports()[i];
                ||| export == (Variable::Cc, value_or(environment.cc, default_cc()))
                ||| export == (Variable::Cxx, value_or(environment.cxx, default_cxx()))
            },
        environment.pending_exports().len() == (if environment.cc is None {
            1int
        } else {
            0int
        }) + (if environment.cxx is None {
            1int
        } else {
            0int
        }),
{
    let exports = environment.pending_exports();
    if environment.cxx is None {
        assert(exports[0] == (Variable::Cxx, default_cxx()));
    }
    if environment.cc is None {
        assert(exports[exports.len() - 1] == (Variable::Cc, default_cc()));
    }
}

/// For `x86_64` the triple is `x86_64-unknown-linux-gnu`, and the triple of
/// any architecture begins with the architecture and ends in the same 18
/// characters.
pub proof fn lemma_triple(arch: Seq<char>)
    ensures
        triple_of("x86_64"@) == "x86_64-unknown-linux-gnu"@,
        triple_of(arch).len() == arch.len() + 18,
        triple_of(arch).subrange(0, arch.len() as int) == arch,
{
    reveal_strlit("x86_64");
    reveal_strlit("-unknown-linux-gnu");
    reveal_strlit("x86_64-unknown-linux-gnu");
    assert(triple_of("x86_64"@) =~= "x86_64-unknown-linux-gnu"@);
    assert(triple_of(arch).subrange(0, arch.len() as int) =~= arch);
}

} // verus!
