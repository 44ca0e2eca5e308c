//! The targets that the build is asked for, in their fixed order.

use vstd::prelude::*;
use cmake::Config as CmakeConfig;
use crate::store::{cmake_build_target, cmake_definitions, cmake_set_build_target, cmake_target};

verus! {

/// One thing that CMake is asked to build.
#[derive(Debug, Clone, Copy, PartialEq, Eq)]
pub enum Target {
    /// The C library.
    Libc,
    /// The math library.
    Libm,
    /// The relocatable startup stub.
    Crt1,
    /// The first of the two objects that go with the linker script.
    Crti,
    /// The second of the two objects that go with the linker script.
    Crtn,
}

/// How many targets there are.
pub const TARGET_COUNT: usize = 5;

impl Target {
    /// The name that CMake knows the target by.
    pub open spec fn text(self) -> Seq<char> {
        match self {
            Target::Libc => "libc"@,
            Target::Libm => "libm"@,
            Target::Crt1 => "libc.startup.linux.crt1.__relocatable__"@,
            Target::Crti => "libc.startup.linux.crti"@,
            Target::Crtn => "libc.startup.linux.crtn"@,
        }
    }

    /// The place of the target in the order of building, from zero.
    pub open spec fn place(self) -> nat {
        match self {
            Target::Libc => 0,
            Target::Libm => 1,
            Target::Crt1 => 2,
            Target::Crti => 3,
            Target::Crtn => 4,
        }
    }

    /// The target that is built after this one, if any is.
    pub open spec fn successor(self) -> Option<Target> {
        match self {
            Target::Libc => Some(Target::Libm),
            Target::Libm => Some(Target::Crt1),
            Target::Crt1 => Some(Target::Crti),
            Target::Crti => Some(Target::Crtn),
            Target::Crtn => None,
        }
    }

    /// All targets in the order in which they are built.
    pub open spec fn sequence() -> Seq<Target> {
        seq![Target::Libc, Target::Libm, Target::Crt1, Target::Crti, Target::Crtn]
    }

    /// The target that is built first.
    pub fn first() -> (target: Target)
        ensures
            target == Target::sequence()[0],
    {
        Target::Libc
    }

    /// The name that CMake knows the target by.
    pub fn name(&self) -> (name: &'static str)
        ensures
            name@ == self.text(),
    {
        match self {
            Target::Libc => "libc",
            Target::Libm => "libm",
            Target::Crt1 => "libc.startup.linux.crt1.__relocatable__",
            Target::Crti => "libc.startup.linux.crti",
            Target::Crtn => "libc.startup.linux.crtn",
        }
    }

    /// Tells a CMake configuration to build this target next. What the
    /// configuration defines and what it is configured for stay as they are.
    pub fn select(&self, cmake_cfg: &mut CmakeConfig)
        ensures
            cmake_build_target(*final(cmake_cfg)) == Some(self.text()),
            cmake_definitions(*final(cmake_cfg)) == cmake_definitions(*old(cmake_cfg)),
            cmake_target(*final(cmake_cfg)) == cmake_target(*old(cmake_cfg)),
    {
        cmake_set_build_target(cmake_cfg, self.name());
    }

    /// The place of the target in the order of building, from zero.
    pub fn index(&self) -> (index: usize)
        ensures
            index == self.place(),
            index < TARGET_COUNT,
            Target::sequence()[index as int] == *self,
    {
        match self {
            Target::Libc => 0,
            Target::Libm => 1,
            Target::Crt1 => 2,
            Target::Crti => 3,
            Target::Crtn => 4,
        }
    }

    /// The target that is built after this one, if any is.
    pub fn next(&self) -> (next: Option<Target>)
        ensures
            next == self.successor(),
            match next {
                Some(target) => target.place() == self.place() + 1,
                None => self.place() + 1 == TARGET_COUNT,
            },
    {
        match self {
            Target::Libc => Some(Target::Libm),
            Target::Libm => Some(Target::Crt1),
            Target::Crt1 => Some(Target::Crti),
            Target::Crti => Some(Target::Crtn),
            Target::Crtn => None,
        }
    }
}

/// The targets are five, each at its place in the order, and each with a
/// name of its own.
pub proof fn lemma_targets(first: Target, second: Target)
    ensures
        Target::sequence().len() == TARGET_COUNT,
        Target::sequence()[first.place() as int] == first,
        first.text() == second.text() <==> first == second,
{
    reveal_strlit("libc");
    reveal_strlit("libm");
    reveal_strlit("libc.startup.linux.crt1.__relocatable__");
    reveal_strlit("libc.startup.linux.crti");
    reveal_strlit("libc.startup.linux.crtn");
    assert(Target::Libc.text().len() == 4 && Target::Libc.text()[3] == 'c');
    assert(Target::Libm.text().len() == 4 && Target::Libm.text()[3] == 'm');
    assert(Target::Crt1.text().len() == 39);
    assert(Target::Crti.text().len() == 23 && Target::Crti.text()[22] == 'i');
    assert(Target::Crtn.text().len() == 23 && Target::Crtn.text()[22] == 'n');
}

} // verus!
