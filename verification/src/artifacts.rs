//! Where the build leaves what it made, and what the linker is told of it.

use vstd::prelude::*;
use crate::archive::{ArchiveJob, ArchiveJobView};
use crate::paths::{is_plain_directory, join, join_path, lemma_join_plain};

verus! {

/// The directory of the startup objects below the root of a build.
pub open spec fn startup_dir_of(root: Seq<char>) -> Seq<char> {
    join_path(join_path(join_path(root, "build"@), "startup"@), "linux"@)
}

/// The relocatable startup stub below the root of a build.
pub open spec fn crt1_of(root: Seq<char>) -> Seq<char> {
    join_path(startup_dir_of(root), "crt1.o"@)
}

/// The first companion object below the root of a build.
pub open spec fn crti_of(root: Seq<char>) -> Seq<char> {
    join_path(
        join_path(join_path(startup_dir_of(root), "CMakeFiles"@), "libc.startup.linux.crti.dir"@),
        "crti.cpp.o"@,
    )
}

/// The second companion object below the root of a build.
pub open spec fn crtn_of(root: Seq<char>) -> Seq<char> {
    join_path(
        join_path(join_path(startup_dir_of(root), "CMakeFiles"@), "libc.startup.linux.crtn.dir"@),
        "crtn.cpp.o"@,
    )
}

/// The directory of the libraries below the root of a build.
pub open spec fn lib_dir_of(root: Seq<char>) -> Seq<char> {
    join_path(join_path(root, "build"@), "lib"@)
}

/// The archive of the startup objects below the root of a build.
pub open spec fn startup_archive_of(root: Seq<char>) -> Seq<char> {
    join_path(lib_dir_of(root), "libstartup.a"@)
}

/// The run of the archiver that puts the three startup objects into their
/// archive: the stub first, the two companion objects after it.
pub open spec fn startup_job_of(root: Seq<char>) -> ArchiveJobView {
    ArchiveJobView {
        archive: startup_archive_of(root),
        members: seq![crt1_of(root), crti_of(root), crtn_of(root)],
    }
}

/// What the enclosing build is told for the linker: where the libraries are,
/// and that the C library, the math library and the startup archive are
/// linked statically, in this order.
pub open spec fn linkage_of(root: Seq<char>) -> Seq<Seq<char>> {
    seq![
        "cargo:rustc-link-search=native="@ + lib_dir_of(root),
        "cargo:rustc-link-lib=static=c"@,
        "cargo:rustc-link-lib=static=m"@,
        "cargo:rustc-link-lib=static=startup"@,
    ]
}

/// The paths of what a build left below its root.
#[derive(Debug, Clone, PartialEq, Eq)]
pub struct Artifacts {
    pub crt1: String,
    pub crti: String,
    pub crtn: String,
    pub lib_dir: String,
    pub startup_archive: String,
}

impl Artifacts {
    /// Whether these are the paths below `root`.
    pub open spec fn is_below(&self, root: Seq<char>) -> bool {
        &&& self.crt1@ == crt1_of(root)
        &&& self.crti@ == crti_of(root)
        &&& self.crtn@ == crtn_of(root)
        &&& self.lib_dir@ == lib_dir_of(root)
        &&& self.startup_archive@ == startup_archive_of(root)
    }

    /// The paths below the root of a build.
    pub fn resolve(root: &str) -> (artifacts: Artifacts)
        ensures
            artifacts.is_below(root@),
    {
        let build = join(root, "build");
        let startup = join(build.as_str(), "startup");
        let startup_dir = join(startup.as_str(), "linux");
        let crt1 = join(startup_dir.as_str(), "crt1.o");
        let cmake_files = join(startup_dir.as_str(), "CMakeFiles");
        let crti_dir = join(cmake_files.as_str(), "libc.startup.linux.crti.dir");
        let crti = join(crti_dir.as_str(), "crti.cpp.o");
        let crtn_dir = join(cmake_files.as_str(), "libc.startup.linux.crtn.dir");
        let crtn = join(crtn_dir.as_str(), "crtn.cpp.o");
        let lib_dir = join(build.as_str(), "lib");
        let startup_archive = join(lib_dir.as_str(), "libstartup.a");
        Artifacts { crt1, crti, crtn, lib_dir, startup_archive }
    }

    /// The run of the archiver that puts the three startup objects into their
    /// archive.
    pub fn startup_job(&self) -> (job: ArchiveJob)
        ensures
            job@.archive == self.startup_archive@,
            job@.members == seq![self.crt1@, self.crti@, self.crtn@],
            forall|root: Seq<char>| self.is_below(root) ==> job@ == startup_job_of(root),
    {
        let mut members: Vec<String> = Vec::new();
        members.push(self.crt1.clone());
        members.push(self.crti.clone());
        members.push(self.crtn.clone());
        let job = ArchiveJob { archive: self.startup_archive.clone(), members };
        assert(job@.members =~= seq![self.crt1@, self.crti@, self.crtn@]);
        job
    }

    /// What the enclosing build is told for the linker, line by line.
    pub fn linkage(&self) -> (lines: Vec<String>)
        ensures
            lines@.map_values(|line: String| line@) == seq![
                "cargo:rustc-link-search=native="@ + self.lib_dir@,
                "cargo:rustc-link-lib=static=c"@,
                "cargo:rustc-link-lib=static=m"@,
                "cargo:rustc-link-lib=static=startup"@,
            ],
            forall|root: Seq<char>|
                self.is_below(root) ==> lines@.map_values(|line: String| line@) == linkage_of(
                    root,
                ),
    {
        let mut search = String::from_str("cargo:rustc-link-search=native=");
        search.append(self.lib_dir.as_str());
        let mut lines: Vec<String> = Vec::new();
        lines.push(search);
        lines.push(String::from_str("cargo:rustc-link-lib=static=c"));
        lines.push(String::from_str("cargo:rustc-link-lib=static=m"));
        lines.push(String::from_str("cargo:rustc-link-lib=static=startup"));
        assert(lines@.map_values(|line: String| line@) =~= seq![
            "cargo:rustc-link-search=native="@ + self.lib_dir@,
            "cargo:rustc-link-lib=static=c"@,
            "cargo:rustc-link-lib=static=m"@,
            "cargo:rustc-link-lib=static=startup"@,
        ]);
        lines
    }
}

/// Below a root that is a plain directory, everything is where CMake leaves
/// it: the root, and a fixed path after it.
pub proof fn lemma_layout(root: Seq<char>)
    requires
        is_plain_directory(root),
    ensures
        crt1_of(root) == root + "/build/startup/linux/crt1.o"@,
        crti_of(root) == root
            + "/build/startup/linux/CMakeFiles/libc.startup.linux.crti.dir/crti.cpp.o"@,
        crtn_of(root) == root
            + "/build/startup/linux/CMakeFiles/libc.startup.linux.crtn.dir/crtn.cpp.o"@,
        lib_dir_of(root) == root + "/build/lib"@,
        startup_archive_of(root) == root + "/build/lib/libstartup.a"@,
{
    reveal_strlit("build");
    reveal_strlit("startup");
    reveal_strlit("linux");
    reveal_strlit("crt1.o");
    reveal_strlit("CMakeFiles");
    reveal_strlit("libc.startup.linux.crti.dir");
    reveal_strlit("crti.cpp.o");
    reveal_strlit("libc.startup.linux.crtn.dir");
    reveal_strlit("crtn.cpp.o");
    reveal_strlit("lib");
    reveal_strlit("libstartup.a");
    reveal_strlit("/build/startup/linux/crt1.o");
    reveal_strlit("/build/startup/linux/CMakeFiles/libc.startup.linux.crti.dir/crti.cpp.o");
    reveal_strlit("/build/startup/linux/CMakeFiles/libc.startup.linux.crtn.dir/crtn.cpp.o");
    reveal_strlit("/build/lib");
    reveal_strlit("/build/lib/libstartup.a");
    let build = join_path(root, "build"@);
    lemma_join_plain(root, "build"@);
    let startup = join_path(build, "startup"@);
    lemma_join_plain(build, "startup"@);
    let linux = join_path(startup, "linux"@);
    lemma_join_plain(startup, "linux"@);
    lemma_join_plain(linux, "crt1.o"@);
    let cmake_files = join_path(linux, "CMakeFiles"@);
    lemma_join_plain(linux, "CMakeFiles"@);
    let crti_dir = join_path(cmake_files, "libc.startup.linux.crti.dir"@);
    lemma_join_plain(cmake_files, "libc.startup.linux.crti.dir"@);
    lemma_join_plain(crti_dir, "crti.cpp.o"@);
    let crtn_dir = join_path(cmake_files, "libc.startup.linux.crtn.dir"@);
    lemma_join_plain(cmake_files, "libc.startup.linux.crtn.dir"@);
    lemma_join_plain(crtn_dir, "crtn.cpp.o"@);
    let lib_dir = join_path(build, "lib"@);
    lemma_join_plain(build, "lib"@);
    lemma_join_plain(lib_dir, "libstartup.a"@);
    assert(crt1_of(root) =~= root + "/build/startup/linux/crt1.o"@);
    assert(crti_of(root) =~= root
        + "/build/startup/linux/CMakeFiles/libc.startup.linux.crti.dir/crti.cpp.o"@);
    assert(crtn_of(root) =~= root
        + "/build/startup/linux/CMakeFiles/libc.startup.linux.crtn.dir/crtn.cpp.o"@);
    assert(lib_dir_of(root) =~= root + "/build/lib"@);
    assert(startup_archive_of(root) =~= root + "/build/lib/libstartup.a"@);
}

} // verus!
