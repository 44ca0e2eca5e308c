use llvmlibc_build::environment::{target_triple, Environment, Toolchain, Variable};
use llvmlibc_build::error::BuildError;

fn environment(cc: Option<&str>, cxx: Option<&str>, arch: Option<&str>) -> Environment {
    Environment {
        cc: cc.map(String::from),
        cxx: cxx.map(String::from),
        target_arch: arch.map(String::from),
    }
}

#[test]
fn triple_for_x86_64() {
    assert_eq!(target_triple("x86_64"), "x86_64-unknown-linux-gnu");
}

#[test]
fn triple_for_other_architectures() {
    assert_eq!(target_triple("aarch64"), "aarch64-unknown-linux-gnu");
    assert_eq!(target_triple("riscv64"), "riscv64-unknown-linux-gnu");
    assert_eq!(target_triple(""), "-unknown-linux-gnu");
}

#[test]
fn triple_from_the_environment() {
    let env = environment(None, None, Some("x86_64"));
    assert_eq!(env.triple(), Ok(String::from("x86_64-unknown-linux-gnu")));
}

#[test]
fn missing_architecture_is_a_failure() {
    let env = environment(Some("gcc"), Some("g++"), None);
    assert_eq!(
        env.triple(),
        Err(BuildError::MissingEnvironment { variable: Variable::TargetArch })
    );
}

#[test]
fn unset_compilers_get_their_defaults() {
    let env = environment(None, None, Some("x86_64"));
    assert_eq!(
        env.toolchain(),
        Toolchain { cc: String::from("clang"), cxx: String::from("clang++") }
    );
    assert_eq!(
        env.exports(),
        vec![
            (Variable::Cxx, String::from("clang++")),
            (Variable::Cc, String::from("clang")),
        ]
    );
}

#[test]
fn set_compilers_stay_as_they_are() {
    let env = environment(Some("gcc-13"), Some("g++-13"), Some("x86_64"));
    assert_eq!(
        env.toolchain(),
        Toolchain { cc: String::from("gcc-13"), cxx: String::from("g++-13") }
    );
    assert_eq!(env.exports(), vec![]);
}

#[test]
fn each_compiler_is_defaulted_on_its_own() {
    let only_cc = environment(Some("gcc"), None, None);
    assert_eq!(
        only_cc.toolchain(),
        Toolchain { cc: String::from("gcc"), cxx: String::from("clang++") }
    );
    assert_eq!(only_cc.exports(), vec![(Variable::Cxx, String::from("clang++"))]);

    let only_cxx = environment(None, Some("g++"), None);
    assert_eq!(
        only_cxx.toolchain(),
        Toolchain { cc: String::from("clang"), cxx: String::from("g++") }
    );
    assert_eq!(only_cxx.exports(), vec![(Variable::Cc, String::from("clang"))]);
}

#[test]
fn a_compiler_set_to_the_empty_text_counts_as_set() {
    let env = environment(Some(""), Some(""), None);
    assert_eq!(env.toolchain(), Toolchain { cc: String::new(), cxx: String::new() });
    assert_eq!(env.exports(), vec![]);
}

#[test]
fn variables_have_their_names() {
    assert_eq!(Variable::Cc.name(), "CC");
    assert_eq!(Variable::Cxx.name(), "CXX");
    assert_eq!(Variable::TargetArch.name(), "CARGO_CFG_TARGET_ARCH");
}
