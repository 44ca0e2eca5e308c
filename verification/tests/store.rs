use llvmlibc_build::config::{AddToCMake, Config, PrintfOpts};
use llvmlibc_build::store::{DefinitionStore, Definitions};
use llvmlibc_build::targets::Target;

#[test]
fn a_new_store_holds_nothing() {
    let store = Definitions::new();
    assert_eq!(store.len(), 0);
    assert_eq!(store.entry(0), None);
    assert_eq!(store.get("LIBC_CONF_QSORT_IMPL"), None);
    assert_eq!(store.count("LIBC_CONF_QSORT_IMPL"), 0);
}

#[test]
fn define_keeps_the_order_of_writing() {
    let mut store = Definitions::new();
    store.define("B", "2");
    store.define("A", "1");
    store.define("C", "");
    assert_eq!(store.len(), 3);
    assert_eq!(store.entry(0), Some(("B", "2")));
    assert_eq!(store.entry(1), Some(("A", "1")));
    assert_eq!(store.entry(2), Some(("C", "")));
    assert_eq!(store.entry(3), None);
}

#[test]
fn get_finds_the_value_of_a_key() {
    let mut store = Definitions::new();
    store.define("LLVM_RUNTIMES_BUILD", "ON");
    store.define("LLVM_LIBC_FULL_BUILD", "true");
    assert_eq!(store.get("LLVM_RUNTIMES_BUILD"), Some("ON"));
    assert_eq!(store.get("LLVM_LIBC_FULL_BUILD"), Some("true"));
    assert_eq!(store.get("LLVM_LIBC_FULL_BUIL"), None);
    assert_eq!(store.get(""), None);
}

#[test]
fn the_last_write_of_a_key_wins() {
    let mut store = Definitions::new();
    store.define("K", "first");
    store.define("OTHER", "x");
    store.define("K", "second");
    assert_eq!(store.get("K"), Some("second"));
    assert_eq!(store.count("K"), 2);
    assert_eq!(store.count("OTHER"), 1);
    assert_eq!(store.count("NONE"), 0);
    assert_eq!(store.len(), 3);
}

#[test]
fn an_empty_value_is_a_value() {
    let mut store = Definitions::new();
    store.define("K", "");
    assert_eq!(store.get("K"), Some(""));
    assert_eq!(store.count("K"), 1);
}

#[test]
fn writes_come_after_what_a_store_already_holds() {
    let mut store = Definitions::new();
    store.define("EARLIER", "1");
    PrintfOpts::default().add_to_cmake(&mut store);
    assert_eq!(store.len(), 9);
    assert_eq!(store.entry(0), Some(("EARLIER", "1")));
    assert_eq!(store.entry(1), Some(("LIBC_CONF_PRINTF_DISABLE_FIXED_POINT", "false")));
}

// `cmake::Config` has no way to read back what it was given, so the tests
// below can only show that it takes what the library hands it.

#[test]
fn a_cmake_configuration_takes_every_definition() {
    let mut config = Config::new_with_scudo("src/libc", "src/compiler-rt");
    config.math_opts.frexp_inf_nan_exponent = Some(String::from("0"));
    let mut cmake_cfg = cmake::Config::new("src/libc");
    config.add_to_cmake(&mut cmake_cfg);
    DefinitionStore::define(&mut cmake_cfg, "CMAKE_BUILD_TYPE", "Release");
}

#[test]
fn a_cmake_configuration_is_told_its_target() {
    let config = Config::new_default("src/libc");
    let mut cmake_cfg = cmake::Config::new(&config.path);
    config.configure(&mut cmake_cfg, "x86_64-unknown-linux-gnu");
    Target::Libm.select(&mut cmake_cfg);
    Target::Crt1.select(&mut cmake_cfg);
}

#[test]
fn a_cmake_configuration_that_holds_definitions_is_configured() {
    let config = Config::new_with_scudo("/abs/src/libc", "/abs/src/compiler-rt");
    let mut cmake_cfg = cmake::Config::new(&config.path);
    cmake_cfg.define("CMAKE_BUILD_TYPE", "Release");
    config.configure(&mut cmake_cfg, "aarch64-unknown-linux-gnu");
}
