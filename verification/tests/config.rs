use llvmlibc_build::config::{
    AddToCMake, CodegenOpts, Config, ErrnoMode, MathOptimization, MathOpts, PThreadOpts,
    PrintfOpts, QSortImpl, ScanfOpts, SetjmpOpts, StringOpts, TimeOpts,
};
use llvmlibc_build::store::Definitions;

fn written<T: AddToCMake>(group: &T) -> Vec<(String, String)> {
    let mut store = Definitions::new();
    group.add_to_cmake(&mut store);
    let mut all = Vec::new();
    let mut i = 0;
    while let Some((key, value)) = store.entry(i) {
        all.push((key.to_string(), value.to_string()));
        i += 1;
    }
    assert_eq!(all.len(), store.len());
    all
}

fn pairs(expected: &[(&str, &str)]) -> Vec<(String, String)> {
    expected.iter().map(|(k, v)| (k.to_string(), v.to_string())).collect()
}

fn store_of(config: &Config) -> Definitions {
    let mut store = Definitions::new();
    config.add_to_cmake(&mut store);
    store
}

#[test]
fn new_default_is_the_preset() {
    let config = Config::new_default("src/libc");
    assert_eq!(
        config,
        Config {
            path: String::from("src/libc"),
            full_build: true,
            with_scudo: None,
            codegen_opts: CodegenOpts { strong_stack_protector: false, keep_frame_pointer: false },
            errno_mode: ErrnoMode::Default,
            null_checks: true,
            math_opts: MathOpts { frexp_inf_nan_exponent: None, optimizations: vec![] },
            printf_opts: PrintfOpts {
                disable_fixed_point: false,
                disable_float: false,
                disable_index_mode: false,
                disable_strerror: false,
                disable_write_int: false,
                float_to_str_no_specialize_ld: false,
                float_to_str_use_dyadic_float: false,
                float_to_str_use_mega_long_double_table: false,
            },
            pthread_opts: PThreadOpts {
                raw_mutex_default_spin_count: 100,
                rwlock_default_spin_count: 100,
                timeout_ensure_monotonicity: true,
            },
            qsort_impl: QSortImpl::QuickSort,
            scanf_opts: ScanfOpts { disable_float: false, disable_index_mode: false },
            setjmp_opts: SetjmpOpts { aarch64_restore_platform_register: false },
            string_opts: StringOpts {
                memset_x86_use_software_prefetch: false,
                unsafe_wide_read: false,
            },
            time_opts: TimeOpts { force_64bit: false },
        }
    );
}

#[test]
fn new_with_scudo_differs_in_one_field() {
    let with = Config::new_with_scudo("src/libc", "src/compiler-rt");
    assert_eq!(with.with_scudo, Some(String::from("src/compiler-rt")));
    let mut without = with.clone();
    without.with_scudo = None;
    assert_eq!(without, Config::new_default("src/libc"));
}

#[test]
fn defaults_of_the_groups() {
    assert_eq!(
        CodegenOpts::default(),
        CodegenOpts { strong_stack_protector: false, keep_frame_pointer: false }
    );
    assert_eq!(ErrnoMode::default(), ErrnoMode::Default);
    assert_eq!(
        MathOpts::default(),
        MathOpts { frexp_inf_nan_exponent: None, optimizations: vec![] }
    );
    assert_eq!(
        PThreadOpts::default(),
        PThreadOpts {
            raw_mutex_default_spin_count: 100,
            rwlock_default_spin_count: 100,
            timeout_ensure_monotonicity: true,
        }
    );
    assert_eq!(ScanfOpts::default(), ScanfOpts { disable_float: false, disable_index_mode: false });
    assert_eq!(SetjmpOpts::default(), SetjmpOpts { aarch64_restore_platform_register: false });
    assert_eq!(
        StringOpts::default(),
        StringOpts { memset_x86_use_software_prefetch: false, unsafe_wide_read: false }
    );
    assert_eq!(TimeOpts::default(), TimeOpts { force_64bit: false });
    assert!(!PrintfOpts::default().disable_float);
}

#[test]
fn codegen_definitions() {
    let opts = CodegenOpts { strong_stack_protector: true, keep_frame_pointer: false };
    assert_eq!(
        written(&opts),
        pairs(&[
            ("LIBC_CONF_ENABLE_STRONG_STACK_PROTECTOR", "true"),
            ("LIBC_CONF_KEEP_FRAME_POINTER", "false"),
        ])
    );
    let opts = CodegenOpts { strong_stack_protector: false, keep_frame_pointer: true };
    assert_eq!(
        written(&opts),
        pairs(&[
            ("LIBC_CONF_ENABLE_STRONG_STACK_PROTECTOR", "false"),
            ("LIBC_CONF_KEEP_FRAME_POINTER", "true"),
        ])
    );
}

#[test]
fn errno_mode_definitions() {
    let expected = [
        (ErrnoMode::Default, "LIBC_ERRNO_MODE_DEFAULT"),
        (ErrnoMode::Undefined, "LIBC_ERRNO_MODE_UNDEFINED"),
        (ErrnoMode::ThreadLocal, "LIBC_ERRNO_MODE_THREAD_LOCAL"),
        (ErrnoMode::Shared, "LIBC_ERRNO_MODE_SHARED"),
        (ErrnoMode::External, "LIBC_ERRNO_MODE_EXTERNAL"),
        (ErrnoMode::System, "LIBC_ERRNO_MODE_SYSTEM"),
    ];
    for (mode, constant) in expected.iter() {
        assert_eq!(mode.to_str(), *constant);
        assert_eq!(written(mode), pairs(&[("LIBC_CONF_ERRNO_MODE", constant)]));
    }
}

#[test]
fn errno_mode_round_trip() {
    let all = [
        ErrnoMode::Default,
        ErrnoMode::Undefined,
        ErrnoMode::ThreadLocal,
        ErrnoMode::Shared,
        ErrnoMode::External,
        ErrnoMode::System,
    ];
    for (i, mode) in all.iter().enumerate() {
        assert_eq!(ErrnoMode::from_name(mode.to_str()), Some(*mode));
        for (j, other) in all.iter().enumerate() {
            assert_eq!(mode.to_str() == other.to_str(), i == j);
        }
    }
    assert_eq!(ErrnoMode::from_name("LIBC_ERRNO_MODE_SHARED").unwrap().to_str(), "LIBC_ERRNO_MODE_SHARED");
    assert_eq!(ErrnoMode::from_name("LIBC_ERRNO_MODE"), None);
    assert_eq!(ErrnoMode::from_name("libc_errno_mode_shared"), None);
    assert_eq!(ErrnoMode::from_name(""), None);
}

#[test]
fn math_optimization_constants() {
    let expected = [
        (MathOptimization::SkipAccuratePass, "LIBC_MATH_SKIP_ACCURATE_PASS"),
        (MathOptimization::SmallTables, "LIBC_MATH_SMALL_TABLES"),
        (MathOptimization::NoErrno, "LIBC_MATH_NO_ERRNO"),
        (MathOptimization::NoExcept, "LIBC_MATH_NO_EXCEPT"),
        (MathOptimization::Fast, "LIBC_MATH_FAST"),
    ];
    for (i, (optimization, constant)) in expected.iter().enumerate() {
        assert_eq!(optimization.to_str(), *constant);
        assert_eq!(MathOptimization::from_name(constant), Some(*optimization));
        for (j, (_, other)) in expected.iter().enumerate() {
            assert_eq!(constant == other, i == j);
        }
    }
    assert_eq!(MathOptimization::from_name("LIBC_MATH_SLOW"), None);
}

#[test]
fn qsort_impl_definitions() {
    assert_eq!(QSortImpl::QuickSort.to_str(), "LIBC_QSORT_QUICK_SORT");
    assert_eq!(QSortImpl::HeapSort.to_str(), "LIBC_QSORT_HEAP_SORT");
    assert_eq!(
        written(&QSortImpl::QuickSort),
        pairs(&[("LIBC_CONF_QSORT_IMPL", "LIBC_QSORT_QUICK_SORT")])
    );
    assert_eq!(
        written(&QSortImpl::HeapSort),
        pairs(&[("LIBC_CONF_QSORT_IMPL", "LIBC_QSORT_HEAP_SORT")])
    );
    assert_eq!(QSortImpl::from_name("LIBC_QSORT_QUICK_SORT"), Some(QSortImpl::QuickSort));
    assert_eq!(QSortImpl::from_name("LIBC_QSORT_HEAP_SORT"), Some(QSortImpl::HeapSort));
    assert_eq!(QSortImpl::from_name("LIBC_QSORT_BUBBLE_SORT"), None);
}

#[test]
fn no_optimizations_join_to_the_empty_text() {
    let opts = MathOpts::default();
    assert_eq!(opts.optimizations_value(), "");
    assert_eq!(written(&opts), pairs(&[("LIBC_CONF_MATH_OPTIMIZATIONS", "")]));
}

#[test]
fn one_optimization_stands_alone() {
    let opts = MathOpts { frexp_inf_nan_exponent: None, optimizations: vec![MathOptimization::Fast] };
    assert_eq!(opts.optimizations_value(), "LIBC_MATH_FAST");
}

#[test]
fn optimizations_are_joined_in_their_order() {
    let opts = MathOpts {
        frexp_inf_nan_exponent: None,
        optimizations: vec![
            MathOptimization::SkipAccuratePass,
            MathOptimization::SmallTables,
            MathOptimization::NoErrno,
        ],
    };
    assert_eq!(
        opts.optimizations_value(),
        "LIBC_MATH_SKIP_ACCURATE_PASS;LIBC_MATH_SMALL_TABLES;LIBC_MATH_NO_ERRNO"
    );
    let reversed = MathOpts {
        frexp_inf_nan_exponent: None,
        optimizations: vec![
            MathOptimization::NoErrno,
            MathOptimization::SmallTables,
            MathOptimization::SkipAccuratePass,
        ],
    };
    assert_eq!(
        reversed.optimizations_value(),
        "LIBC_MATH_NO_ERRNO;LIBC_MATH_SMALL_TABLES;LIBC_MATH_SKIP_ACCURATE_PASS"
    );
}

#[test]
fn optimizations_that_repeat_are_all_written() {
    let opts = MathOpts {
        frexp_inf_nan_exponent: None,
        optimizations: vec![
            MathOptimization::Fast,
            MathOptimization::NoExcept,
            MathOptimization::Fast,
            MathOptimization::Fast,
        ],
    };
    assert_eq!(
        opts.optimizations_value(),
        "LIBC_MATH_FAST;LIBC_MATH_NO_EXCEPT;LIBC_MATH_FAST;LIBC_MATH_FAST"
    );
}

#[test]
fn without_an_exponent_there_is_no_definition_of_it() {
    let opts = MathOpts { frexp_inf_nan_exponent: None, optimizations: vec![MathOptimization::Fast] };
    assert_eq!(written(&opts), pairs(&[("LIBC_CONF_MATH_OPTIMIZATIONS", "LIBC_MATH_FAST")]));
    let mut config = Config::new_default("src/libc");
    config.math_opts = opts;
    let store = store_of(&config);
    assert_eq!(store.get("LIBC_CONF_FREXP_INF_NAN_EXPONENT"), None);
    assert_eq!(store.count("LIBC_CONF_FREXP_INF_NAN_EXPONENT"), 0);
}

#[test]
fn an_exponent_is_written_once_and_as_given() {
    let opts = MathOpts {
        frexp_inf_nan_exponent: Some(String::from("-1")),
        optimizations: vec![],
    };
    assert_eq!(
        written(&opts),
        pairs(&[("LIBC_CONF_FREXP_INF_NAN_EXPONENT", "-1"), ("LIBC_CONF_MATH_OPTIMIZATIONS", "")])
    );
    let mut config = Config::new_default("src/libc");
    config.math_opts = opts;
    let store = store_of(&config);
    assert_eq!(store.get("LIBC_CONF_FREXP_INF_NAN_EXPONENT"), Some("-1"));
    assert_eq!(store.count("LIBC_CONF_FREXP_INF_NAN_EXPONENT"), 1);
    assert_eq!(store.len(), 27);
}

#[test]
fn an_empty_exponent_is_still_written() {
    let opts = MathOpts { frexp_inf_nan_exponent: Some(String::new()), optimizations: vec![] };
    assert_eq!(
        written(&opts),
        pairs(&[("LIBC_CONF_FREXP_INF_NAN_EXPONENT", ""), ("LIBC_CONF_MATH_OPTIMIZATIONS", "")])
    );
}

#[test]
fn printf_definitions() {
    let opts = PrintfOpts {
        disable_fixed_point: true,
        disable_float: false,
        disable_index_mode: true,
        disable_strerror: false,
        disable_write_int: true,
        float_to_str_no_specialize_ld: false,
        float_to_str_use_dyadic_float: true,
        float_to_str_use_mega_long_double_table: false,
    };
    assert_eq!(
        written(&opts),
        pairs(&[
            ("LIBC_CONF_PRINTF_DISABLE_FIXED_POINT", "true"),
            ("LIBC_CONF_PRINTF_DISABLE_FLOAT", "false"),
            ("LIBC_CONF_PRINTF_DISABLE_INDEX_MODE", "true"),
            ("LIBC_CONF_PRINTF_DISABLE_STRERROR", "false"),
            ("LIBC_CONF_PRINTF_DISABLE_WRITE_INT", "true"),
            ("LIBC_CONF_PRINTF_FLOAT_TO_STR_NO_SPECIALIZE_LD", "false"),
            ("LIBC_CONF_PRINTF_FLOAT_TO_STR_USE_DYADIC_FLOAT", "true"),
            ("LIBC_CONF_PRINTF_FLOAT_TO_STR_USE_MEGA_LONG_DOUBLE_TABLE", "false"),
        ])
    );
}

#[test]
fn printf_definitions_with_every_switch_the_other_way() {
    let opts = PrintfOpts {
        disable_fixed_point: false,
        disable_float: true,
        disable_index_mode: false,
        disable_strerror: true,
        disable_write_int: false,
        float_to_str_no_specialize_ld: true,
        float_to_str_use_dyadic_float: false,
        float_to_str_use_mega_long_double_table: true,
    };
    assert_eq!(
        written(&opts),
        pairs(&[
            ("LIBC_CONF_PRINTF_DISABLE_FIXED_POINT", "false"),
            ("LIBC_CONF_PRINTF_DISABLE_FLOAT", "true"),
            ("LIBC_CONF_PRINTF_DISABLE_INDEX_MODE", "false"),
            ("LIBC_CONF_PRINTF_DISABLE_STRERROR", "true"),
            ("LIBC_CONF_PRINTF_DISABLE_WRITE_INT", "false"),
            ("LIBC_CONF_PRINTF_FLOAT_TO_STR_NO_SPECIALIZE_LD", "true"),
            ("LIBC_CONF_PRINTF_FLOAT_TO_STR_USE_DYADIC_FLOAT", "false"),
            ("LIBC_CONF_PRINTF_FLOAT_TO_STR_USE_MEGA_LONG_DOUBLE_TABLE", "true"),
        ])
    );
}

#[test]
fn pthread_definitions() {
    assert_eq!(
        written(&PThreadOpts::default()),
        pairs(&[
            ("LIBC_CONF_PTHREAD_RAW_MUTEX_DEFAULT_SPIN_COUNT", "100"),
            ("LIBC_CONF_PTHREAD_RWLOCK_DEFAULT_SPIN_COUNT", "100"),
            ("LIBC_CONF_PTHREAD_TIMEOUT_ENSURE_MONOTONICITY", "true"),
        ])
    );
    let opts = PThreadOpts {
        raw_mutex_default_spin_count: 0,
        rwlock_default_spin_count: 65536,
        timeout_ensure_monotonicity: false,
    };
    assert_eq!(
        written(&opts),
        pairs(&[
            ("LIBC_CONF_PTHREAD_RAW_MUTEX_DEFAULT_SPIN_COUNT", "0"),
            ("LIBC_CONF_PTHREAD_RWLOCK_DEFAULT_SPIN_COUNT", "65536"),
            ("LIBC_CONF_PTHREAD_TIMEOUT_ENSURE_MONOTONICITY", "false"),
        ])
    );
}

#[test]
fn scanf_setjmp_string_and_time_definitions() {
    assert_eq!(
        written(&ScanfOpts { disable_float: true, disable_index_mode: false }),
        pairs(&[
            ("LIBC_CONF_SCANF_DISABLE_FLOAT", "true"),
            ("LIBC_CONF_SCANF_DISABLE_INDEX_MODE", "false"),
        ])
    );
    assert_eq!(
        written(&SetjmpOpts { aarch64_restore_platform_register: true }),
        pairs(&[("LIBC_CONF_SETJMP_AARCH64_RESTORE_PLATFORM_REGISTER", "true")])
    );
    assert_eq!(
        written(&StringOpts { memset_x86_use_software_prefetch: false, unsafe_wide_read: true }),
        pairs(&[
            ("LIBC_CONF_MEMSET_X86_USE_SOFTWARE_PREFETCH", "false"),
            ("LIBC_CONF_STRING_UNSAFE_WIDE_READ", "true"),
        ])
    );
    assert_eq!(
        written(&TimeOpts { force_64bit: true }),
        pairs(&[("LIBC_CONF_TIME_64BIT", "true")])
    );
    assert_eq!(
        written(&TimeOpts { force_64bit: false }),
        pairs(&[("LIBC_CONF_TIME_64BIT", "false")])
    );
}

#[test]
fn the_default_configuration_in_full() {
    assert_eq!(
        written(&Config::new_default("src/libc")),
        pairs(&[
            ("LLVM_COMPILER_IS_GCC_COMPATIBLE", "ON"),
            ("LLVM_RUNTIMES_BUILD", "ON"),
            ("LLVM_LIBC_FULL_BUILD", "true"),
            ("LIBC_CONF_ENABLE_STRONG_STACK_PROTECTOR", "false"),
            ("LIBC_CONF_KEEP_FRAME_POINTER", "false"),
            ("LIBC_CONF_ERRNO_MODE", "LIBC_ERRNO_MODE_DEFAULT"),
            ("LIBC_CONF_NULL_CHECKS", "true"),
            ("LIBC_CONF_MATH_OPTIMIZATIONS", ""),
            ("LIBC_CONF_PRINTF_DISABLE_FIXED_POINT", "false"),
            ("LIBC_CONF_PRINTF_DISABLE_FLOAT", "false"),
            ("LIBC_CONF_PRINTF_DISABLE_INDEX_MODE", "false"),
            ("LIBC_CONF_PRINTF_DISABLE_STRERROR", "false"),
            ("LIBC_CONF_PRINTF_DISABLE_WRITE_INT", "false"),
            ("LIBC_CONF_PRINTF_FLOAT_TO_STR_NO_SPECIALIZE_LD", "false"),
            ("LIBC_CONF_PRINTF_FLOAT_TO_STR_USE_DYADIC_FLOAT", "false"),
            ("LIBC_CONF_PRINTF_FLOAT_TO_STR_USE_MEGA_LONG_DOUBLE_TABLE", "false"),
            ("LIBC_CONF_PTHREAD_RAW_MUTEX_DEFAULT_SPIN_COUNT", "100"),
            ("LIBC_CONF_PTHREAD_RWLOCK_DEFAULT_SPIN_COUNT", "100"),
            ("LIBC_CONF_PTHREAD_TIMEOUT_ENSURE_MONOTONICITY", "true"),
            ("LIBC_CONF_QSORT_IMPL", "LIBC_QSORT_QUICK_SORT"),
            ("LIBC_CONF_SCANF_DISABLE_FLOAT", "false"),
            ("LIBC_CONF_SCANF_DISABLE_INDEX_MODE", "false"),
            ("LIBC_CONF_SETJMP_AARCH64_RESTORE_PLATFORM_REGISTER", "false"),
            ("LIBC_CONF_MEMSET_X86_USE_SOFTWARE_PREFETCH", "false"),
            ("LIBC_CONF_STRING_UNSAFE_WIDE_READ", "false"),
            ("LIBC_CONF_TIME_64BIT", "false"),
        ])
    );
}

#[test]
fn the_hardening_allocator_adds_its_path_and_four_switches() {
    let without = written(&Config::new_default("src/libc"));
    let with = written(&Config::new_with_scudo("src/libc", "/abs/compiler-rt"));
    assert_eq!(without.len(), 26);
    assert_eq!(with.len(), 31);
    assert_eq!(with[..3], without[..3]);
    assert_eq!(
        with[3..8].to_vec(),
        pairs(&[
            ("LLVM_LIBC_COMPILER_RT_PATH", "/abs/compiler-rt"),
            ("COMPILER_RT_BUILD_SCUDO_STANDALONE_WITH_LLVM_LIBC", "ON"),
            ("COMPILER_RT_SCUDO_STANDALONE_BUILD_SHARED", "OFF"),
            ("LLVM_LIBC_INCLUDE_SCUDO", "ON"),
            ("COMPILER_RT_STANDALONE_BUILD", "ON"),
        ])
    );
    assert_eq!(with[8..], without[3..]);
}

#[test]
fn without_the_hardening_allocator_none_of_its_keys_is_defined() {
    let store = store_of(&Config::new_default("src/libc"));
    for key in [
        "LLVM_LIBC_COMPILER_RT_PATH",
        "COMPILER_RT_BUILD_SCUDO_STANDALONE_WITH_LLVM_LIBC",
        "COMPILER_RT_SCUDO_STANDALONE_BUILD_SHARED",
        "LLVM_LIBC_INCLUDE_SCUDO",
        "COMPILER_RT_STANDALONE_BUILD",
    ] {
        assert_eq!(store.get(key), None);
        assert_eq!(store.count(key), 0);
    }
}

#[test]
fn no_key_is_written_twice() {
    let mut config = Config::new_with_scudo("src/libc", "src/compiler-rt");
    config.math_opts.frexp_inf_nan_exponent = Some(String::from("0"));
    let all = written(&config);
    assert_eq!(all.len(), 32);
    let store = store_of(&config);
    for (i, (key, value)) in all.iter().enumerate() {
        assert_eq!(store.count(key), 1, "{}", key);
        assert_eq!(store.get(key), Some(value.as_str()));
        for (other, _) in all[..i].iter() {
            assert_ne!(key, other);
        }
    }
}

#[test]
fn every_switch_reads_back_as_true_or_false() {
    let mut config = Config::new_default("src/libc");
    config.full_build = false;
    config.null_checks = false;
    config.codegen_opts.keep_frame_pointer = true;
    config.printf_opts.disable_float = true;
    config.pthread_opts.timeout_ensure_monotonicity = false;
    config.scanf_opts.disable_index_mode = true;
    config.setjmp_opts.aarch64_restore_platform_register = true;
    config.string_opts.unsafe_wide_read = true;
    config.time_opts.force_64bit = true;
    let store = store_of(&config);
    let expected = [
        ("LLVM_LIBC_FULL_BUILD", false),
        ("LIBC_CONF_NULL_CHECKS", false),
        ("LIBC_CONF_ENABLE_STRONG_STACK_PROTECTOR", false),
        ("LIBC_CONF_KEEP_FRAME_POINTER", true),
        ("LIBC_CONF_PRINTF_DISABLE_FIXED_POINT", false),
        ("LIBC_CONF_PRINTF_DISABLE_FLOAT", true),
        ("LIBC_CONF_PRINTF_DISABLE_INDEX_MODE", false),
        ("LIBC_CONF_PRINTF_DISABLE_STRERROR", false),
        ("LIBC_CONF_PRINTF_DISABLE_WRITE_INT", false),
        ("LIBC_CONF_PRINTF_FLOAT_TO_STR_NO_SPECIALIZE_LD", false),
        ("LIBC_CONF_PRINTF_FLOAT_TO_STR_USE_DYADIC_FLOAT", false),
        ("LIBC_CONF_PRINTF_FLOAT_TO_STR_USE_MEGA_LONG_DOUBLE_TABLE", false),
        ("LIBC_CONF_PTHREAD_TIMEOUT_ENSURE_MONOTONICITY", false),
        ("LIBC_CONF_SCANF_DISABLE_FLOAT", false),
        ("LIBC_CONF_SCANF_DISABLE_INDEX_MODE", true),
        ("LIBC_CONF_SETJMP_AARCH64_RESTORE_PLATFORM_REGISTER", true),
        ("LIBC_CONF_MEMSET_X86_USE_SOFTWARE_PREFETCH", false),
        ("LIBC_CONF_STRING_UNSAFE_WIDE_READ", true),
        ("LIBC_CONF_TIME_64BIT", true),
    ];
    for (key, value) in expected.iter() {
        assert_eq!(store.get(key), Some(if *value { "true" } else { "false" }), "{}", key);
    }
}

#[test]
fn choices_and_counts_read_back() {
    let mut config = Config::new_default("src/libc");
    config.errno_mode = ErrnoMode::ThreadLocal;
    config.qsort_impl = QSortImpl::HeapSort;
    config.pthread_opts.raw_mutex_default_spin_count = 7;
    config.pthread_opts.rwlock_default_spin_count = 12345;
    let store = store_of(&config);
    assert_eq!(store.get("LIBC_CONF_ERRNO_MODE"), Some("LIBC_ERRNO_MODE_THREAD_LOCAL"));
    assert_eq!(
        ErrnoMode::from_name(store.get("LIBC_CONF_ERRNO_MODE").unwrap()),
        Some(ErrnoMode::ThreadLocal)
    );
    assert_eq!(store.get("LIBC_CONF_QSORT_IMPL"), Some("LIBC_QSORT_HEAP_SORT"));
    assert_eq!(store.get("LIBC_CONF_PTHREAD_RAW_MUTEX_DEFAULT_SPIN_COUNT"), Some("7"));
    assert_eq!(store.get("LIBC_CONF_PTHREAD_RWLOCK_DEFAULT_SPIN_COUNT"), Some("12345"));
    assert_eq!(store.get("LLVM_COMPILER_IS_GCC_COMPATIBLE"), Some("ON"));
    assert_eq!(store.get("LLVM_RUNTIMES_BUILD"), Some("ON"));
}

#[test]
fn a_change_of_any_option_shows_in_the_definitions() {
    let base = Config::new_with_scudo("src/libc", "src/compiler-rt");
    let mut changed = Vec::new();
    let mut c = base.clone();
    c.full_build = false;
    changed.push(c);
    let mut c = base.clone();
    c.with_scudo = Some(String::from("elsewhere"));
    changed.push(c);
    let mut c = base.clone();
    c.with_scudo = None;
    changed.push(c);
    let mut c = base.clone();
    c.codegen_opts.strong_stack_protector = true;
    changed.push(c);
    let mut c = base.clone();
    c.errno_mode = ErrnoMode::System;
    changed.push(c);
    let mut c = base.clone();
    c.null_checks = false;
    changed.push(c);
    let mut c = base.clone();
    c.math_opts.frexp_inf_nan_exponent = Some(String::new());
    changed.push(c);
    let mut c = base.clone();
    c.math_opts.optimizations = vec![MathOptimization::Fast];
    changed.push(c);
    let mut c = base.clone();
    c.math_opts.optimizations = vec![MathOptimization::Fast, MathOptimization::Fast];
    changed.push(c);
    let mut c = base.clone();
    c.printf_opts.float_to_str_use_mega_long_double_table = true;
    changed.push(c);
    let mut c = base.clone();
    c.pthread_opts.rwlock_default_spin_count = 1000;
    changed.push(c);
    let mut c = base.clone();
    c.qsort_impl = QSortImpl::HeapSort;
    changed.push(c);
    let mut c = base.clone();
    c.scanf_opts.disable_float = true;
    changed.push(c);
    let mut c = base.clone();
    c.setjmp_opts.aarch64_restore_platform_register = true;
    changed.push(c);
    let mut c = base.clone();
    c.string_opts.memset_x86_use_software_prefetch = true;
    changed.push(c);
    let mut c = base.clone();
    c.time_opts.force_64bit = true;
    changed.push(c);

    let of_base = written(&base);
    for (i, config) in changed.iter().enumerate() {
        let of_config = written(config);
        assert_ne!(of_config, of_base, "{}", i);
        for other in changed[..i].iter() {
            assert_ne!(of_config, written(other));
        }
    }
}

#[test]
fn the_path_of_the_sources_is_not_among_the_definitions() {
    assert_eq!(written(&Config::new_default("a")), written(&Config::new_default("b")));
}
