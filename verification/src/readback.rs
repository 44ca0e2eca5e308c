//! What the definitions of a configuration say about it: no key is written
//! twice, so every option can be read back from the store under its key.

use vstd::prelude::*;
use crate::config::{
    lemma_errno_mode_round_trip, lemma_optimizations_read_back, lemma_qsort_impl_round_trip,
    AddToCMake, Config,
};
use crate::store::{keys_distinct, lemma_lookup_absent, lemma_lookup_distinct, lookup, occurrences};
use crate::text::{bool_text, decimal_text, lemma_bool_text, lemma_decimal_round_trip};

verus! {

/// The place of a key in the order in which a configuration writes its keys,
/// told from the key's length and its last character but one. A text that is
/// no key of a configuration may share a place with one.
spec fn key_order(key: Seq<char>) -> int {
    let n = key.len();
    let c = key[n - 2];
    if n == 31 {
        0
    } else if n == 19 {
        1
    } else if n == 20 && c == 'L' {
        2
    } else if n == 26 {
        3
    } else if n == 49 {
        4
    } else if n == 41 {
        5
    } else if n == 23 {
        6
    } else if n == 28 && c == 'L' {
        7
    } else if n == 39 {
        8
    } else if n == 28 && c == 'E' {
        9
    } else if n == 20 && c == 'D' {
        10
    } else if n == 21 {
        11
    } else if n == 32 {
        12
    } else if n == 28 && c == 'N' {
        13
    } else if n == 36 {
        14
    } else if n == 30 {
        15
    } else if n == 35 {
        16
    } else if n == 33 && c == 'O' {
        17
    } else if n == 34 && c == 'N' {
        18
    } else if n == 46 && c == 'L' {
        19
    } else if n == 46 && c == 'A' {
        20
    } else if n == 56 {
        21
    } else if n == 46 && c == 'N' {
        22
    } else if n == 43 {
        23
    } else if n == 45 {
        24
    } else if n == 20 && c == 'P' {
        25
    } else if n == 29 {
        26
    } else if n == 34 && c == 'D' {
        27
    } else if n == 50 {
        28
    } else if n == 42 {
        29
    } else if n == 33 && c == 'A' {
        30
    } else if n == 20 && c == 'I' {
        31
    } else {
        32
    }
}

proof fn lemma_key_orders()
    ensures
        key_order("LLVM_COMPILER_IS_GCC_COMPATIBLE"@) == 0,
        key_order("LLVM_RUNTIMES_BUILD"@) == 1,
        key_order("LLVM_LIBC_FULL_BUILD"@) == 2,
        key_order("LLVM_LIBC_COMPILER_RT_PATH"@) == 3,
        key_order("COMPILER_RT_BUILD_SCUDO_STANDALONE_WITH_LLVM_LIBC"@) == 4,
        key_order("COMPILER_RT_SCUDO_STANDALONE_BUILD_SHARED"@) == 5,
        key_order("LLVM_LIBC_INCLUDE_SCUDO"@) == 6,
        key_order("COMPILER_RT_STANDALONE_BUILD"@) == 7,
        key_order("LIBC_CONF_ENABLE_STRONG_STACK_PROTECTOR"@) == 8,
        key_order("LIBC_CONF_KEEP_FRAME_POINTER"@) == 9,
        key_order("LIBC_CONF_ERRNO_MODE"@) == 10,
        key_order("LIBC_CONF_NULL_CHECKS"@) == 11,
        key_order("LIBC_CONF_FREXP_INF_NAN_EXPONENT"@) == 12,
        key_order("LIBC_CONF_MATH_OPTIMIZATIONS"@) == 13,
        key_order("LIBC_CONF_PRINTF_DISABLE_FIXED_POINT"@) == 14,
        key_order("LIBC_CONF_PRINTF_DISABLE_FLOAT"@) == 15,
        key_order("LIBC_CONF_PRINTF_DISABLE_INDEX_MODE"@) == 16,
        key_order("LIBC_CONF_PRINTF_DISABLE_STRERROR"@) == 17,
        key_order("LIBC_CONF_PRINTF_DISABLE_WRITE_INT"@) == 18,
        key_order("LIBC_CONF_PRINTF_FLOAT_TO_STR_NO_SPECIALIZE_LD"@) == 19,
        key_order("LIBC_CONF_PRINTF_FLOAT_TO_STR_USE_DYADIC_FLOAT"@) == 20,
        key_order("LIBC_CONF_PRINTF_FLOAT_TO_STR_USE_MEGA_LONG_DOUBLE_TABLE"@) == 21,
        key_order("LIBC_CONF_PTHREAD_RAW_MUTEX_DEFAULT_SPIN_COUNT"@) == 22,
        key_order("LIBC_CONF_PTHREAD_RWLOCK_DEFAULT_SPIN_COUNT"@) == 23,
        key_order("LIBC_CONF_PTHREAD_TIMEOUT_ENSURE_MONOTONICITY"@) == 24,
        key_order("LIBC_CONF_QSORT_IMPL"@) == 25,
        key_order("LIBC_CONF_SCANF_DISABLE_FLOAT"@) == 26,
        key_order("LIBC_CONF_SCANF_DISABLE_INDEX_MODE"@) == 27,
        key_order("LIBC_CONF_SETJMP_AARCH64_RESTORE_PLATFORM_REGISTER"@) == 28,
        key_order("LIBC_CONF_MEMSET_X86_USE_SOFTWARE_PREFETCH"@) == 29,
        key_order("LIBC_CONF_STRING_UNSAFE_WIDE_READ"@) == 30,
        key_order("LIBC_CONF_TIME_64BIT"@) == 31,
{
    reveal_strlit("LLVM_COMPILER_IS_GCC_COMPATIBLE");
    reveal_strlit("LLVM_RUNTIMES_BUILD");
    reveal_strlit("LLVM_LIBC_FULL_BUILD");
    reveal_strlit("LLVM_LIBC_COMPILER_RT_PATH");
    reveal_strlit("COMPILER_RT_BUILD_SCUDO_STANDALONE_WITH_LLVM_LIBC");
    reveal_strlit("COMPILER_RT_SCUDO_STANDALONE_BUILD_SHARED");
    reveal_strlit("LLVM_LIBC_INCLUDE_SCUDO");
    reveal_strlit("COMPILER_RT_STANDALONE_BUILD");
    reveal_strlit("LIBC_CONF_ENABLE_STRONG_STACK_PROTECTOR");
    reveal_strlit("LIBC_CONF_KEEP_FRAME_POINTER");
    reveal_strlit("LIBC_CONF_ERRNO_MODE");
    reveal_strlit("LIBC_CONF_NULL_CHECKS");
    reveal_strlit("LIBC_CONF_FREXP_INF_NAN_EXPONENT");
    reveal_strlit("LIBC_CONF_MATH_OPTIMIZATIONS");
    reveal_strlit("LIBC_CONF_PRINTF_DISABLE_FIXED_POINT");
    reveal_strlit("LIBC_CONF_PRINTF_DISABLE_FLOAT");
    reveal_strlit("LIBC_CONF_PRINTF_DISABLE_INDEX_MODE");
    reveal_strlit("LIBC_CONF_PRINTF_DISABLE_STRERROR");
    reveal_strlit("LIBC_CONF_PRINTF_DISABLE_WRITE_INT");
    reveal_strlit("LIBC_CONF_PRINTF_FLOAT_TO_STR_NO_SPECIALIZE_LD");
    reveal_strlit("LIBC_CONF_PRINTF_FLOAT_TO_STR_USE_DYADIC_FLOAT");
    reveal_strlit("LIBC_CONF_PRINTF_FLOAT_TO_STR_USE_MEGA_LONG_DOUBLE_TABLE");
    reveal_strlit("LIBC_CONF_PTHREAD_RAW_MUTEX_DEFAULT_SPIN_COUNT");
    reveal_strlit("LIBC_CONF_PTHREAD_RWLOCK_DEFAULT_SPIN_COUNT");
    reveal_strlit("LIBC_CONF_PTHREAD_TIMEOUT_ENSURE_MONOTONICITY");
    reveal_strlit("LIBC_CONF_QSORT_IMPL");
    reveal_strlit("LIBC_CONF_SCANF_DISABLE_FLOAT");
    reveal_strlit("LIBC_CONF_SCANF_DISABLE_INDEX_MODE");
    reveal_strlit("LIBC_CONF_SETJMP_AARCH64_RESTORE_PLATFORM_REGISTER");
    reveal_strlit("LIBC_CONF_MEMSET_X86_USE_SOFTWARE_PREFETCH");
    reveal_strlit("LIBC_CONF_STRING_UNSAFE_WIDE_READ");
    reveal_strlit("LIBC_CONF_TIME_64BIT");
}

/// Whether the keys of a list stand in rising order, all within `low..high`.
spec fn rising(definitions: Seq<(Seq<char>, Seq<char>)>, low: int, high: int) -> bool {
    &&& forall|i: int|
        0 <= i < definitions.len() ==> low <= key_order(#[trigger] definitions[i].0) < high
    &&& forall|i: int, j: int|
        0 <= i < j < definitions.len() ==> key_order(#[trigger] definitions[i].0) < key_order(
            #[trigger] definitions[j].0,
        )
}

proof fn lemma_rising_concat(
    first: Seq<(Seq<char>, Seq<char>)>,
    second: Seq<(Seq<char>, Seq<char>)>,
    low: int,
    middle: int,
    high: int,
)
    requires
        low <= middle <= high,
        rising(first, low, middle),
        rising(second, middle, high),
    ensures
        rising(first + second, low, high),
        forall|d: (Seq<char>, Seq<char>)|
            #[trigger] (first + second).contains(d) <==> first.contains(d) || second.contains(d),
{
    let both = first + second;
    assert forall|i: int| 0 <= i < both.len() implies low <= key_order(#[trigger] both[i].0)
        < high by {
        if i < first.len() {
            assert(both[i] == first[i]);
        } else {
            assert(both[i] == second[i - first.len()]);
        }
    }
    assert forall|i: int, j: int| 0 <= i < j < both.len() implies key_order(
        #[trigger] both[i].0,
    ) < key_order(#[trigger] both[j].0) by {
        if i < first.len() {
            assert(both[i] == first[i]);
        } else {
            assert(both[i] == second[i - first.len()]);
        }
        if j < first.len() {
            assert(both[j] == first[j]);
        } else {
            assert(both[j] == second[j - first.len()]);
        }
    }
    assert forall|d: (Seq<char>, Seq<char>)| #[trigger] both.contains(d) <==> first.contains(d)
        || second.contains(d) by {
        if both.contains(d) {
            let i = choose|i: int| 0 <= i < both.len() && both[i] == d;
            if i < first.len() {
                assert(first[i] == d);
            } else {
                assert(second[i - first.len()] == d);
            }
        }
        if first.contains(d) {
            let i = choose|i: int| 0 <= i < first.len() && first[i] == d;
            assert(both[i] == d);
        }
        if second.contains(d) {
            let i = choose|i: int| 0 <= i < second.len() && second[i] == d;
            assert(both[first.len() + i] == d);
        }
    }
}

/// The parts of a configuration's definitions, each with the range of places
/// that its keys have.
proof fn lemma_parts_rising(config: Config)
    ensures
        rising(config.root_definitions(), 0, 3),
        rising(config.scudo_definitions(), 3, 8),
        rising(config.codegen_opts.definitions(), 8, 10),
        rising(config.errno_mode.definitions(), 10, 11),
        rising(config.null_checks_definitions(), 11, 12),
        rising(config.math_opts.definitions(), 12, 14),
        rising(config.printf_opts.definitions(), 14, 22),
        rising(config.pthread_opts.definitions(), 22, 25),
        rising(config.qsort_impl.definitions(), 25, 26),
        rising(config.scanf_opts.definitions(), 26, 28),
        rising(config.setjmp_opts.definitions(), 28, 29),
        rising(config.string_opts.definitions(), 29, 31),
        rising(config.time_opts.definitions(), 31, 32),
{
    lemma_key_orders();
}

/// Whether one of the parts of a configuration's definitions holds `d`.
spec fn in_a_part(config: Config, d: (Seq<char>, Seq<char>)) -> bool {
    ||| config.root_definitions().contains(d)
    ||| config.scudo_definitions().contains(d)
    ||| config.codegen_opts.definitions().contains(d)
    ||| config.errno_mode.definitions().contains(d)
    ||| config.null_checks_definitions().contains(d)
    ||| config.math_opts.definitions().contains(d)
    ||| config.printf_opts.definitions().contains(d)
    ||| config.pthread_opts.definitions().contains(d)
    ||| config.qsort_impl.definitions().contains(d)
    ||| config.scanf_opts.definitions().contains(d)
    ||| config.setjmp_opts.definitions().contains(d)
    ||| config.string_opts.definitions().contains(d)
    ||| config.time_opts.definitions().contains(d)
}

proof fn lemma_whole_rising(config: Config)
    ensures
        rising(config.definitions(), 0, 32),
        forall|d: (Seq<char>, Seq<char>)| #[trigger]
            config.definitions().contains(d) <==> in_a_part(config, d),
{
    lemma_parts_rising(config);
    let upto_scudo = config.root_definitions() + config.scudo_definitions();
    lemma_rising_concat(config.root_definitions(), config.scudo_definitions(), 0, 3, 8);
    let upto_codegen = upto_scudo + config.codegen_opts.definitions();
    lemma_rising_concat(upto_scudo, config.codegen_opts.definitions(), 0, 8, 10);
    let upto_errno = upto_codegen + config.errno_mode.definitions();
    lemma_rising_concat(upto_codegen, config.errno_mode.definitions(), 0, 10, 11);
    let upto_null_checks = upto_errno + config.null_checks_definitions();
    lemma_rising_concat(upto_errno, config.null_checks_definitions(), 0, 11, 12);
    let upto_math = upto_null_checks + config.math_opts.definitions();
    lemma_rising_concat(upto_null_checks, config.math_opts.definitions(), 0, 12, 14);
    let upto_printf = upto_math + config.printf_opts.definitions();
    lemma_rising_concat(upto_math, config.printf_opts.definitions(), 0, 14, 22);
    let upto_pthread = upto_printf + config.pthread_opts.definitions();
    lemma_rising_concat(upto_printf, config.pthread_opts.definitions(), 0, 22, 25);
    let upto_qsort = upto_pthread + config.qsort_impl.definitions();
    lemma_rising_concat(upto_pthread, config.qsort_impl.definitions(), 0, 25, 26);
    let upto_scanf = upto_qsort + config.scanf_opts.definitions();
    lemma_rising_concat(upto_qsort, config.scanf_opts.definitions(), 0, 26, 28);
    let upto_setjmp = upto_scanf + config.setjmp_opts.definitions();
    lemma_rising_concat(upto_scanf, config.setjmp_opts.definitions(), 0, 28, 29);
    let upto_string = upto_setjmp + config.string_opts.definitions();
    lemma_rising_concat(upto_setjmp, config.string_opts.definitions(), 0, 29, 31);
    lemma_rising_concat(upto_string, config.time_opts.definitions(), 0, 31, 32);
}

/// A configuration writes no key twice.
pub proof fn lemma_keys_distinct(config: Config)
    ensures
        keys_distinct(config.definitions()),
{
    lemma_whole_rising(config);
}

/// A key and a value that one part of a configuration defines are what the
/// whole configuration says of that key, and it says so once.
proof fn lemma_defined(config: Config, key: Seq<char>, value: Seq<char>)
    requires
        in_a_part(config, (key, value)),
    ensures
        lookup(config.definitions(), key) == Some(value),
        occurrences(config.definitions(), key) == 1,
{
    lemma_whole_rising(config);
    lemma_lookup_distinct(config.definitions(), key, value);
}

/// A key whose place none of the written keys has is not defined at all.
proof fn lemma_undefined(config: Config, key: Seq<char>)
    requires
        forall|d: (Seq<char>, Seq<char>)|
            in_a_part(config, d) ==> key_order(d.0) != key_order(key),
    ensures
        lookup(config.definitions(), key) is None,
        occurrences(config.definitions(), key) == 0,
{
    lemma_whole_rising(config);
    let definitions = config.definitions();
    assert forall|i: int| 0 <= i < definitions.len() implies definitions[i].0 != key by {
        assert(definitions.contains(definitions[i]));
    }
    lemma_lookup_absent(definitions, key);
}

/// Every option that is always written can be read back: what the
/// definitions of a configuration say of its key is the text of the option's
/// value. Switches read `true` or `false`, choices read their constant,
/// counts read in decimal, and the two capabilities of the platform read
/// `ON` whatever the configuration.
pub proof fn lemma_options_read_back(config: Config)
    ensures
        lookup(config.definitions(), "LLVM_COMPILER_IS_GCC_COMPATIBLE"@) == Some("ON"@),
        lookup(config.definitions(), "LLVM_RUNTIMES_BUILD"@) == Some("ON"@),
        lookup(config.definitions(), "LLVM_LIBC_FULL_BUILD"@) == Some(bool_text(config.full_build)),
        lookup(config.definitions(), "LIBC_CONF_ENABLE_STRONG_STACK_PROTECTOR"@) == Some(bool_text(config.codegen_opts.strong_stack_protector)),
        lookup(config.definitions(), "LIBC_CONF_KEEP_FRAME_POINTER"@) == Some(bool_text(config.codegen_opts.keep_frame_pointer)),
        lookup(config.definitions(), "LIBC_CONF_ERRNO_MODE"@) == Some(config.errno_mode.text()),
        lookup(config.definitions(), "LIBC_CONF_NULL_CHECKS"@) == Some(bool_text(config.null_checks)),
        lookup(config.definitions(), "LIBC_CONF_PRINTF_DISABLE_FIXED_POINT"@) == Some(bool_text(config.printf_opts.disable_fixed_point)),
        lookup(config.definitions(), "LIBC_CONF_PRINTF_DISABLE_FLOAT"@) == Some(bool_text(config.printf_opts.disable_float)),
        lookup(config.definitions(), "LIBC_CONF_PRINTF_DISABLE_INDEX_MODE"@) == Some(bool_text(config.printf_opts.disable_index_mode)),
        lookup(config.definitions(), "LIBC_CONF_PRINTF_DISABLE_STRERROR"@) == Some(bool_text(config.printf_opts.disable_strerror)),
        lookup(config.definitions(), "LIBC_CONF_PRINTF_DISABLE_WRITE_INT"@) == Some(bool_text(config.printf_opts.disable_write_int)),
        lookup(config.definitions(), "LIBC_CONF_PRINTF_FLOAT_TO_STR_NO_SPECIALIZE_LD"@) == Some(bool_text(config.printf_opts.float_to_str_no_specialize_ld)),
        lookup(config.definitions(), "LIBC_CONF_PRINTF_FLOAT_TO_STR_USE_DYADIC_FLOAT"@) == Some(bool_text(config.printf_opts.float_to_str_use_dyadic_float)),
        lookup(config.definitions(), "LIBC_CONF_PRINTF_FLOAT_TO_STR_USE_MEGA_LONG_DOUBLE_TABLE"@) == Some(bool_text(config.printf_opts.float_to_str_use_mega_long_double_table)),
        lookup(config.definitions(), "LIBC_CONF_PTHREAD_RAW_MUTEX_DEFAULT_SPIN_COUNT"@) == Some(decimal_text(config.pthread_opts.raw_mutex_default_spin_count as nat)),
        lookup(config.definitions(), "LIBC_CONF_PTHREAD_RWLOCK_DEFAULT_SPIN_COUNT"@) == Some(decimal_text(config.pthread_opts.rwlock_default_spin_count as nat)),
        lookup(config.definitions(), "LIBC_CONF_PTHREAD_TIMEOUT_ENSURE_MONOTONICITY"@) == Some(bool_text(config.pthread_opts.timeout_ensure_monotonicity)),
        lookup(config.definitions(), "LIBC_CONF_QSORT_IMPL"@) == Some(config.qsort_impl.text()),
        lookup(config.definitions(), "LIBC_CONF_SCANF_DISABLE_FLOAT"@) == Some(bool_text(config.scanf_opts.disable_float)),
        lookup(config.definitions(), "LIBC_CONF_SCANF_DISABLE_INDEX_MODE"@) == Some(bool_text(config.scanf_opts.disable_index_mode)),
        lookup(config.definitions(), "LIBC_CONF_SETJMP_AARCH64_RESTORE_PLATFORM_REGISTER"@) == Some(bool_text(config.setjmp_opts.aarch64_restore_platform_register)),
        lookup(config.definitions(), "LIBC_CONF_MEMSET_X86_USE_SOFTWARE_PREFETCH"@) == Some(bool_text(config.string_opts.memset_x86_use_software_prefetch)),
        lookup(config.definitions(), "LIBC_CONF_STRING_UNSAFE_WIDE_READ"@) == Some(bool_text(config.string_opts.unsafe_wide_read)),
        lookup(config.definitions(), "LIBC_CONF_TIME_64BIT"@) == Some(bool_text(config.time_opts.force_64bit)),
{
    assert(config.root_definitions()[0] == ("LLVM_COMPILER_IS_GCC_COMPATIBLE"@, "ON"@));
    lemma_defined(config, "LLVM_COMPILER_IS_GCC_COMPATIBLE"@, "ON"@);
    assert(config.root_definitions()[1] == ("LLVM_RUNTIMES_BUILD"@, "ON"@));
    lemma_defined(config, "LLVM_RUNTIMES_BUILD"@, "ON"@);
    assert(config.root_definitions()[2] == ("LLVM_LIBC_FULL_BUILD"@, bool_text(config.full_build)));
    lemma_defined(config, "LLVM_LIBC_FULL_BUILD"@, bool_text(config.full_build));
    assert(config.codegen_opts.definitions()[0] == ("LIBC_CONF_ENABLE_STRONG_STACK_PROTECTOR"@, bool_text(config.codegen_opts.strong_stack_protector)));
    lemma_defined(config, "LIBC_CONF_ENABLE_STRONG_STACK_PROTECTOR"@, bool_text(config.codegen_opts.strong_stack_protector));
    assert(config.codegen_opts.definitions()[1] == ("LIBC_CONF_KEEP_FRAME_POINTER"@, bool_text(config.codegen_opts.keep_frame_pointer)));
    lemma_defined(config, "LIBC_CONF_KEEP_FRAME_POINTER"@, bool_text(config.codegen_opts.keep_frame_pointer));
    assert(config.errno_mode.definitions()[0] == ("LIBC_CONF_ERRNO_MODE"@, config.errno_mode.text()));
    lemma_defined(config, "LIBC_CONF_ERRNO_MODE"@, config.errno_mode.text());
    assert(config.null_checks_definitions()[0] == ("LIBC_CONF_NULL_CHECKS"@, bool_text(config.null_checks)));
    lemma_defined(config, "LIBC_CONF_NULL_CHECKS"@, bool_text(config.null_checks));
    assert(config.printf_opts.definitions()[0] == ("LIBC_CONF_PRINTF_DISABLE_FIXED_POINT"@, bool_text(config.printf_opts.disable_fixed_point)));
    lemma_defined(config, "LIBC_CONF_PRINTF_DISABLE_FIXED_POINT"@, bool_text(config.printf_opts.disable_fixed_point));
    assert(config.printf_opts.definitions()[1] == ("LIBC_CONF_PRINTF_DISABLE_FLOAT"@, bool_text(config.printf_opts.disable_float)));
    lemma_defined(config, "LIBC_CONF_PRINTF_DISABLE_FLOAT"@, bool_text(config.printf_opts.disable_float));
    assert(config.printf_opts.definitions()[2] == ("LIBC_CONF_PRINTF_DISABLE_INDEX_MODE"@, bool_text(config.printf_opts.disable_index_mode)));
    lemma_defined(config, "LIBC_CONF_PRINTF_DISABLE_INDEX_MODE"@, bool_text(config.printf_opts.disable_index_mode));
    assert(config.printf_opts.definitions()[3] == ("LIBC_CONF_PRINTF_DISABLE_STRERROR"@, bool_text(config.printf_opts.disable_strerror)));
    lemma_defined(config, "LIBC_CONF_PRINTF_DISABLE_STRERROR"@, bool_text(config.printf_opts.disable_strerror));
    assert(config.printf_opts.definitions()[4] == ("LIBC_CONF_PRINTF_DISABLE_WRITE_INT"@, bool_text(config.printf_opts.disable_write_int)));
    lemma_defined(config, "LIBC_CONF_PRINTF_DISABLE_WRITE_INT"@, bool_text(config.printf_opts.disable_write_int));
    assert(config.printf_opts.definitions()[5] == ("LIBC_CONF_PRINTF_FLOAT_TO_STR_NO_SPECIALIZE_LD"@, bool_text(config.printf_opts.float_to_str_no_specialize_ld)));
    lemma_defined(config, "LIBC_CONF_PRINTF_FLOAT_TO_STR_NO_SPECIALIZE_LD"@, bool_text(config.printf_opts.float_to_str_no_specialize_ld));
    assert(config.printf_opts.definitions()[6] == ("LIBC_CONF_PRINTF_FLOAT_TO_STR_USE_DYADIC_FLOAT"@, bool_text(config.printf_opts.float_to_str_use_dyadic_float)));
    lemma_defined(config, "LIBC_CONF_PRINTF_FLOAT_TO_STR_USE_DYADIC_FLOAT"@, bool_text(config.printf_opts.float_to_str_use_dyadic_float));
    assert(config.printf_opts.definitions()[7] == ("LIBC_CONF_PRINTF_FLOAT_TO_STR_USE_MEGA_LONG_DOUBLE_TABLE"@, bool_text(config.printf_opts.float_to_str_use_mega_long_double_table)));
    lemma_defined(config, "LIBC_CONF_PRINTF_FLOAT_TO_STR_USE_MEGA_LONG_DOUBLE_TABLE"@, bool_text(config.printf_opts.float_to_str_use_mega_long_double_table));
    assert(config.pthread_opts.definitions()[0] == ("LIBC_CONF_PTHREAD_RAW_MUTEX_DEFAULT_SPIN_COUNT"@, decimal_text(config.pthread_opts.raw_mutex_default_spin_count as nat)));
    lemma_defined(config, "LIBC_CONF_PTHREAD_RAW_MUTEX_DEFAULT_SPIN_COUNT"@, decimal_text(config.pthread_opts.raw_mutex_default_spin_count as nat));
    assert(config.pthread_opts.definitions()[1] == ("LIBC_CONF_PTHREAD_RWLOCK_DEFAULT_SPIN_COUNT"@, decimal_text(config.pthread_opts.rwlock_default_spin_count as nat)));
    lemma_defined(config, "LIBC_CONF_PTHREAD_RWLOCK_DEFAULT_SPIN_COUNT"@, decimal_text(config.pthread_opts.rwlock_default_spin_count as nat));
    assert(config.pthread_opts.definitions()[2] == ("LIBC_CONF_PTHREAD_TIMEOUT_ENSURE_MONOTONICITY"@, bool_text(config.pthread_opts.timeout_ensure_monotonicity)));
    lemma_defined(config, "LIBC_CONF_PTHREAD_TIMEOUT_ENSURE_MONOTONICITY"@, bool_text(config.pthread_opts.timeout_ensure_monotonicity));
    assert(config.qsort_impl.definitions()[0] == ("LIBC_CONF_QSORT_IMPL"@, config.qsort_impl.text()));
    lemma_defined(config, "LIBC_CONF_QSORT_IMPL"@, config.qsort_impl.text());
    assert(config.scanf_opts.definitions()[0] == ("LIBC_CONF_SCANF_DISABLE_FLOAT"@, bool_text(config.scanf_opts.disable_float)));
    lemma_defined(config, "LIBC_CONF_SCANF_DISABLE_FLOAT"@, bool_text(config.scanf_opts.disable_float));
    assert(config.scanf_opts.definitions()[1] == ("LIBC_CONF_SCANF_DISABLE_INDEX_MODE"@, bool_text(config.scanf_opts.disable_index_mode)));
    lemma_defined(config, "LIBC_CONF_SCANF_DISABLE_INDEX_MODE"@, bool_text(config.scanf_opts.disable_index_mode));
    assert(config.setjmp_opts.definitions()[0] == ("LIBC_CONF_SETJMP_AARCH64_RESTORE_PLATFORM_REGISTER"@, bool_text(config.setjmp_opts.aarch64_restore_platform_register)));
    lemma_defined(config, "LIBC_CONF_SETJMP_AARCH64_RESTORE_PLATFORM_REGISTER"@, bool_text(config.setjmp_opts.aarch64_restore_platform_register));
    assert(config.string_opts.definitions()[0] == ("LIBC_CONF_MEMSET_X86_USE_SOFTWARE_PREFETCH"@, bool_text(config.string_opts.memset_x86_use_software_prefetch)));
    lemma_defined(config, "LIBC_CONF_MEMSET_X86_USE_SOFTWARE_PREFETCH"@, bool_text(config.string_opts.memset_x86_use_software_prefetch));
    assert(config.string_opts.definitions()[1] == ("LIBC_CONF_STRING_UNSAFE_WIDE_READ"@, bool_text(config.string_opts.unsafe_wide_read)));
    lemma_defined(config, "LIBC_CONF_STRING_UNSAFE_WIDE_READ"@, bool_text(config.string_opts.unsafe_wide_read));
    assert(config.time_opts.definitions()[0] == ("LIBC_CONF_TIME_64BIT"@, bool_text(config.time_opts.force_64bit)));
    lemma_defined(config, "LIBC_CONF_TIME_64BIT"@, bool_text(config.time_opts.force_64bit));
}

/// The list of math optimizations is always written, as one value. The
/// exponent override is written once, with the text that was given, where it
/// is set, and not at all where it is not: no empty value stands in for it.
pub proof fn lemma_math_read_back(config: Config)
    ensures
        lookup(config.definitions(), "LIBC_CONF_MATH_OPTIMIZATIONS"@) == Some(
            config.math_opts.optimizations_text(),
        ),
        match config.math_opts.frexp_inf_nan_exponent {
            Some(exponent) => {
                &&& lookup(config.definitions(), "LIBC_CONF_FREXP_INF_NAN_EXPONENT"@) == Some(
                    exponent@,
                )
                &&& occurrences(config.definitions(), "LIBC_CONF_FREXP_INF_NAN_EXPONENT"@) == 1
            },
            None => {
                &&& lookup(config.definitions(), "LIBC_CONF_FREXP_INF_NAN_EXPONENT"@) is None
                &&& occurrences(config.definitions(), "LIBC_CONF_FREXP_INF_NAN_EXPONENT"@) == 0
            },
        },
{
    let math = config.math_opts.definitions();
    assert(math.last() == (
        "LIBC_CONF_MATH_OPTIMIZATIONS"@,
        config.math_opts.optimizations_text(),
    ));
    assert(math[math.len() - 1] == math.last());
    lemma_defined(
        config,
        "LIBC_CONF_MATH_OPTIMIZATIONS"@,
        config.math_opts.optimizations_text(),
    );
    match config.math_opts.frexp_inf_nan_exponent {
        Some(exponent) => {
            assert(math[0] == ("LIBC_CONF_FREXP_INF_NAN_EXPONENT"@, exponent@));
            lemma_defined(config, "LIBC_CONF_FREXP_INF_NAN_EXPONENT"@, exponent@);
        },
        None => {
            lemma_key_orders();
            lemma_parts_rising(config);
            lemma_undefined(config, "LIBC_CONF_FREXP_INF_NAN_EXPONENT"@);
        },
    }
}

/// With the hardening allocator, five definitions are written beyond those
/// of a build without it: where its source tree is, and four switches whose
/// values are fixed. Without it, none of the five keys is defined.
pub proof fn lemma_scudo_read_back(config: Config)
    ensures
        match config.with_scudo {
            Some(tree) => {
                &&& lookup(config.definitions(), "LLVM_LIBC_COMPILER_RT_PATH"@) == Some(tree@)
                &&& lookup(
                    config.definitions(),
                    "COMPILER_RT_BUILD_SCUDO_STANDALONE_WITH_LLVM_LIBC"@,
                ) == Some("ON"@)
                &&& lookup(config.definitions(), "COMPILER_RT_SCUDO_STANDALONE_BUILD_SHARED"@)
                    == Some("OFF"@)
                &&& lookup(config.definitions(), "LLVM_LIBC_INCLUDE_SCUDO"@) == Some("ON"@)
                &&& lookup(config.definitions(), "COMPILER_RT_STANDALONE_BUILD"@) == Some("ON"@)
            },
            None => {
                &&& lookup(config.definitions(), "LLVM_LIBC_COMPILER_RT_PATH"@) is None
                &&& lookup(
                    config.definitions(),
                    "COMPILER_RT_BUILD_SCUDO_STANDALONE_WITH_LLVM_LIBC"@,
                ) is None
                &&& lookup(config.definitions(), "COMPILER_RT_SCUDO_STANDALONE_BUILD_SHARED"@)
                    is None
                &&& lookup(config.definitions(), "LLVM_LIBC_INCLUDE_SCUDO"@) is None
                &&& lookup(config.definitions(), "COMPILER_RT_STANDALONE_BUILD"@) is None
            },
        },
{
    match config.with_scudo {
        Some(tree) => {
            let scudo = config.scudo_definitions();
            assert(scudo[0] == ("LLVM_LIBC_COMPILER_RT_PATH"@, tree@));
            lemma_defined(config, "LLVM_LIBC_COMPILER_RT_PATH"@, tree@);
            assert(scudo[1] == ("COMPILER_RT_BUILD_SCUDO_STANDALONE_WITH_LLVM_LIBC"@, "ON"@));
            lemma_defined(config, "COMPILER_RT_BUILD_SCUDO_STANDALONE_WITH_LLVM_LIBC"@, "ON"@);
            assert(scudo[2] == ("COMPILER_RT_SCUDO_STANDALONE_BUILD_SHARED"@, "OFF"@));
            lemma_defined(config, "COMPILER_RT_SCUDO_STANDALONE_BUILD_SHARED"@, "OFF"@);
            assert(scudo[3] == ("LLVM_LIBC_INCLUDE_SCUDO"@, "ON"@));
            lemma_defined(config, "LLVM_LIBC_INCLUDE_SCUDO"@, "ON"@);
            assert(scudo[4] == ("COMPILER_RT_STANDALONE_BUILD"@, "ON"@));
            lemma_defined(config, "COMPILER_RT_STANDALONE_BUILD"@, "ON"@);
        },
        None => {
            lemma_key_orders();
            lemma_parts_rising(config);
            lemma_undefined(config, "LLVM_LIBC_COMPILER_RT_PATH"@);
            lemma_undefined(config, "COMPILER_RT_BUILD_SCUDO_STANDALONE_WITH_LLVM_LIBC"@);
            lemma_undefined(config, "COMPILER_RT_SCUDO_STANDALONE_BUILD_SHARED"@);
            lemma_undefined(config, "LLVM_LIBC_INCLUDE_SCUDO"@);
            lemma_undefined(config, "COMPILER_RT_STANDALONE_BUILD"@);
        },
    }
}

/// A configuration writes 26 definitions, one more where the exponent
/// override is set, and five more where the hardening allocator is built.
/// Nothing else of a configuration changes how many it writes or under which
/// keys.
pub proof fn lemma_definition_count(config: Config)
    ensures
        config.definitions().len() == 26 + (if config.math_opts.frexp_inf_nan_exponent is Some {
            1int
        } else {
            0int
        }) + (if config.with_scudo is Some {
            5int
        } else {
            0int
        }),
{
}

/// Nothing is lost on the way into the store: two configurations that write
/// the same definitions agree in every option. Only the path of the sources
/// is not told by the definitions.
pub proof fn lemma_definitions_tell_options(first: Config, second: Config)
    requires
        first.definitions() == second.definitions(),
    ensures
        first.same_options(&second),
{
    lemma_options_read_back(first);
    lemma_options_read_back(second);
    lemma_math_read_back(first);
    lemma_math_read_back(second);
    lemma_scudo_read_back(first);
    lemma_scudo_read_back(second);
    assert forall|a: bool, b: bool| bool_text(a) == bool_text(b) implies a == b by {
        lemma_bool_text(a);
        lemma_bool_text(b);
    }
    lemma_errno_mode_round_trip(first.errno_mode, second.errno_mode.text());
    lemma_errno_mode_round_trip(second.errno_mode, second.errno_mode.text());
    lemma_qsort_impl_round_trip(first.qsort_impl, second.qsort_impl.text());
    lemma_qsort_impl_round_trip(second.qsort_impl, second.qsort_impl.text());
    lemma_decimal_round_trip(first.pthread_opts.raw_mutex_default_spin_count as nat);
    lemma_decimal_round_trip(second.pthread_opts.raw_mutex_default_spin_count as nat);
    lemma_decimal_round_trip(first.pthread_opts.rwlock_default_spin_count as nat);
    lemma_decimal_round_trip(second.pthread_opts.rwlock_default_spin_count as nat);
    lemma_optimizations_read_back(first.math_opts, second.math_opts);
}

} // verus!
