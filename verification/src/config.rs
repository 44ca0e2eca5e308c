//! The build options of the library, and how each group of them is written
//! as CMake definitions.

use vstd::prelude::*;
use cmake::Config as CmakeConfig;
use crate::store::{
    cmake_build_target, cmake_definitions, cmake_set_target, cmake_target, DefinitionStore,
};
use crate::text::{
    bool_text, bool_to_str, decimal_text, is_part, joined, lemma_joined_injective,
    lemma_joined_push, same_text, text_of, usize_to_string,
};

verus! {

/// A group of build options that can write itself as CMake definitions.
pub trait AddToCMake {
    /// The definitions that this group stands for, in the order in which they
    /// are written.
    spec fn definitions(&self) -> Seq<(Seq<char>, Seq<char>)>;

    /// Writes every definition of this group into `config`, after what it
    /// already holds.
    fn add_to_cmake<S: DefinitionStore>(&self, config: &mut S)
        ensures
            final(config).definitions() == old(config).definitions() + self.definitions(),
            final(config).rest() == old(config).rest(),
    ;
}

/// Options on the code that the compiler emits.
#[derive(Debug, Clone, Copy, PartialEq, Eq)]
pub struct CodegenOpts {
    pub strong_stack_protector: bool,
    pub keep_frame_pointer: bool,
}

impl Default for CodegenOpts {
    fn default() -> (opts: Self)
        ensures
            opts == (CodegenOpts { strong_stack_protector: false, keep_frame_pointer: false }),
    {
        CodegenOpts { strong_stack_protector: false, keep_frame_pointer: false }
    }
}

impl AddToCMake for CodegenOpts {
    open spec fn definitions(&self) -> Seq<(Seq<char>, Seq<char>)> {
        seq![
            ("LIBC_CONF_ENABLE_STRONG_STACK_PROTECTOR"@, bool_text(self.strong_stack_protector)),
            ("LIBC_CONF_KEEP_FRAME_POINTER"@, bool_text(self.keep_frame_pointer)),
        ]
    }

    fn add_to_cmake<S: DefinitionStore>(&self, config: &mut S) {
        config.define(
            "LIBC_CONF_ENABLE_STRONG_STACK_PROTECTOR",
            bool_to_str(self.strong_stack_protector),
        );
        config.define("LIBC_CONF_KEEP_FRAME_POINTER", bool_to_str(self.keep_frame_pointer));
        assert(config.definitions() =~= old(config).definitions() + self.definitions());
    }
}

/// Where `errno` lives.
#[derive(Debug, Clone, Copy, PartialEq, Eq)]
pub enum ErrnoMode {
    Default,
    Undefined,
    ThreadLocal,
    Shared,
    External,
    System,
}

impl Default for ErrnoMode {
    fn default() -> (mode: Self)
        ensures
            mode == ErrnoMode::Default,
    {
        ErrnoMode::Default
    }
}

impl ErrnoMode {
    /// The constant that CMake knows this mode by.
    pub open spec fn text(self) -> Seq<char> {
        match self {
            ErrnoMode::Default => "LIBC_ERRNO_MODE_DEFAULT"@,
            ErrnoMode::Undefined => "LIBC_ERRNO_MODE_UNDEFINED"@,
            ErrnoMode::ThreadLocal => "LIBC_ERRNO_MODE_THREAD_LOCAL"@,
            ErrnoMode::Shared => "LIBC_ERRNO_MODE_SHARED"@,
            ErrnoMode::External => "LIBC_ERRNO_MODE_EXTERNAL"@,
            ErrnoMode::System => "LIBC_ERRNO_MODE_SYSTEM"@,
        }
    }

    /// The constant that CMake knows this mode by.
    pub fn to_str(&self) -> (name: &'static str)
        ensures
            name@ == self.text(),
    {
        match self {
            ErrnoMode::Default => "LIBC_ERRNO_MODE_DEFAULT",
            ErrnoMode::Undefined => "LIBC_ERRNO_MODE_UNDEFINED",
            ErrnoMode::ThreadLocal => "LIBC_ERRNO_MODE_THREAD_LOCAL",
            ErrnoMode::Shared => "LIBC_ERRNO_MODE_SHARED",
            ErrnoMode::External => "LIBC_ERRNO_MODE_EXTERNAL",
            ErrnoMode::System => "LIBC_ERRNO_MODE_SYSTEM",
        }
    }

    /// The mode that a constant names, if it names one.
    pub open spec fn from_text(text: Seq<char>) -> Option<ErrnoMode> {
        if text == ErrnoMode::Default.text() {
            Some(ErrnoMode::Default)
        } else if text == ErrnoMode::Undefined.text() {
            Some(ErrnoMode::Undefined)
        } else if text == ErrnoMode::ThreadLocal.text() {
            Some(ErrnoMode::ThreadLocal)
        } else if text == ErrnoMode::Shared.text() {
            Some(ErrnoMode::Shared)
        } else if text == ErrnoMode::External.text() {
            Some(ErrnoMode::External)
        } else if text == ErrnoMode::System.text() {
            Some(ErrnoMode::System)
        } else {
            None
        }
    }

    /// The mode that a constant names, if it names one.
    pub fn from_name(name: &str) -> (mode: Option<ErrnoMode>)
        ensures
            mode == ErrnoMode::from_text(name@),
    {
        if same_text(name, "LIBC_ERRNO_MODE_DEFAULT") {
            Some(ErrnoMode::Default)
        } else if same_text(name, "LIBC_ERRNO_MODE_UNDEFINED") {
            Some(ErrnoMode::Undefined)
        } else if same_text(name, "LIBC_ERRNO_MODE_THREAD_LOCAL") {
            Some(ErrnoMode::ThreadLocal)
        } else if same_text(name, "LIBC_ERRNO_MODE_SHARED") {
            Some(ErrnoMode::Shared)
        } else if same_text(name, "LIBC_ERRNO_MODE_EXTERNAL") {
            Some(ErrnoMode::External)
        } else if same_text(name, "LIBC_ERRNO_MODE_SYSTEM") {
            Some(ErrnoMode::System)
        } else {
            None
        }
    }
}

/// Each mode has a constant of its own: from a mode to its constant and back
/// gives the mode, and from a constant to its mode and back gives the
/// constant.
pub proof fn lemma_errno_mode_round_trip(mode: ErrnoMode, text: Seq<char>)
    ensures
        ErrnoMode::from_text(mode.text()) == Some(mode),
        ErrnoMode::from_text(text) matches Some(named) ==> named.text() == text,
        ErrnoMode::from_text(text) == Some(mode) <==> text == mode.text(),
{
    reveal_strlit("LIBC_ERRNO_MODE_DEFAULT");
    reveal_strlit("LIBC_ERRNO_MODE_UNDEFINED");
    reveal_strlit("LIBC_ERRNO_MODE_THREAD_LOCAL");
    reveal_strlit("LIBC_ERRNO_MODE_SHARED");
    reveal_strlit("LIBC_ERRNO_MODE_EXTERNAL");
    reveal_strlit("LIBC_ERRNO_MODE_SYSTEM");
    assert(ErrnoMode::Default.text().len() == 23);
    assert(ErrnoMode::Undefined.text().len() == 25);
    assert(ErrnoMode::ThreadLocal.text().len() == 28);
    assert(ErrnoMode::Shared.text().len() == 22 && ErrnoMode::Shared.text()[17] == 'H');
    assert(ErrnoMode::External.text().len() == 24);
    assert(ErrnoMode::System.text().len() == 22 && ErrnoMode::System.text()[17] == 'Y');
}

impl AddToCMake for ErrnoMode {
    open spec fn definitions(&self) -> Seq<(Seq<char>, Seq<char>)> {
        seq![("LIBC_CONF_ERRNO_MODE"@, self.text())]
    }

    fn add_to_cmake<S: DefinitionStore>(&self, config: &mut S) {
        let value = self.to_str();
        config.define("LIBC_CONF_ERRNO_MODE", value);
        assert(config.definitions() =~= old(config).definitions() + self.definitions());
    }
}

/// One way in which the math functions trade accuracy or error reporting for
/// speed or size.
#[derive(Debug, Clone, Copy, PartialEq, Eq)]
pub enum MathOptimization {
    SkipAccuratePass,
    SmallTables,
    NoErrno,
    NoExcept,
    Fast,
}

impl MathOptimization {
    /// The constant that CMake knows this optimization by.
    pub open spec fn text(self) -> Seq<char> {
        match self {
            MathOptimization::SkipAccuratePass => "LIBC_MATH_SKIP_ACCURATE_PASS"@,
            MathOptimization::SmallTables => "LIBC_MATH_SMALL_TABLES"@,
            MathOptimization::NoErrno => "LIBC_MATH_NO_ERRNO"@,
            MathOptimization::NoExcept => "LIBC_MATH_NO_EXCEPT"@,
            MathOptimization::Fast => "LIBC_MATH_FAST"@,
        }
    }

    /// The constant that CMake knows this optimization by.
    pub fn to_str(&self) -> (name: &'static str)
        ensures
            name@ == self.text(),
    {
        match self {
            MathOptimization::SkipAccuratePass => "LIBC_MATH_SKIP_ACCURATE_PASS",
            MathOptimization::SmallTables => "LIBC_MATH_SMALL_TABLES",
            MathOptimization::NoErrno => "LIBC_MATH_NO_ERRNO",
            MathOptimization::NoExcept => "LIBC_MATH_NO_EXCEPT",
            MathOptimization::Fast => "LIBC_MATH_FAST",
        }
    }

    /// The optimization that a constant names, if it names one.
    pub open spec fn from_text(text: Seq<char>) -> Option<MathOptimization> {
        if text == MathOptimization::SkipAccuratePass.text() {
            Some(MathOptimization::SkipAccuratePass)
        } else if text == MathOptimization::SmallTables.text() {
            Some(MathOptimization::SmallTables)
        } else if text == MathOptimization::NoErrno.text() {
            Some(MathOptimization::NoErrno)
        } else if text == MathOptimization::NoExcept.text() {
            Some(MathOptimization::NoExcept)
        } else if text == MathOptimization::Fast.text() {
            Some(MathOptimization::Fast)
        } else {
            None
        }
    }

    /// The optimization that a constant names, if it names one.
    pub fn from_name(name: &str) -> (optimization: Option<MathOptimization>)
        ensures
            optimization == MathOptimization::from_text(name@),
    {
        if same_text(name, "LIBC_MATH_SKIP_ACCURATE_PASS") {
            Some(MathOptimization::SkipAccuratePass)
        } else if same_text(name, "LIBC_MATH_SMALL_TABLES") {
            Some(MathOptimization::SmallTables)
        } else if same_text(name, "LIBC_MATH_NO_ERRNO") {
            Some(MathOptimization::NoErrno)
        } else if same_text(name, "LIBC_MATH_NO_EXCEPT") {
            Some(MathOptimization::NoExcept)
        } else if same_text(name, "LIBC_MATH_FAST") {
            Some(MathOptimization::Fast)
        } else {
            None
        }
    }
}

/// Each optimization has a constant of its own: from an optimization to its
/// constant and back gives the optimization, and from a constant to its
/// optimization and back gives the constant.
pub proof fn lemma_math_optimization_round_trip(optimization: MathOptimization, text: Seq<char>)
    ensures
        MathOptimization::from_text(optimization.text()) == Some(optimization),
        MathOptimization::from_text(text) matches Some(named) ==> named.text() == text,
        MathOptimization::from_text(text) == Some(optimization) <==> text == optimization.text(),
{
    reveal_strlit("LIBC_MATH_SKIP_ACCURATE_PASS");
    reveal_strlit("LIBC_MATH_SMALL_TABLES");
    reveal_strlit("LIBC_MATH_NO_ERRNO");
    reveal_strlit("LIBC_MATH_NO_EXCEPT");
    reveal_strlit("LIBC_MATH_FAST");
    assert(MathOptimization::SkipAccuratePass.text().len() == 28);
    assert(MathOptimization::SmallTables.text().len() == 22);
    assert(MathOptimization::NoErrno.text().len() == 18);
    assert(MathOptimization::NoExcept.text().len() == 19);
    assert(MathOptimization::Fast.text().len() == 14);
}

/// The constants of a list of optimizations, in the order of the list.
pub open spec fn optimization_names(optimizations: Seq<MathOptimization>) -> Seq<Seq<char>> {
    optimizations.map_values(|o: MathOptimization| o.text())
}

/// Options of the math functions.
#[derive(Debug, Clone, PartialEq, Eq)]
pub struct MathOpts {
    /// The exponent that `frexp` reports for infinities and NaNs, where the
    /// library's own choice is to be overridden.
    pub frexp_inf_nan_exponent: Option<String>,
    /// The optimizations to switch on, in the order in which they are
    /// written. An optimization may stand in the list more than once.
    pub optimizations: Vec<MathOptimization>,
}

impl Default for MathOpts {
    fn default() -> (opts: Self)
        ensures
            opts.frexp_inf_nan_exponent is None,
            opts.optimizations@ == Seq::<MathOptimization>::empty(),
    {
        MathOpts { frexp_inf_nan_exponent: None, optimizations: Vec::new() }
    }
}

impl MathOpts {
    /// The definition of the exponent override: one where it is set, none
    /// where it is not.
    pub open spec fn exponent_definitions(&self) -> Seq<(Seq<char>, Seq<char>)> {
        match self.frexp_inf_nan_exponent {
            Some(exponent) => seq![("LIBC_CONF_FREXP_INF_NAN_EXPONENT"@, exponent@)],
            None => Seq::empty(),
        }
    }

    /// The list of optimizations as one value: their constants with `;`
    /// between them.
    pub open spec fn optimizations_text(&self) -> Seq<char> {
        joined(optimization_names(self.optimizations@), ";"@)
    }

    /// The list of optimizations as one value: their constants with `;`
    /// between them.
    pub fn optimizations_value(&self) -> (value: String)
        ensures
            value@ == self.optimizations_text(),
    {
        let mut value = String::new();
        let mut i: usize = 0;
        while i < self.optimizations.len()
            invariant
                i <= self.optimizations.len(),
                value@ == joined(optimization_names(self.optimizations@.take(i as int)), ";"@),
            decreases self.optimizations.len() - i,
        {
            let ghost before = optimization_names(self.optimizations@.take(i as int));
            let name = self.optimizations[i].to_str();
            proof {
                assert(optimization_names(self.optimizations@.take(i + 1)) =~= before.push(
                    name@,
                ));
                lemma_joined_push(before, name@, ";"@);
            }
            if i > 0 {
                value.append(";");
            }
            value.append(name);
            i = i + 1;
        }
        assert(self.optimizations@.take(i as int) =~= self.optimizations@);
        value
    }
}

/// The constant of an optimization is not empty and holds no `;`, so the
/// constants of a list can be told apart in the joined value.
pub proof fn lemma_optimization_names_are_parts(optimizations: Seq<MathOptimization>)
    ensures
        forall|i: int|
            0 <= i < optimizations.len() ==> is_part(
                #[trigger] optimization_names(optimizations)[i],
                ';',
            ),
{
    reveal_strlit("LIBC_MATH_SKIP_ACCURATE_PASS");
    reveal_strlit("LIBC_MATH_SMALL_TABLES");
    reveal_strlit("LIBC_MATH_NO_ERRNO");
    reveal_strlit("LIBC_MATH_NO_EXCEPT");
    reveal_strlit("LIBC_MATH_FAST");
    assert(MathOptimization::SkipAccuratePass.text() =~= seq![
        'L', 'I', 'B', 'C', '_', 'M', 'A', 'T', 'H', '_', 'S', 'K', 'I', 'P', '_', 'A', 'C', 'C',
        'U', 'R', 'A', 'T', 'E', '_', 'P', 'A', 'S', 'S',
    ]);
    assert(MathOptimization::SmallTables.text() =~= seq![
        'L', 'I', 'B', 'C', '_', 'M', 'A', 'T', 'H', '_', 'S', 'M', 'A', 'L', 'L', '_', 'T', 'A',
        'B', 'L', 'E', 'S',
    ]);
    assert(MathOptimization::NoErrno.text() =~= seq![
        'L', 'I', 'B', 'C', '_', 'M', 'A', 'T', 'H', '_', 'N', 'O', '_', 'E', 'R', 'R', 'N', 'O',
    ]);
    assert(MathOptimization::NoExcept.text() =~= seq![
        'L', 'I', 'B', 'C', '_', 'M', 'A', 'T', 'H', '_', 'N', 'O', '_', 'E', 'X', 'C', 'E', 'P',
        'T',
    ]);
    assert(MathOptimization::Fast.text() =~= seq![
        'L', 'I', 'B', 'C', '_', 'M', 'A', 'T', 'H', '_', 'F', 'A', 'S', 'T',
    ]);
    assert forall|optimization: MathOptimization| is_part(optimization.text(), ';') by {
        match optimization {
            MathOptimization::SkipAccuratePass => {},
            MathOptimization::SmallTables => {},
            MathOptimization::NoErrno => {},
            MathOptimization::NoExcept => {},
            MathOptimization::Fast => {},
        }
    }
}

/// The list of optimizations can be read back from its one value: two lists
/// that are written as the same value are the same list, in length, order and
/// repetitions.
pub proof fn lemma_optimizations_read_back(first: MathOpts, second: MathOpts)
    requires
        first.optimizations_text() == second.optimizations_text(),
    ensures
        first.optimizations@ == second.optimizations@,
{
    reveal_strlit(";");
    assert(";"@ =~= seq![';']);
    let first_names = optimization_names(first.optimizations@);
    let second_names = optimization_names(second.optimizations@);
    lemma_optimization_names_are_parts(first.optimizations@);
    lemma_optimization_names_are_parts(second.optimizations@);
    lemma_joined_injective(first_names, second_names, ';');
    assert(first.optimizations@.len() == first_names.len());
    assert(second.optimizations@.len() == second_names.len());
    assert forall|i: int| 0 <= i < first.optimizations@.len() implies first.optimizations@[i]
        == second.optimizations@[i] by {
        assert(first_names[i] == first.optimizations@[i].text());
        assert(second_names[i] == second.optimizations@[i].text());
        lemma_math_optimization_round_trip(first.optimizations@[i], first_names[i]);
        lemma_math_optimization_round_trip(second.optimizations@[i], first_names[i]);
    }
    assert(first.optimizations@ =~= second.optimizations@);
}

impl AddToCMake for MathOpts {
    open spec fn definitions(&self) -> Seq<(Seq<char>, Seq<char>)> {
        self.exponent_definitions() + seq![
            ("LIBC_CONF_MATH_OPTIMIZATIONS"@, self.optimizations_text()),
        ]
    }

    fn add_to_cmake<S: DefinitionStore>(&self, config: &mut S) {
        if let Some(frexp_inf_nan_exponent) = &self.frexp_inf_nan_exponent {
            config.define("LIBC_CONF_FREXP_INF_NAN_EXPONENT", frexp_inf_nan_exponent.as_str());
        }
        let optimizations = self.optimizations_value();
        config.define("LIBC_CONF_MATH_OPTIMIZATIONS", optimizations.as_str());
        assert(config.definitions() =~= old(config).definitions() + self.definitions());
    }
}

/// Options of the `printf` family.
#[derive(Debug, Clone, Copy, PartialEq, Eq)]
pub struct PrintfOpts {
    pub disable_fixed_point: bool,
    pub disable_float: bool,
    pub disable_index_mode: bool,
    pub disable_strerror: bool,
    pub disable_write_int: bool,
    pub float_to_str_no_specialize_ld: bool,
    pub float_to_str_use_dyadic_float: bool,
    pub float_to_str_use_mega_long_double_table: bool,
}

impl Default for PrintfOpts {
    fn default() -> (opts: Self)
        ensures
            opts == (PrintfOpts {
                disable_fixed_point: false,
                disable_float: false,
                disable_index_mode: false,
                disable_strerror: false,
                disable_write_int: false,
                float_to_str_no_specialize_ld: false,
                float_to_str_use_dyadic_float: false,
                float_to_str_use_mega_long_double_table: false,
            }),
    {
        PrintfOpts {
            disable_fixed_point: false,
            disable_float: false,
            disable_index_mode: false,
            disable_strerror: false,
            disable_write_int: false,
            float_to_str_no_specialize_ld: false,
            float_to_str_use_dyadic_float: false,
            float_to_str_use_mega_long_double_table: false,
        }
    }
}

impl AddToCMake for PrintfOpts {
    open spec fn definitions(&self) -> Seq<(Seq<char>, Seq<char>)> {
        seq![
            ("LIBC_CONF_PRINTF_DISABLE_FIXED_POINT"@, bool_text(self.disable_fixed_point)),
            ("LIBC_CONF_PRINTF_DISABLE_FLOAT"@, bool_text(self.disable_float)),
            ("LIBC_CONF_PRINTF_DISABLE_INDEX_MODE"@, bool_text(self.disable_index_mode)),
            ("LIBC_CONF_PRINTF_DISABLE_STRERROR"@, bool_text(self.disable_strerror)),
            ("LIBC_CONF_PRINTF_DISABLE_WRITE_INT"@, bool_text(self.disable_write_int)),
            (
                "LIBC_CONF_PRINTF_FLOAT_TO_STR_NO_SPECIALIZE_LD"@,
                bool_text(self.float_to_str_no_specialize_ld),
            ),
            (
                "LIBC_CONF_PRINTF_FLOAT_TO_STR_USE_DYADIC_FLOAT"@,
                bool_text(self.float_to_str_use_dyadic_float),
            ),
            (
                "LIBC_CONF_PRINTF_FLOAT_TO_STR_USE_MEGA_LONG_DOUBLE_TABLE"@,
                bool_text(self.float_to_str_use_mega_long_double_table),
            ),
        ]
    }

    fn add_to_cmake<S: DefinitionStore>(&self, config: &mut S) {
        config.define(
            "LIBC_CONF_PRINTF_DISABLE_FIXED_POINT",
            bool_to_str(self.disable_fixed_point),
        );
        config.define("LIBC_CONF_PRINTF_DISABLE_FLOAT", bool_to_str(self.disable_float));
        config.define("LIBC_CONF_PRINTF_DISABLE_INDEX_MODE", bool_to_str(self.disable_index_mode));
        config.define("LIBC_CONF_PRINTF_DISABLE_STRERROR", bool_to_str(self.disable_strerror));
        config.define("LIBC_CONF_PRINTF_DISABLE_WRITE_INT", bool_to_str(self.disable_write_int));
        config.define(
            "LIBC_CONF_PRINTF_FLOAT_TO_STR_NO_SPECIALIZE_LD",
            bool_to_str(self.float_to_str_no_specialize_ld),
        );
        config.define(
            "LIBC_CONF_PRINTF_FLOAT_TO_STR_USE_DYADIC_FLOAT",
            bool_to_str(self.float_to_str_use_dyadic_float),
        );
        config.define(
            "LIBC_CONF_PRINTF_FLOAT_TO_STR_USE_MEGA_LONG_DOUBLE_TABLE",
            bool_to_str(self.float_to_str_use_mega_long_double_table),
        );
        assert(config.definitions() =~= old(config).definitions() + self.definitions());
    }
}

/// Options of the thread library.
#[derive(Debug, Clone, Copy, PartialEq, Eq)]
pub struct PThreadOpts {
    pub raw_mutex_default_spin_count: usize,
    pub rwlock_default_spin_count: usize,
    pub timeout_ensure_monotonicity: bool,
}

impl Default for PThreadOpts {
    fn default() -> (opts: Self)
        ensures
            opts == (PThreadOpts {
                raw_mutex_default_spin_count: 100,
                rwlock_default_spin_count: 100,
                timeout_ensure_monotonicity: true,
            }),
    {
        PThreadOpts {
            raw_mutex_default_spin_count: 100,
            rwlock_default_spin_count: 100,
            timeout_ensure_monotonicity: true,
        }
    }
}

impl AddToCMake for PThreadOpts {
    open spec fn definitions(&self) -> Seq<(Seq<char>, Seq<char>)> {
        seq![
            (
                "LIBC_CONF_PTHREAD_RAW_MUTEX_DEFAULT_SPIN_COUNT"@,
                decimal_text(self.raw_mutex_default_spin_count as nat),
            ),
            (
                "LIBC_CONF_PTHREAD_RWLOCK_DEFAULT_SPIN_COUNT"@,
                decimal_text(self.rwlock_default_spin_count as nat),
            ),
            (
                "LIBC_CONF_PTHREAD_TIMEOUT_ENSURE_MONOTONICITY"@,
                bool_text(self.timeout_ensure_monotonicity),
            ),
        ]
    }

    fn add_to_cmake<S: DefinitionStore>(&self, config: &mut S) {
        let raw_mutex = usize_to_string(self.raw_mutex_default_spin_count);
        config.define("LIBC_CONF_PTHREAD_RAW_MUTEX_DEFAULT_SPIN_COUNT", raw_mutex.as_str());
        let rwlock = usize_to_string(self.rwlock_default_spin_count);
        config.define("LIBC_CONF_PTHREAD_RWLOCK_DEFAULT_SPIN_COUNT", rwlock.as_str());
        config.define(
            "LIBC_CONF_PTHREAD_TIMEOUT_ENSURE_MONOTONICITY",
            bool_to_str(self.timeout_ensure_monotonicity),
        );
        assert(config.definitions() =~= old(config).definitions() + self.definitions());
    }
}

/// The algorithm behind `qsort`.
#[derive(Debug, Clone, Copy, PartialEq, Eq)]
pub enum QSortImpl {
    QuickSort,
    HeapSort,
}

impl QSortImpl {
    /// The constant that CMake knows this algorithm by.
    pub open spec fn text(self) -> Seq<char> {
        match self {
            QSortImpl::QuickSort => "LIBC_QSORT_QUICK_SORT"@,
            QSortImpl::HeapSort => "LIBC_QSORT_HEAP_SORT"@,
        }
    }

    /// The constant that CMake knows this algorithm by.
    pub fn to_str(&self) -> (name: &'static str)
        ensures
            name@ == self.text(),
    {
        match self {
            QSortImpl::QuickSort => "LIBC_QSORT_QUICK_SORT",
            QSortImpl::HeapSort => "LIBC_QSORT_HEAP_SORT",
        }
    }

    /// The algorithm that a constant names, if it names one.
    pub open spec fn from_text(text: Seq<char>) -> Option<QSortImpl> {
        if text == QSortImpl::QuickSort.text() {
            Some(QSortImpl::QuickSort)
        } else if text == QSortImpl::HeapSort.text() {
            Some(QSortImpl::HeapSort)
        } else {
            None
        }
    }

    /// The algorithm that a constant names, if it names one.
    pub fn from_name(name: &str) -> (algorithm: Option<QSortImpl>)
        ensures
            algorithm == QSortImpl::from_text(name@),
    {
        if same_text(name, "LIBC_QSORT_QUICK_SORT") {
            Some(QSortImpl::QuickSort)
        } else if same_text(name, "LIBC_QSORT_HEAP_SORT") {
            Some(QSortImpl::HeapSort)
        } else {
            None
        }
    }
}

/// Each algorithm has a constant of its own: from an algorithm to its
/// constant and back gives the algorithm, and from a constant to its
/// algorithm and back gives the constant.
pub proof fn lemma_qsort_impl_round_trip(algorithm: QSortImpl, text: Seq<char>)
    ensures
        QSortImpl::from_text(algorithm.text()) == Some(algorithm),
        QSortImpl::from_text(text) matches Some(named) ==> named.text() == text,
        QSortImpl::from_text(text) == Some(algorithm) <==> text == algorithm.text(),
{
    reveal_strlit("LIBC_QSORT_QUICK_SORT");
    reveal_strlit("LIBC_QSORT_HEAP_SORT");
    assert(QSortImpl::QuickSort.text().len() == 21);
    assert(QSortImpl::HeapSort.text().len() == 20);
}

impl AddToCMake for QSortImpl {
    open spec fn definitions(&self) -> Seq<(Seq<char>, Seq<char>)> {
        seq![("LIBC_CONF_QSORT_IMPL"@, self.text())]
    }

    fn add_to_cmake<S: DefinitionStore>(&self, config: &mut S) {
        let value = self.to_str();
        config.define("LIBC_CONF_QSORT_IMPL", value);
        assert(config.definitions() =~= old(config).definitions() + self.definitions());
    }
}

/// Options of the `scanf` family.
#[derive(Debug, Clone, Copy, PartialEq, Eq)]
pub struct ScanfOpts {
    pub disable_float: bool,
    pub disable_index_mode: bool,
}

impl Default for ScanfOpts {
    fn default() -> (opts: Self)
        ensures
            opts == (ScanfOpts { disable_float: false, disable_index_mode: false }),
    {
        ScanfOpts { disable_float: false, disable_index_mode: false }
    }
}

impl AddToCMake for ScanfOpts {
    open spec fn definitions(&self) -> Seq<(Seq<char>, Seq<char>)> {
        seq![
            ("LIBC_CONF_SCANF_DISABLE_FLOAT"@, bool_text(self.disable_float)),
            ("LIBC_CONF_SCANF_DISABLE_INDEX_MODE"@, bool_text(self.disable_index_mode)),
        ]
    }

    fn add_to_cmake<S: DefinitionStore>(&self, config: &mut S) {
        config.define("LIBC_CONF_SCANF_DISABLE_FLOAT", bool_to_str(self.disable_float));
        config.define("LIBC_CONF_SCANF_DISABLE_INDEX_MODE", bool_to_str(self.disable_index_mode));
        assert(config.definitions() =~= old(config).definitions() + self.definitions());
    }
}

/// Options of `setjmp` and `longjmp`.
#[derive(Debug, Clone, Copy, PartialEq, Eq)]
pub struct SetjmpOpts {
    pub aarch64_restore_platform_register: bool,
}

impl Default for SetjmpOpts {
    fn default() -> (opts: Self)
        ensures
            opts == (SetjmpOpts { aarch64_restore_platform_register: false }),
    {
        SetjmpOpts { aarch64_restore_platform_register: false }
    }
}

impl AddToCMake for SetjmpOpts {
    open spec fn definitions(&self) -> Seq<(Seq<char>, Seq<char>)> {
        seq![
            (
                "LIBC_CONF_SETJMP_AARCH64_RESTORE_PLATFORM_REGISTER"@,
                bool_text(self.aarch64_restore_platform_register),
            ),
        ]
    }

    fn add_to_cmake<S: DefinitionStore>(&self, config: &mut S) {
        config.define(
            "LIBC_CONF_SETJMP_AARCH64_RESTORE_PLATFORM_REGISTER",
            bool_to_str(self.aarch64_restore_platform_register),
        );
        assert(config.definitions() =~= old(config).definitions() + self.definitions());
    }
}

/// Options of the string and memory functions.
#[derive(Debug, Clone, Copy, PartialEq, Eq)]
pub struct StringOpts {
    pub memset_x86_use_software_prefetch: bool,
    pub unsafe_wide_read: bool,
}

impl Default for StringOpts {
    fn default() -> (opts: Self)
        ensures
            opts == (StringOpts { memset_x86_use_software_prefetch: false, unsafe_wide_read: false }),
    {
        StringOpts { memset_x86_use_software_prefetch: false, unsafe_wide_read: false }
    }
}

impl AddToCMake for StringOpts {
    open spec fn definitions(&self) -> Seq<(Seq<char>, Seq<char>)> {
        seq![
            (
                "LIBC_CONF_MEMSET_X86_USE_SOFTWARE_PREFETCH"@,
                bool_text(self.memset_x86_use_software_prefetch),
            ),
            ("LIBC_CONF_STRING_UNSAFE_WIDE_READ"@, bool_text(self.unsafe_wide_read)),
        ]
    }

    fn add_to_cmake<S: DefinitionStore>(&self, config: &mut S) {
        config.define(
            "LIBC_CONF_MEMSET_X86_USE_SOFTWARE_PREFETCH",
            bool_to_str(self.memset_x86_use_software_prefetch),
        );
        config.define("LIBC_CONF_STRING_UNSAFE_WIDE_READ", bool_to_str(self.unsafe_wide_read));
        assert(config.definitions() =~= old(config).definitions() + self.definitions());
    }
}

/// Options of the time functions.
#[derive(Debug, Clone, Copy, PartialEq, Eq)]
pub struct TimeOpts {
    pub force_64bit: bool,
}

impl Default for TimeOpts {
    fn default() -> (opts: Self)
        ensures
            opts == (TimeOpts { force_64bit: false }),
    {
        TimeOpts { force_64bit: false }
    }
}

impl AddToCMake for TimeOpts {
    open spec fn definitions(&self) -> Seq<(Seq<char>, Seq<char>)> {
        seq![("LIBC_CONF_TIME_64BIT"@, bool_text(self.force_64bit))]
    }

    fn add_to_cmake<S: DefinitionStore>(&self, config: &mut S) {
        config.define("LIBC_CONF_TIME_64BIT", bool_to_str(self.force_64bit));
        assert(config.definitions() =~= old(config).definitions() + self.definitions());
    }
}

/// Everything that decides one build of the library.
#[derive(Debug, Clone, PartialEq, Eq)]
pub struct Config {
    /// The source tree that CMake is pointed at.
    pub path: String,
    pub full_build: bool,
    /// The source tree of the hardening allocator, where the library is to be
    /// built with it.
    pub with_scudo: Option<String>,
    pub codegen_opts: CodegenOpts,
    pub errno_mode: ErrnoMode,
    pub null_checks: bool,
    pub math_opts: MathOpts,
    pub printf_opts: PrintfOpts,
    pub pthread_opts: PThreadOpts,
    pub qsort_impl: QSortImpl,
    pub scanf_opts: ScanfOpts,
    pub setjmp_opts: SetjmpOpts,
    pub string_opts: StringOpts,
    pub time_opts: TimeOpts,
}

impl Config {
    /// Whether this is the preset for the source tree at `path`, with the
    /// hardening allocator taken from `with_scudo` or left out: a full build
    /// with null checks and quick sort, a spin count of 100 for both kinds of
    /// lock, monotonic timeouts, and every other option off or empty.
    pub open spec fn is_preset(&self, path: Seq<char>, with_scudo: Option<Seq<char>>) -> bool {
        &&& self.path@ == path
        &&& self.full_build
        &&& match with_scudo {
            Some(tree) => self.with_scudo matches Some(own) && own@ == tree,
            None => self.with_scudo is None,
        }
        &&& self.codegen_opts == (CodegenOpts {
            strong_stack_protector: false,
            keep_frame_pointer: false,
        })
        &&& self.errno_mode == ErrnoMode::Default
        &&& self.null_checks
        &&& self.math_opts.frexp_inf_nan_exponent is None
        &&& self.math_opts.optimizations@ == Seq::<MathOptimization>::empty()
        &&& self.printf_opts == (PrintfOpts {
            disable_fixed_point: false,
            disable_float: false,
            disable_index_mode: false,
            disable_strerror: false,
            disable_write_int: false,
            float_to_str_no_specialize_ld: false,
            float_to_str_use_dyadic_float: false,
            float_to_str_use_mega_long_double_table: false,
        })
        &&& self.pthread_opts == (PThreadOpts {
            raw_mutex_default_spin_count: 100,
            rwlock_default_spin_count: 100,
            timeout_ensure_monotonicity: true,
        })
        &&& self.qsort_impl == QSortImpl::QuickSort
        &&& self.scanf_opts == (ScanfOpts { disable_float: false, disable_index_mode: false })
        &&& self.setjmp_opts == (SetjmpOpts { aarch64_restore_platform_register: false })
        &&& self.string_opts == (StringOpts {
            memset_x86_use_software_prefetch: false,
            unsafe_wide_read: false,
        })
        &&& self.time_opts == (TimeOpts { force_64bit: false })
    }

    /// The preset for the source tree at `path`, without the hardening
    /// allocator.
    pub fn new_default(path: &str) -> (config: Self)
        ensures
            config.is_preset(path@, None),
    {
        Config {
            path: String::from_str(path),
            full_build: true,
            with_scudo: None,
            codegen_opts: CodegenOpts::default(),
            errno_mode: ErrnoMode::default(),
            null_checks: true,
            math_opts: MathOpts::default(),
            printf_opts: PrintfOpts::default(),
            pthread_opts: PThreadOpts::default(),
            qsort_impl: QSortImpl::QuickSort,
            scanf_opts: ScanfOpts::default(),
            setjmp_opts: SetjmpOpts::default(),
            string_opts: StringOpts::default(),
            time_opts: TimeOpts::default(),
        }
    }

    /// The preset for the source tree at `path`, with the hardening allocator
    /// whose source tree is at `with_scudo`. It differs from
    /// [`Config::new_default`] in that one field.
    pub fn new_with_scudo(path: &str, with_scudo: &str) -> (config: Self)
        ensures
            config.is_preset(path@, Some(with_scudo@)),
    {
        let mut config = Config::new_default(path);
        config.with_scudo = Some(String::from_str(with_scudo));
        config
    }

    /// Whether two configurations agree in every option, that is in
    /// everything but the path of the sources.
    pub open spec fn same_options(&self, other: &Config) -> bool {
        &&& self.full_build == other.full_build
        &&& text_of(self.with_scudo) == text_of(other.with_scudo)
        &&& self.codegen_opts == other.codegen_opts
        &&& self.errno_mode == other.errno_mode
        &&& self.null_checks == other.null_checks
        &&& text_of(self.math_opts.frexp_inf_nan_exponent) == text_of(
            other.math_opts.frexp_inf_nan_exponent,
        )
        &&& self.math_opts.optimizations@ == other.math_opts.optimizations@
        &&& self.printf_opts == other.printf_opts
        &&& self.pthread_opts == other.pthread_opts
        &&& self.qsort_impl == other.qsort_impl
        &&& self.scanf_opts == other.scanf_opts
        &&& self.setjmp_opts == other.setjmp_opts
        &&& self.string_opts == other.string_opts
        &&& self.time_opts == other.time_opts
    }

    /// The definitions that every build gets, and the flag for a full build.
    pub open spec fn root_definitions(&self) -> Seq<(Seq<char>, Seq<char>)> {
        seq![
            ("LLVM_COMPILER_IS_GCC_COMPATIBLE"@, "ON"@),
            ("LLVM_RUNTIMES_BUILD"@, "ON"@),
            ("LLVM_LIBC_FULL_BUILD"@, bool_text(self.full_build)),
        ]
    }

    /// The definition of the null checks.
    pub open spec fn null_checks_definitions(&self) -> Seq<(Seq<char>, Seq<char>)> {
        seq![("LIBC_CONF_NULL_CHECKS"@, bool_text(self.null_checks))]
    }

    /// The definitions of the hardening allocator: where its source tree is,
    /// and four switches with fixed values. Without the allocator there is
    /// none of them.
    pub open spec fn scudo_definitions(&self) -> Seq<(Seq<char>, Seq<char>)> {
        match self.with_scudo {
            Some(tree) => seq![
                ("LLVM_LIBC_COMPILER_RT_PATH"@, tree@),
                ("COMPILER_RT_BUILD_SCUDO_STANDALONE_WITH_LLVM_LIBC"@, "ON"@),
                ("COMPILER_RT_SCUDO_STANDALONE_BUILD_SHARED"@, "OFF"@),
                ("LLVM_LIBC_INCLUDE_SCUDO"@, "ON"@),
                ("COMPILER_RT_STANDALONE_BUILD"@, "ON"@),
            ],
            None => Seq::empty(),
        }
    }
}

impl AddToCMake for Config {
    open spec fn definitions(&self) -> Seq<(Seq<char>, Seq<char>)> {
        self.root_definitions() + self.scudo_definitions() + self.codegen_opts.definitions()
            + self.errno_mode.definitions() + self.null_checks_definitions()
            + self.math_opts.definitions() + self.printf_opts.definitions()
            + self.pthread_opts.definitions() + self.qsort_impl.definitions()
            + self.scanf_opts.definitions() + self.setjmp_opts.definitions()
            + self.string_opts.definitions() + self.time_opts.definitions()
    }

    fn add_to_cmake<S: DefinitionStore>(&self, config: &mut S) {
        config.define("LLVM_COMPILER_IS_GCC_COMPATIBLE", "ON");
        config.define("LLVM_RUNTIMES_BUILD", "ON");
        config.define("LLVM_LIBC_FULL_BUILD", bool_to_str(self.full_build));
        if let Some(with_scudo) = &self.with_scudo {
            config.define("LLVM_LIBC_COMPILER_RT_PATH", with_scudo.as_str());
            config.define("COMPILER_RT_BUILD_SCUDO_STANDALONE_WITH_LLVM_LIBC", "ON");
            config.define("COMPILER_RT_SCUDO_STANDALONE_BUILD_SHARED", "OFF");
            config.define("LLVM_LIBC_INCLUDE_SCUDO", "ON");
            config.define("COMPILER_RT_STANDALONE_BUILD", "ON");
        }
        assert(config.definitions() =~= old(config).definitions() + self.root_definitions()
            + self.scudo_definitions());
        self.codegen_opts.add_to_cmake(config);
        self.errno_mode.add_to_cmake(config);
        config.define("LIBC_CONF_NULL_CHECKS", bool_to_str(self.null_checks));
        self.math_opts.add_to_cmake(config);
        self.printf_opts.add_to_cmake(config);
        self.pthread_opts.add_to_cmake(config);
        self.qsort_impl.add_to_cmake(config);
        self.scanf_opts.add_to_cmake(config);
        self.setjmp_opts.add_to_cmake(config);
        self.string_opts.add_to_cmake(config);
        self.time_opts.add_to_cmake(config);
        assert(config.definitions() =~= old(config).definitions() + self.definitions());
    }
}

impl Config {
    /// Makes `cmake_cfg` the CMake configuration of a build for the target
    /// `triple`: every definition of this configuration is written into it,
    /// after what it already holds, and the triple is set. The CMake target
    /// stays as it was.
    ///
    /// The handle is made by the caller, for the sources at [`Config::path`]:
    /// making one reads the current directory of the process.
    pub fn configure(&self, cmake_cfg: &mut CmakeConfig, triple: &str)
        ensures
            cmake_definitions(*final(cmake_cfg)) == cmake_definitions(*old(cmake_cfg))
                + self.definitions(),
            cmake_target(*final(cmake_cfg)) == Some(triple@),
            cmake_build_target(*final(cmake_cfg)) == cmake_build_target(*old(cmake_cfg)),
    {
        self.add_to_cmake(cmake_cfg);
        cmake_set_target(cmake_cfg, triple);
    }
}

} // verus!
