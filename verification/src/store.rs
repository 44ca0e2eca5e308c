//! The store of CMake definitions: what a configuration writes into, and what
//! the CMake invocation later reads.

use vstd::prelude::*;
use cmake::Config as CmakeConfig;
use crate::text::same_text;

verus! {

/// A place where CMake definitions are written, one key and one value at a time.
///
/// Writes only add: the model of a store is the list of all definitions it was
/// given, oldest first. What CMake makes of a key that was written twice is
/// stated by [`lookup`].
pub trait DefinitionStore {
    /// What a store holds beside its definitions.
    type Rest;

    /// The definitions written so far, oldest first.
    spec fn definitions(&self) -> Seq<(Seq<char>, Seq<char>)>;

    /// What the store holds beside its definitions. No write changes it.
    spec fn rest(&self) -> Self::Rest;

    /// Writes one definition after all earlier ones.
    fn define(&mut self, key: &str, value: &str)
        ensures
            final(self).definitions() == old(self).definitions().push((key@, value@)),
            final(self).rest() == old(self).rest(),
    ;
}

/// `cmake::Config`, the handle of a CMake build that is yet to run. Nothing
/// of what it holds is known here but what [`cmake_definitions`],
/// [`cmake_target`] and [`cmake_build_target`] name.
#[verifier::external_type_specification]
#[verifier::external_body]
pub struct ExCmakeConfig(CmakeConfig);

/// The definitions that a `cmake::Config` holds, in the order in which they
/// were given to it.
pub uninterp spec fn cmake_definitions(config: CmakeConfig) -> Seq<(Seq<char>, Seq<char>)>;

/// The target triple that a `cmake::Config` was given, if any.
pub uninterp spec fn cmake_target(config: CmakeConfig) -> Option<Seq<char>>;

/// The name of the CMake target that a `cmake::Config` was told to build, if
/// any.
pub uninterp spec fn cmake_build_target(config: CmakeConfig) -> Option<Seq<char>>;

/// `cmake::Config::define`: pushes the pair onto the configuration's list of
/// definitions and touches nothing else, so the target triple and the CMake
/// target stay.
#[verifier::external_body]
fn cmake_define(config: &mut CmakeConfig, key: &str, value: &str)
    ensures
        cmake_definitions(*final(config)) == cmake_definitions(*old(config)).push((key@, value@)),
        cmake_target(*final(config)) == cmake_target(*old(config)),
        cmake_build_target(*final(config)) == cmake_build_target(*old(config)),
{
    config.define(key, value);
}

/// `cmake::Config::target`: keeps the triple as the target of the build and
/// touches nothing else, so the definitions and the CMake target stay.
#[verifier::external_body]
pub(crate) fn cmake_set_target(config: &mut CmakeConfig, triple: &str)
    ensures
        cmake_target(*final(config)) == Some(triple@),
        cmake_definitions(*final(config)) == cmake_definitions(*old(config)),
        cmake_build_target(*final(config)) == cmake_build_target(*old(config)),
{
    config.target(triple);
}

/// `cmake::Config::build_target`: keeps the name as the CMake target of the
/// next build and touches nothing else, so the definitions and the target
/// triple stay.
#[verifier::external_body]
pub(crate) fn cmake_set_build_target(config: &mut CmakeConfig, name: &str)
    ensures
        cmake_build_target(*final(config)) == Some(name@),
        cmake_definitions(*final(config)) == cmake_definitions(*old(config)),
        cmake_target(*final(config)) == cmake_target(*old(config)),
{
    config.build_target(name);
}

impl DefinitionStore for CmakeConfig {
    /// The target triple and the CMake target, each if one was given.
    type Rest = (Option<Seq<char>>, Option<Seq<char>>);

    open spec fn definitions(&self) -> Seq<(Seq<char>, Seq<char>)> {
        cmake_definitions(*self)
    }

    open spec fn rest(&self) -> (Option<Seq<char>>, Option<Seq<char>>) {
        (cmake_target(*self), cmake_build_target(*self))
    }

    fn define(&mut self, key: &str, value: &str) {
        cmake_define(self, key, value);
    }
}

/// What CMake takes a key to stand for after all definitions were given: the
/// value of the last definition of that key, or nothing where the key was
/// never defined.
pub open spec fn lookup(definitions: Seq<(Seq<char>, Seq<char>)>, key: Seq<char>) -> Option<
    Seq<char>,
>
    decreases definitions.len(),
{
    if definitions.len() == 0 {
        None
    } else if definitions.last().0 == key {
        Some(definitions.last().1)
    } else {
        lookup(definitions.drop_last(), key)
    }
}

/// How many definitions of a key a list holds.
pub open spec fn occurrences(definitions: Seq<(Seq<char>, Seq<char>)>, key: Seq<char>) -> nat
    decreases definitions.len(),
{
    if definitions.len() == 0 {
        0
    } else if definitions.last().0 == key {
        occurrences(definitions.drop_last(), key) + 1
    } else {
        occurrences(definitions.drop_last(), key)
    }
}

/// Whether no key is defined twice.
pub open spec fn keys_distinct(definitions: Seq<(Seq<char>, Seq<char>)>) -> bool {
    forall|i: int, j: int|
        0 <= i < j < definitions.len() ==> definitions[i].0 != definitions[j].0
}

/// A key that no definition names stands for nothing and occurs zero times,
/// and the other way round.
pub proof fn lemma_lookup_absent(definitions: Seq<(Seq<char>, Seq<char>)>, key: Seq<char>)
    ensures
        lookup(definitions, key) is None <==> forall|i: int|
            0 <= i < definitions.len() ==> definitions[i].0 != key,
        lookup(definitions, key) is None <==> occurrences(definitions, key) == 0,
    decreases definitions.len(),
{
    if definitions.len() > 0 {
        let rest = definitions.drop_last();
        lemma_lookup_absent(rest, key);
        if definitions.last().0 != key {
            if lookup(rest, key) is None {
                assert forall|i: int| 0 <= i < definitions.len() implies definitions[i].0
                    != key by {
                    if i < rest.len() {
                        assert(rest[i] == definitions[i]);
                    }
                }
            } else {
                let i = choose|i: int| 0 <= i < rest.len() && rest[i].0 == key;
                assert(definitions[i].0 == key);
            }
        }
    }
}

/// What a key stands for was written for it: the key and its value are one
/// of the definitions.
pub proof fn lemma_lookup_is_defined(
    definitions: Seq<(Seq<char>, Seq<char>)>,
    key: Seq<char>,
)
    requires
        lookup(definitions, key) is Some,
    ensures
        definitions.contains((key, lookup(definitions, key)->Some_0)),
    decreases definitions.len(),
{
    if definitions.last().0 == key {
        assert(definitions[definitions.len() - 1] == (key, lookup(definitions, key)->Some_0));
    } else {
        let rest = definitions.drop_last();
        lemma_lookup_is_defined(rest, key);
        let i = choose|i: int|
            0 <= i < rest.len() && rest[i] == (key, lookup(definitions, key)->Some_0);
        assert(definitions[i] == rest[i]);
    }
}

/// Where no key is defined twice, a key stands for the value of its one
/// definition, wherever in the list that definition is.
pub proof fn lemma_lookup_distinct(
    definitions: Seq<(Seq<char>, Seq<char>)>,
    key: Seq<char>,
    value: Seq<char>,
)
    requires
        keys_distinct(definitions),
        definitions.contains((key, value)),
    ensures
        lookup(definitions, key) == Some(value),
        occurrences(definitions, key) == 1,
    decreases definitions.len(),
{
    let at = choose|i: int| 0 <= i < definitions.len() && definitions[i] == (key, value);
    let rest = definitions.drop_last();
    if at == definitions.len() - 1 {
        lemma_lookup_absent(rest, key);
        assert forall|i: int| 0 <= i < rest.len() implies rest[i].0 != key by {
            assert(rest[i] == definitions[i]);
        }
    } else {
        assert(rest[at] == (key, value));
        assert(keys_distinct(rest)) by {
            assert forall|i: int, j: int| 0 <= i < j < rest.len() implies rest[i].0
                != rest[j].0 by {
                assert(rest[i] == definitions[i]);
                assert(rest[j] == definitions[j]);
            }
        }
        lemma_lookup_distinct(rest, key, value);
    }
}

/// Where no key is defined twice, the order of the definitions does not
/// matter: two lists of the same definitions stand for the same thing.
pub proof fn lemma_order_irrelevant(
    first: Seq<(Seq<char>, Seq<char>)>,
    second: Seq<(Seq<char>, Seq<char>)>,
    key: Seq<char>,
)
    requires
        keys_distinct(first),
        keys_distinct(second),
        forall|d: (Seq<char>, Seq<char>)| first.contains(d) <==> second.contains(d),
    ensures
        lookup(first, key) == lookup(second, key),
{
    if lookup(first, key) is Some {
        lemma_lookup_is_defined(first, key);
        lemma_lookup_distinct(second, key, lookup(first, key)->Some_0);
    } else if lookup(second, key) is Some {
        lemma_lookup_is_defined(second, key);
        lemma_lookup_distinct(first, key, lookup(second, key)->Some_0);
    }
}

/// Later writes win: after more definitions were written, a key stands for
/// what the later ones say of it, and for what it stood for before where
/// they say nothing of it.
pub proof fn lemma_lookup_after_writes(
    earlier: Seq<(Seq<char>, Seq<char>)>,
    later: Seq<(Seq<char>, Seq<char>)>,
    key: Seq<char>,
)
    ensures
        lookup(earlier + later, key) == if lookup(later, key) is Some {
            lookup(later, key)
        } else {
            lookup(earlier, key)
        },
        occurrences(earlier + later, key) == occurrences(earlier, key) + occurrences(later, key),
    decreases later.len(),
{
    if later.len() == 0 {
        assert(earlier + later =~= earlier);
    } else {
        assert((earlier + later).drop_last() =~= earlier + later.drop_last());
        assert((earlier + later).last() == later.last());
        lemma_lookup_after_writes(earlier, later.drop_last(), key);
    }
}

/// A store that keeps what it was given, for reading back.
pub struct Definitions {
    entries: Vec<(String, String)>,
}

impl View for Definitions {
    type V = Seq<(Seq<char>, Seq<char>)>;

    closed spec fn view(&self) -> Seq<(Seq<char>, Seq<char>)> {
        self.entries@.map_values(|entry: (String, String)| (entry.0@, entry.1@))
    }
}

impl Definitions {
    /// A store that holds nothing.
    pub fn new() -> (store: Self)
        ensures
            store@ == Seq::<(Seq<char>, Seq<char>)>::empty(),
    {
        let store = Definitions { entries: Vec::new() };
        assert(store@ =~= Seq::empty());
        store
    }

    /// The number of definitions written, a key written twice counted twice.
    pub fn len(&self) -> (n: usize)
        ensures
            n == self@.len(),
    {
        self.entries.len()
    }

    /// The key and the value of the definition that was written as number
    /// `index`, counted from zero, or nothing where fewer were written.
    pub fn entry(&self, index: usize) -> (entry: Option<(&str, &str)>)
        ensures
            match entry {
                Some((key, value)) => index < self@.len() && (key@, value@) == self@[index as int],
                None => index >= self@.len(),
            },
    {
        if index < self.entries.len() {
            let stored = &self.entries[index];
            Some((stored.0.as_str(), stored.1.as_str()))
        } else {
            None
        }
    }

    /// What a key stands for: the value that was last written for it.
    pub fn get(&self, key: &str) -> (value: Option<&str>)
        ensures
            match value {
                Some(text) => lookup(self@, key@) == Some(text@),
                None => lookup(self@, key@) is None,
            },
    {
        let mut i: usize = self.entries.len();
        assert(self@.take(i as int) =~= self@);
        while i > 0
            invariant
                i <= self.entries.len(),
                lookup(self@, key@) == lookup(self@.take(i as int), key@),
            decreases i,
        {
            i = i - 1;
            let stored = &self.entries[i];
            proof {
                let upto = self@.take(i + 1);
                assert(upto.last() == self@[i as int]);
                assert(upto.drop_last() =~= self@.take(i as int));
            }
            if same_text(stored.0.as_str(), key) {
                return Some(stored.1.as_str());
            }
        }
        None
    }

    /// How many times a key was written.
    pub fn count(&self, key: &str) -> (n: usize)
        ensures
            n == occurrences(self@, key@),
    {
        let mut n: usize = 0;
        let mut i: usize = 0;
        while i < self.entries.len()
            invariant
                i <= self.entries.len(),
                n <= i,
                n == occurrences(self@.take(i as int), key@),
            decreases self.entries.len() - i,
        {
            proof {
                let upto = self@.take(i + 1);
                assert(upto.last() == self@[i as int]);
                assert(upto.drop_last() =~= self@.take(i as int));
            }
            if same_text(self.entries[i].0.as_str(), key) {
                n = n + 1;
            }
            i = i + 1;
        }
        assert(self@.take(i as int) =~= self@);
        n
    }
}

impl DefinitionStore for Definitions {
    type Rest = ();

    open spec fn definitions(&self) -> Seq<(Seq<char>, Seq<char>)> {
        self@
    }

    open spec fn rest(&self) -> () {
        ()
    }

    fn define(&mut self, key: &str, value: &str) {
        self.entries.push((String::from_str(key), String::from_str(value)));
        assert(self@ =~= old(self)@.push((key@, value@)));
    }
}

} // verus!
