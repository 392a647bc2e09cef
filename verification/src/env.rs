//! The environment variables that the providers read.

use crate::text::str_eq;
use vstd::prelude::*;

verus! {

/// A snapshot of environment variables: a finite map from names to values.
///
/// The variables are kept as a list of settings in which no name occurs
/// twice.
#[derive(Debug)]
pub struct Env {
    entries: Vec<(String, String)>,
}

/// The map that a list of settings stands for: each entry overrides those
/// before it.
pub open spec fn settings_map(s: Seq<(String, String)>) -> Map<Seq<char>, Seq<char>>
    decreases s.len(),
{
    if s.len() == 0 {
        Map::empty()
    } else {
        settings_map(s.drop_last()).insert(s.last().0@, s.last().1@)
    }
}

/// Whether no name occurs twice in a list of settings.
pub open spec fn names_distinct(s: Seq<(String, String)>) -> bool {
    forall|i: int, j: int| 0 <= i < j < s.len() ==> (#[trigger] s[i]).0@ != (#[trigger] s[j]).0@
}

proof fn lemma_settings_absent(s: Seq<(String, String)>, key: Seq<char>)
    requires
        forall|j: int| 0 <= j < s.len() ==> (#[trigger] s[j]).0@ != key,
    ensures
        !settings_map(s).contains_key(key),
    decreases s.len(),
{
    if s.len() > 0 {
        lemma_settings_absent(s.drop_last(), key);
    }
}

proof fn lemma_settings_last(s: Seq<(String, String)>, key: Seq<char>, at: int)
    requires
        0 <= at < s.len(),
        s[at].0@ == key,
        forall|j: int| at < j < s.len() ==> (#[trigger] s[j]).0@ != key,
    ensures
        settings_map(s).contains_key(key),
        settings_map(s)[key] == s[at].1@,
    decreases s.len(),
{
    if at < s.len() - 1 {
        assert(s.last().0@ != key);
        lemma_settings_last(s.drop_last(), key, at);
    }
}

/// The settings of `entries` for every name but `key`, in their order.
fn without(entries: &Vec<(String, String)>, key: &str) -> (kept: Vec<(String, String)>)
    ensures
        settings_map(kept@) == settings_map(entries@).remove(key@),
        forall|a: int| 0 <= a < kept@.len() ==> (#[trigger] kept@[a]).0@ != key@,
        names_distinct(entries@) ==> names_distinct(kept@),
{
    let mut kept: Vec<(String, String)> = Vec::new();
    let ghost mut source: Seq<int> = Seq::empty();
    let mut i: usize = 0;
    while i < entries.len()
        invariant
            i <= entries.len(),
            settings_map(kept@) == settings_map(entries@.take(i as int)).remove(key@),
            forall|a: int| 0 <= a < kept@.len() ==> (#[trigger] kept@[a]).0@ != key@,
            source.len() == kept@.len(),
            forall|a: int|
                0 <= a < source.len() ==> 0 <= #[trigger] source[a] < i && kept@[a].0@
                    == entries@[source[a]].0@,
            forall|a: int, b: int| 0 <= a < b < source.len() ==> source[a] < source[b],
        decreases entries.len() - i,
    {
        let ghost seen = entries@.take(i as int);
        let ghost next = entries@.take(i as int + 1);
        assert(next.drop_last() =~= seen);
        if !str_eq(entries[i].0.as_str(), key) {
            let k = entries[i].0.clone();
            let v = entries[i].1.clone();
            let ghost before = kept@;
            kept.push((k, v));
            proof {
                source = source.push(i as int);
                assert(kept@.drop_last() =~= before);
                assert(settings_map(kept@) =~= settings_map(next).remove(key@));
            }
        } else {
            assert(settings_map(kept@) =~= settings_map(next).remove(key@));
        }
        i += 1;
    }
    assert(entries@.take(i as int) =~= entries@);
    proof {
        if names_distinct(entries@) {
            assert forall|a: int, b: int| 0 <= a < b < kept@.len() implies (#[trigger] kept@[a]).0@
                != (#[trigger] kept@[b]).0@ by {
                assert(source[a] < source[b]);
                assert(entries@[source[a]].0@ != entries@[source[b]].0@);
            }
        }
    }
    kept
}

impl Clone for Env {
    /// An environment with the same variables.
    fn clone(&self) -> (env: Self)
        ensures
            env@ == self@,
    {
        proof {
            use_type_invariant(self);
        }
        let mut entries: Vec<(String, String)> = Vec::new();
        let mut i: usize = 0;
        while i < self.entries.len()
            invariant
                i <= self.entries.len(),
                entries@ == self.entries@.take(i as int),
            decreases self.entries.len() - i,
        {
            let k = self.entries[i].0.clone();
            let v = self.entries[i].1.clone();
            entries.push((k, v));
            i += 1;
            assert(entries@ =~= self.entries@.take(i as int));
        }
        assert(entries@ =~= self.entries@);
        Env { entries }
    }
}

impl View for Env {
    type V = Map<Seq<char>, Seq<char>>;

    closed spec fn view(&self) -> Map<Seq<char>, Seq<char>> {
        settings_map(self.entries@)
    }
}

impl Env {
    #[verifier::type_invariant]
    spec fn well_formed(self) -> bool {
        names_distinct(self.entries@)
    }

    /// The value of `key`, if it is set.
    pub open spec fn lookup(&self, key: Seq<char>) -> Option<Seq<char>> {
        if self@.contains_key(key) {
            Some(self@[key])
        } else {
            None
        }
    }

    /// An environment without variables.
    pub fn new() -> (env: Env)
        ensures
            env@ == Map::<Seq<char>, Seq<char>>::empty(),
    {
        Env { entries: Vec::new() }
    }

    /// Sets `key` to `value`, whatever it was before.
    pub fn insert(&mut self, key: String, value: String)
        ensures
            final(self)@ == old(self)@.insert(key@, value@),
    {
        proof {
            use_type_invariant(&*self);
        }
        let mut kept = without(&self.entries, key.as_str());
        let ghost before = kept@;
        kept.push((key, value));
        assert(kept@.drop_last() =~= before);
        assert(settings_map(kept@) =~= settings_map(self.entries@).insert(key@, value@));
        self.entries = kept;
    }

    /// The value of `key`, if it is set.
    pub fn get(&self, key: &str) -> (value: Option<&String>)
        ensures
            match value {
                Some(v) => self.lookup(key@) == Some(v@),
                None => self.lookup(key@) is None,
            },
    {
        let mut i: usize = self.entries.len();
        while i > 0
            invariant
                i <= self.entries.len(),
                forall|j: int| i <= j < self.entries.len() ==> (#[trigger] self.entries@[j]).0@ != key@,
            decreases i,
        {
            i -= 1;
            if str_eq(self.entries[i].0.as_str(), key) {
                proof {
                    lemma_settings_last(self.entries@, key@, i as int);
                }
                return Some(&self.entries[i].1);
            }
        }
        proof {
            lemma_settings_absent(self.entries@, key@);
        }
        None
    }

    /// Whether `key` is set.
    pub fn contains_key(&self, key: &str) -> (set: bool)
        ensures
            set == self@.contains_key(key@),
    {
        self.get(key).is_some()
    }

    /// Unsets `key`.
    pub fn remove(&mut self, key: &str)
        ensures
            final(self)@ == old(self)@.remove(key@),
    {
        proof {
            use_type_invariant(&*self);
        }
        let kept = without(&self.entries, key);
        self.entries = kept;
    }

    /// The number of variables that are set.
    pub fn len(&self) -> (n: usize)
        ensures
            n == self@.dom().len(),
    {
        proof {
            use_type_invariant(self);
            lemma_settings_count(self.entries@);
        }
        self.entries.len()
    }
}

/// A list of settings in which no name occurs twice sets as many variables
/// as it has entries.
proof fn lemma_settings_count(s: Seq<(String, String)>)
    requires
        names_distinct(s),
    ensures
        settings_map(s).dom().finite(),
        settings_map(s).dom().len() == s.len(),
    decreases s.len(),
{
    if s.len() > 0 {
        let rest = s.drop_last();
        assert(names_distinct(rest)) by {
            assert forall|i: int, j: int| 0 <= i < j < rest.len() implies (#[trigger] rest[i]).0@
                != (#[trigger] rest[j]).0@ by {
                assert(rest[i] == s[i]);
                assert(rest[j] == s[j]);
            }
        }
        lemma_settings_count(rest);
        assert(!settings_map(rest).contains_key(s.last().0@)) by {
            assert forall|j: int| 0 <= j < rest.len() implies (#[trigger] rest[j]).0@
                != s.last().0@ by {
                assert(rest[j] == s[j]);
                assert(s[j].0@ != s[s.len() - 1].0@);
            }
            lemma_settings_absent(rest, s.last().0@);
        }
        assert(settings_map(s).dom() =~= settings_map(rest).dom().insert(s.last().0@));
    }
}

} // verus!
