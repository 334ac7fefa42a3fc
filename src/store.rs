use std::collections::HashMap;
use vstd::prelude::*;

use crate::error::PlayError;

verus! {

broadcast use vstd::std_specs::hash::group_hash_axioms;

/// The name stored for `f` in the table `m`, if any.
pub open spec fn lookup(m: Map<u64, Seq<char>>, f: u64) -> Option<Seq<char>> {
    if m.contains_key(f) {
        Some(m[f])
    } else {
        None
    }
}

/// The view of an optional name.
pub open spec fn name_view(o: Option<String>) -> Option<Seq<char>> {
    match o {
        Some(s) => Some(s@),
        None => None,
    }
}

/// What `ron` reads from `text` as a table of fingerprints and names, or `None`
/// where the text is no such table.
pub uninterp spec fn ron_table(text: Seq<char>) -> Option<Map<u64, Seq<char>>>;

#[verifier::external_type_specification]
#[verifier::external_body]
pub struct ExRonError(ron::Error);

#[verifier::external_type_specification]
#[verifier::external_body]
pub struct ExRonSpannedError(ron::error::SpannedError);

/// Relies on `ron::from_str` for a `HashMap<u64, String>`: the table it reads
/// depends on the text alone.
#[verifier::external_body]
fn ron_read(text: &str) -> (r: Result<HashMap<u64, String>, ron::error::SpannedError>)
    ensures
        match r {
            Ok(m) => ron_table(text@) == Some(m@.map_values(|s: String| s@)),
            Err(_) => ron_table(text@) is None,
        },
{
    ron::from_str(text)
}

/// Relies on `ron::to_string` for a `HashMap<u64, String>`: keys are written
/// as integers and names as escaped strings, which `ron::from_str` reads back
/// as the same table, whatever order the map is walked in; a table this
/// shallow cannot fail to serialise.
#[verifier::external_body]
fn ron_write(m: &HashMap<u64, String>) -> (r: Result<String, ron::Error>)
    ensures
        r is Ok,
        r matches Ok(t) ==> ron_table(t@) == Some(m@.map_values(|s: String| s@)),
{
    ron::to_string(m)
}

/// Lookup is a function of the table and the fingerprint alone: it finds the
/// stored name exactly where the table holds the fingerprint.
pub proof fn lemma_lookup_repeatable(m: Map<u64, Seq<char>>, f: u64)
    ensures
        lookup(m, f) is Some <==> m.contains_key(f),
        lookup(m, f) is Some ==> lookup(m, f)->0 == m[f],
{
}

/// A name written for a fingerprint is what a lookup of it then returns.
pub proof fn lemma_put_then_get(m: Map<u64, Seq<char>>, f: u64, n: Seq<char>)
    ensures
        lookup(m.insert(f, n), f) == Some(n),
        forall|g: u64| g != f ==> lookup(m.insert(f, n), g) == lookup(m, g),
{
}

/// The last of two writes for one fingerprint wins, and the first leaves no trace.
pub proof fn lemma_overwrite(m: Map<u64, Seq<char>>, f: u64, n1: Seq<char>, n2: Seq<char>)
    ensures
        lookup(m.insert(f, n1).insert(f, n2), f) == Some(n2),
        m.insert(f, n1).insert(f, n2) == m.insert(f, n2),
{
    assert(m.insert(f, n1).insert(f, n2) =~= m.insert(f, n2));
}

/// The remembered answers: image fingerprint to the name that was correct.
pub struct AnswerStore {
    entries: HashMap<u64, String>,
}

impl View for AnswerStore {
    type V = Map<u64, Seq<char>>;

    closed spec fn view(&self) -> Map<u64, Seq<char>> {
        self.entries@.map_values(|s: String| s@)
    }
}

impl AnswerStore {
    /// An empty store.
    pub fn new() -> (r: AnswerStore)
        ensures
            r@ == Map::<u64, Seq<char>>::empty(),
            r@.dom().finite(),
    {
        let r = AnswerStore { entries: HashMap::new() };
        assert(r@ =~= Map::<u64, Seq<char>>::empty());
        r
    }

    /// The name remembered for `fingerprint`; reading changes nothing.
    pub fn get(&self, fingerprint: u64) -> (r: Option<String>)
        ensures
            name_view(r) == lookup(self@, fingerprint),
    {
        match self.entries.get(&fingerprint) {
            Some(name) => Some(name.clone()),
            None => None,
        }
    }

    /// Remembers `name` for `fingerprint`, replacing what was there.
    pub fn put(&mut self, fingerprint: u64, name: String)
        ensures
            final(self)@ == old(self)@.insert(fingerprint, name@),
            final(self)@.dom().finite(),
    {
        let ghost name_v = name@;
        self.entries.insert(fingerprint, name);
        assert(self@ =~= old(self)@.insert(fingerprint, name_v));
        proof {
            self.lemma_view_finite();
        }
    }

    /// The table is finite in every state.
    pub proof fn lemma_view_finite(&self)
        ensures
            self@.dom().finite(),
    {
        assert(self@.dom() =~= self.entries@.dom());
    }

    /// The number of fingerprints remembered.
    pub fn len(&self) -> (r: usize)
        ensures
            r == self@.len(),
            self@.dom().finite(),
    {
        assert(self@.dom() =~= self.entries@.dom());
        self.entries.len()
    }

    /// Reads a store from its persisted text: `StorageCorrupt` exactly when the
    /// text is not a table of fingerprints and names.
    pub fn decode(text: &str) -> (r: Result<AnswerStore, PlayError>)
        ensures
            match r {
                Ok(s) => ron_table(text@) == Some(s@) && s@.dom().finite(),
                Err(e) => e == PlayError::StorageCorrupt && ron_table(text@) is None,
            },
    {
        match ron_read(text) {
            Ok(entries) => {
                let r = AnswerStore { entries };
                proof {
                    r.lemma_view_finite();
                }
                Ok(r)
            },
            Err(_) => Err(PlayError::StorageCorrupt),
        }
    }

    /// Loads a store from the persisted text, where there is one: with none the
    /// store starts empty.
    pub fn load_from(text: Option<&str>) -> (r: Result<AnswerStore, PlayError>)
        ensures
            match text {
                None => r matches Ok(s) && s@ == Map::<u64, Seq<char>>::empty(),
                Some(t) => match r {
                    Ok(s) => ron_table(t@) == Some(s@) && s@.dom().finite(),
                    Err(e) => e == PlayError::StorageCorrupt && ron_table(t@) is None,
                },
            },
    {
        match text {
            None => Ok(AnswerStore::new()),
            Some(t) => AnswerStore::decode(t),
        }
    }

    /// The whole table as persisted text, which reads back as the same table.
    pub fn encode(&self) -> (r: Result<String, PlayError>)
        ensures
            r matches Ok(t) && ron_table(t@) == Some(self@),
    {
        match ron_write(&self.entries) {
            Ok(text) => Ok(text),
            Err(_) => Err(PlayError::StorageWriteError),
        }
    }
}

} // verus!
