//! The in-process store of login attempts in flight, keyed by the device's
//! public key. At most one attempt is kept per key.
use vstd::prelude::*;

use crate::model::{Device, MfaMethod, User, WireguardNetwork};

verus! {

/// A login attempt between `start` and a successful `finish`: snapshots of
/// the location, device and user taken when it started, and the method chosen.
#[derive(Debug)]
pub struct ClientLoginSession {
    pub method: MfaMethod,
    pub location: WireguardNetwork,
    pub device: Device,
    pub user: User,
}

/// The map that a list of entries stands for; a later entry wins.
pub open spec fn map_of(entries: Seq<(String, ClientLoginSession)>) -> Map<
    Seq<char>,
    ClientLoginSession,
>
    decreases entries.len(),
{
    if entries.len() == 0 {
        Map::empty()
    } else {
        map_of(entries.drop_last()).insert(entries.last().0@, entries.last().1)
    }
}

pub open spec fn keys_unique(entries: Seq<(String, ClientLoginSession)>) -> bool {
    forall|i: int, j: int|
        0 <= i < j < entries.len() ==> #[trigger] entries[i].0@ != #[trigger] entries[j].0@
}

proof fn lemma_absent(entries: Seq<(String, ClientLoginSession)>, key: Seq<char>)
    requires
        forall|i: int| 0 <= i < entries.len() ==> #[trigger] entries[i].0@ != key,
    ensures
        !map_of(entries).contains_key(key),
    decreases entries.len(),
{
    if entries.len() > 0 {
        let rest = entries.drop_last();
        assert forall|i: int| 0 <= i < rest.len() implies #[trigger] rest[i].0@ != key by {
            assert(rest[i] == entries[i]);
        }
        lemma_absent(rest, key);
    }
}

proof fn lemma_present(entries: Seq<(String, ClientLoginSession)>, i: int)
    requires
        keys_unique(entries),
        0 <= i < entries.len(),
    ensures
        map_of(entries).contains_key(entries[i].0@),
        map_of(entries)[entries[i].0@] == entries[i].1,
    decreases entries.len(),
{
    let rest = entries.drop_last();
    if i < entries.len() - 1 {
        assert(keys_unique(rest)) by {
            assert forall|a: int, b: int| 0 <= a < b < rest.len() implies #[trigger] rest[a].0@
                != #[trigger] rest[b].0@ by {
                assert(rest[a] == entries[a] && rest[b] == entries[b]);
            }
        }
        assert(rest[i] == entries[i]);
        lemma_present(rest, i);
        assert(entries[i].0@ != entries[entries.len() - 1].0@);
    }
}

proof fn lemma_unique_rest(entries: Seq<(String, ClientLoginSession)>)
    requires
        keys_unique(entries),
        entries.len() > 0,
    ensures
        keys_unique(entries.drop_last()),
        !map_of(entries.drop_last()).contains_key(entries.last().0@),
{
    let rest = entries.drop_last();
    assert forall|a: int, b: int| 0 <= a < b < rest.len() implies #[trigger] rest[a].0@
        != #[trigger] rest[b].0@ by {
        assert(rest[a] == entries[a] && rest[b] == entries[b]);
    }
    assert forall|a: int| 0 <= a < rest.len() implies #[trigger] rest[a].0@
        != entries.last().0@ by {
        assert(rest[a] == entries[a]);
    }
    lemma_absent(rest, entries.last().0@);
}

proof fn lemma_update(
    entries: Seq<(String, ClientLoginSession)>,
    i: int,
    entry: (String, ClientLoginSession),
)
    requires
        keys_unique(entries),
        0 <= i < entries.len(),
        entry.0@ == entries[i].0@,
    ensures
        map_of(entries.update(i, entry)) == map_of(entries).insert(entry.0@, entry.1),
        keys_unique(entries.update(i, entry)),
    decreases entries.len(),
{
    let updated = entries.update(i, entry);
    let rest = entries.drop_last();
    lemma_unique_rest(entries);
    if i == entries.len() - 1 {
        assert(updated.drop_last() =~= rest);
        assert(map_of(updated) =~= map_of(entries).insert(entry.0@, entry.1));
    } else {
        lemma_update(rest, i, entry);
        assert(updated.drop_last() =~= rest.update(i, entry));
        assert(entries.last().0@ != entry.0@);
        assert(map_of(updated) =~= map_of(entries).insert(entry.0@, entry.1));
    }
    assert forall|a: int, b: int| 0 <= a < b < updated.len() implies #[trigger] updated[a].0@
        != #[trigger] updated[b].0@ by {
        assert(entries[a].0@ != entries[b].0@);
    }
}

proof fn lemma_remove(entries: Seq<(String, ClientLoginSession)>, i: int)
    requires
        keys_unique(entries),
        0 <= i < entries.len(),
    ensures
        map_of(entries.remove(i)) == map_of(entries).remove(entries[i].0@),
        keys_unique(entries.remove(i)),
    decreases entries.len(),
{
    let removed = entries.remove(i);
    let rest = entries.drop_last();
    let key = entries[i].0@;
    lemma_unique_rest(entries);
    if i == entries.len() - 1 {
        assert(removed =~= rest);
        assert(map_of(removed) =~= map_of(entries).remove(key));
    } else {
        lemma_remove(rest, i);
        assert(removed.drop_last() =~= rest.remove(i));
        assert(removed.last() == entries.last());
        assert(rest[i] == entries[i]);
        assert(entries.last().0@ != key);
        assert(map_of(removed) =~= map_of(entries).remove(key));
    }
    assert forall|a: int, b: int| 0 <= a < b < removed.len() implies #[trigger] removed[a].0@
        != #[trigger] removed[b].0@ by {
        if a < i {
            if b < i {
                assert(entries[a].0@ != entries[b].0@);
            } else {
                assert(entries[a].0@ != entries[b + 1].0@);
            }
        } else {
            assert(entries[a + 1].0@ != entries[b + 1].0@);
        }
    }
}

/// Login attempts in flight, by public key.
///
/// The entries are a vector with unique keys rather than a `HashMap`: vstd
/// specifies a hash map only for keys that obey its key model, which it
/// grants integer keys but not `String`, so a `String`-keyed map would come
/// with no usable contract.
pub struct SessionStore {
    entries: Vec<(String, ClientLoginSession)>,
}

impl View for SessionStore {
    type V = Map<Seq<char>, ClientLoginSession>;

    closed spec fn view(&self) -> Map<Seq<char>, ClientLoginSession> {
        map_of(self.entries@)
    }
}

impl SessionStore {
    /// No two entries share a key.
    pub closed spec fn wf(&self) -> bool {
        keys_unique(self.entries@)
    }

    pub fn new() -> (r: SessionStore)
        ensures
            r.wf(),
            r@ == Map::<Seq<char>, ClientLoginSession>::empty(),
    {
        SessionStore { entries: Vec::new() }
    }

    fn index_of(&self, key: &str) -> (r: Option<usize>)
        ensures
            r matches Some(i) ==> i < self.entries@.len() && self.entries@[i as int].0@ == key@,
            r is None ==> forall|i: int|
                0 <= i < self.entries@.len() ==> #[trigger] self.entries@[i].0@ != key@,
    {
        let wanted = key.to_owned();
        let mut i: usize = 0;
        while i < self.entries.len()
            invariant
                i <= self.entries@.len(),
                wanted@ == key@,
                forall|k: int| 0 <= k < i ==> #[trigger] self.entries@[k].0@ != key@,
            decreases self.entries@.len() - i,
        {
            if self.entries[i].0 == wanted {
                return Some(i);
            }
            i = i + 1;
        }
        None
    }

    /// The attempt in flight for `key`, if any.
    pub fn get(&self, key: &str) -> (r: Option<&ClientLoginSession>)
        requires
            self.wf(),
        ensures
            r matches Some(s) ==> self@.contains_key(key@) && self@[key@] == *s,
            r is None ==> !self@.contains_key(key@),
    {
        match self.index_of(key) {
            Some(i) => {
                proof {
                    lemma_present(self.entries@, i as int);
                }
                Some(&self.entries[i].1)
            },
            None => {
                proof {
                    lemma_absent(self.entries@, key@);
                }
                None
            },
        }
    }

    /// Stores `session` under `key`, replacing any attempt already there.
    pub fn insert(&mut self, key: String, session: ClientLoginSession)
        requires
            old(self).wf(),
        ensures
            final(self).wf(),
            final(self)@ == old(self)@.insert(key@, session),
    {
        let key_str = key.as_str();
        let found = self.index_of(key_str);
        assert(key_str@ == key@);
        match found {
            Some(i) => {
                proof {
                    lemma_update(self.entries@, i as int, (key, session));
                }
                self.entries.set(i, (key, session));
            },
            None => {
                proof {
                    lemma_absent(self.entries@, key@);
                    let e = self.entries@.push((key, session));
                    assert(e.drop_last() =~= self.entries@);
                    assert forall|a: int, b: int| 0 <= a < b < e.len() implies #[trigger] e[a].0@
                        != #[trigger] e[b].0@ by {
                        if b < e.len() - 1 {
                            assert(self.entries@[a].0@ != self.entries@[b].0@);
                        } else {
                            assert(self.entries@[a].0@ != key@);
                        }
                    }
                }
                self.entries.push((key, session));
            },
        }
    }

    /// Takes the attempt for `key` out of the store.
    pub fn remove(&mut self, key: &str) -> (r: Option<ClientLoginSession>)
        requires
            old(self).wf(),
        ensures
            final(self).wf(),
            final(self)@ == old(self)@.remove(key@),
            r matches Some(s) ==> old(self)@.contains_key(key@) && old(self)@[key@] == s,
            r is None ==> !old(self)@.contains_key(key@),
    {
        match self.index_of(key) {
            Some(i) => {
                proof {
                    lemma_present(self.entries@, i as int);
                    lemma_remove(self.entries@, i as int);
                }
                let (_, session) = self.entries.remove(i);
                Some(session)
            },
            None => {
                proof {
                    lemma_absent(self.entries@, key@);
                    assert(self@.remove(key@) =~= self@);
                }
                None
            },
        }
    }
}

} // verus!
