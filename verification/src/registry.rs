//! The plugin registry: a mapping from a plugin identity to the constructor
//! of its family. Populated once at startup, read-only afterwards.

use vstd::prelude::*;
use vstd::string::StringExecFns;
use crate::keys::PluginKey;
use crate::keys::PluginKind;
use crate::plugin::Constructor;

verus! {

/// The mapping a list of registry entries denotes; later entries would win,
/// but a well-formed registry never holds a key twice.
pub open spec fn map_of(
    s: Seq<((PluginKind, Seq<char>), Constructor)>,
) -> Map<(PluginKind, Seq<char>), Constructor>
    decreases s.len(),
{
    if s.len() == 0 {
        Map::empty()
    } else {
        map_of(s.drop_last()).insert(s.last().0, s.last().1)
    }
}

/// Whether some entry carries the key.
pub open spec fn has_key(
    s: Seq<((PluginKind, Seq<char>), Constructor)>,
    k: (PluginKind, Seq<char>),
) -> bool {
    exists|i: int| 0 <= i < s.len() && s[i].0 == k
}

pub proof fn lemma_map_of_contains(
    s: Seq<((PluginKind, Seq<char>), Constructor)>,
    k: (PluginKind, Seq<char>),
)
    ensures
        map_of(s).contains_key(k) <==> has_key(s, k),
    decreases s.len(),
{
    if s.len() > 0 {
        lemma_map_of_contains(s.drop_last(), k);
        if k == s.last().0 {
            assert(s[s.len() - 1].0 == k);
            assert(has_key(s, k));
        } else {
            if map_of(s).contains_key(k) {
                let i = choose|i: int| 0 <= i < s.drop_last().len() && s.drop_last()[i].0 == k;
                assert(s.drop_last()[i] == s[i]);
                assert(has_key(s, k));
            }
            if has_key(s, k) {
                let i = choose|i: int| 0 <= i < s.len() && s[i].0 == k;
                assert(i < s.len() - 1);
                assert(s.drop_last()[i] == s[i]);
                assert(has_key(s.drop_last(), k));
            }
        }
    }
}

pub proof fn lemma_map_of_index(s: Seq<((PluginKind, Seq<char>), Constructor)>, i: int)
    requires
        0 <= i < s.len(),
        forall|p: int, q: int| 0 <= p < q < s.len() ==> s[p].0 != s[q].0,
    ensures
        map_of(s).contains_key(s[i].0),
        map_of(s)[s[i].0] == s[i].1,
    decreases s.len(),
{
    if i == s.len() - 1 {
    } else {
        assert(s.drop_last()[i] == s[i]);
        lemma_map_of_index(s.drop_last(), i);
        assert(s[i].0 != s.last().0);
    }
}

/// The registry: plugin identities paired with their families' constructors.
pub struct Registry {
    entries: Vec<(PluginKey, Constructor)>,
}

impl Registry {
    /// The entries as identity/constructor pairs, in registration order.
    pub closed spec fn entries_seq(&self) -> Seq<((PluginKind, Seq<char>), Constructor)> {
        self.entries@.map_values(|p: (PluginKey, Constructor)| (p.0@, p.1))
    }

    /// The mapping this registry denotes.
    pub open spec fn view(&self) -> Map<(PluginKind, Seq<char>), Constructor> {
        map_of(self.entries_seq())
    }

    /// No identity is registered twice.
    pub open spec fn wf(&self) -> bool {
        forall|p: int, q: int|
            0 <= p < q < self.entries_seq().len() ==> self.entries_seq()[p].0
                != self.entries_seq()[q].0
    }

    /// An empty registry.
    pub fn new() -> (r: Registry)
        ensures
            r.wf(),
            r@ == Map::<(PluginKind, Seq<char>), Constructor>::empty(),
    {
        Registry { entries: Vec::new() }
    }

    /// Resolves an identity to the constructor registered under it; a pure
    /// read, yielding nothing for an unregistered identity.
    pub fn lookup(&self, key: &PluginKey) -> (r: Option<Constructor>)
        requires
            self.wf(),
        ensures
            r == if self@.contains_key(key@) {
                Some(self@[key@])
            } else {
                None::<Constructor>
            },
    {
        proof {
            lemma_map_of_contains(self.entries_seq(), key@);
        }
        let n = self.entries.len();
        let mut i: usize = 0;
        while i < n
            invariant
                0 <= i <= n,
                n == self.entries@.len(),
                self.wf(),
                forall|j: int| 0 <= j < i ==> self.entries_seq()[j].0 != key@,
                self@.contains_key(key@) <==> has_key(self.entries_seq(), key@),
            decreases n - i,
        {
            let entry = &self.entries[i];
            if entry.0.same_key(key) {
                proof {
                    lemma_map_of_index(self.entries_seq(), i as int);
                }
                return Some(entry.1);
            }
            i = i + 1;
        }
        proof {
            assert(!has_key(self.entries_seq(), key@));
        }
        None
    }

    /// Registers a constructor under an identity, unless that identity is
    /// already taken; reports whether the entry was added. Meant to run at
    /// process start, before any configuration is loaded.
    pub fn register(&mut self, kind: PluginKind, plugin_type: String, constructor: Constructor) -> (added: bool)
        requires
            old(self).wf(),
        ensures
            final(self).wf(),
            added <==> !old(self)@.contains_key((kind, plugin_type@)),
            added ==> final(self)@ == old(self)@.insert((kind, plugin_type@), constructor),
            !added ==> final(self)@ == old(self)@,
    {
        let key = PluginKey::new(kind, plugin_type);
        if self.lookup(&key).is_some() {
            return false;
        }
        self.entries.push((key, constructor));
        proof {
            let s = self.entries_seq();
            let olds = old(self).entries_seq();
            assert(s.len() == olds.len() + 1);
            assert(s.drop_last() =~= olds);
            assert(s.last().0 == (kind, plugin_type@));
            lemma_map_of_contains(olds, (kind, plugin_type@));
            assert(!has_key(olds, (kind, plugin_type@)));
            assert forall|p: int, q: int| 0 <= p < q < s.len() implies s[p].0 != s[q].0 by {
                if q < s.len() - 1 {
                    assert(s[p] == olds[p]);
                    assert(s[q] == olds[q]);
                } else {
                    assert(s[p] == olds[p]);
                    if s[p].0 == s[q].0 {
                        assert(olds[p].0 == (kind, plugin_type@));
                        assert(has_key(olds, (kind, plugin_type@)));
                    }
                }
            }
            assert(map_of(s) == map_of(olds).insert((kind, plugin_type@), constructor));
        }
        true
    }

    /// How many identities are registered.
    pub fn count(&self) -> (n: usize)
        ensures
            n == self.entries_seq().len(),
    {
        self.entries.len()
    }

    /// The registered identities, in registration order; what a usage screen
    /// lists.
    pub fn keys(&self) -> (v: Vec<PluginKey>)
        ensures
            v@.len() == self.entries_seq().len(),
            forall|i: int| 0 <= i < v@.len() ==> v@[i]@ == self.entries_seq()[i].0,
    {
        let n = self.entries.len();
        let mut v: Vec<PluginKey> = Vec::new();
        let mut i: usize = 0;
        while i < n
            invariant
                0 <= i <= n,
                n == self.entries@.len(),
                v@.len() == i,
                forall|j: int| 0 <= j < i ==> v@[j]@ == self.entries_seq()[j].0,
            decreases n - i,
        {
            v.push(self.entries[i].0.duplicate());
            i = i + 1;
        }
        v
    }
}

/// The registry of all built-in plugin families, as the agent builds it at
/// startup.
pub fn load_plugins() -> (r: Registry)
    ensures
        r.wf(),
        r@ == Map::<(PluginKind, Seq<char>), Constructor>::empty().insert(
            (PluginKind::Sensor, "heartbeat"@),
            Constructor::Heartbeat,
        ).insert((PluginKind::Sensor, "threshold"@), Constructor::Threshold),
{
    let mut r = Registry::new();
    let added_heartbeat = r.register(
        PluginKind::Sensor,
        String::from_str("heartbeat"),
        Constructor::Heartbeat,
    );
    let added_threshold = r.register(
        PluginKind::Sensor,
        String::from_str("threshold"),
        Constructor::Threshold,
    );
    proof {
        reveal_strlit("heartbeat");
        reveal_strlit("threshold");
        assert(("heartbeat"@)[0] != ("threshold"@)[0]);
        assert(added_heartbeat);
        assert(added_threshold);
        assert(r@ =~= Map::<(PluginKind, Seq<char>), Constructor>::empty().insert(
            (PluginKind::Sensor, "heartbeat"@),
            Constructor::Heartbeat,
        ).insert((PluginKind::Sensor, "threshold"@), Constructor::Threshold));
    }
    r
}

} // verus!
