//! Plugin identities: the two-level `kind:type` key under which a plugin is
//! registered and looked up, and the grammar that parses such a token.

use vstd::prelude::*;
use vstd::string::StrSliceExecFns;
use vstd::string::StringExecFns;

verus! {

/// The enumerated category of a plugin.
#[derive(Clone, Copy, Debug, PartialEq, Eq, Structural)]
pub enum PluginKind {
    /// A plugin that observes something.
    Sensor,
    /// A plugin that ships observations somewhere.
    Output,
}

/// A plugin's identity: its category together with its variant name,
/// written `kind:type` in configuration (for example `sensor:cpu`).
#[derive(Clone, Debug)]
pub struct PluginKey {
    pub kind: PluginKind,
    pub plugin_type: String,
}

impl PluginKey {
    /// The mathematical identity this key stands for.
    pub open spec fn view(&self) -> (PluginKind, Seq<char>) {
        (self.kind, self.plugin_type@)
    }

    pub fn new(kind: PluginKind, plugin_type: String) -> (k: PluginKey)
        ensures
            k@ == (kind, plugin_type@),
    {
        PluginKey { kind, plugin_type }
    }

    /// A copy of this key that stands for the same identity.
    pub fn duplicate(&self) -> (k: PluginKey)
        ensures
            k@ == self@,
    {
        PluginKey { kind: self.kind, plugin_type: self.plugin_type.clone() }
    }

    /// Structural equality on the identity pair.
    pub fn same_key(&self, other: &PluginKey) -> (r: bool)
        ensures
            r <==> self@ == other@,
    {
        let kinds_match = match (self.kind, other.kind) {
            (PluginKind::Sensor, PluginKind::Sensor) => true,
            (PluginKind::Output, PluginKind::Output) => true,
            _ => false,
        };
        if kinds_match && self.plugin_type == other.plugin_type {
            assert(self@ == other@);
            true
        } else {
            assert(self@ != other@);
            false
        }
    }
}

/// The category a kind name denotes, if any.
pub open spec fn kind_for_name(s: Seq<char>) -> Option<PluginKind> {
    if s == "sensor"@ {
        Some(PluginKind::Sensor)
    } else if s == "output"@ {
        Some(PluginKind::Output)
    } else {
        None
    }
}

/// Splits a token at its first colon: the part before it and the part after.
pub open spec fn colon_split(t: Seq<char>) -> Option<(Seq<char>, Seq<char>)>
    decreases t.len(),
{
    if t.len() == 0 {
        None
    } else if t[0] == ':' {
        Some((Seq::empty(), t.subrange(1, t.len() as int)))
    } else {
        match colon_split(t.subrange(1, t.len() as int)) {
            None => None,
            Some((before, after)) => Some((seq![t[0]] + before, after)),
        }
    }
}

/// The `kind:type` grammar: a known kind name, a colon, and a nonempty
/// variant name (everything after the first colon).
pub open spec fn parse_key_spec(t: Seq<char>) -> Option<(PluginKind, Seq<char>)> {
    match colon_split(t) {
        None => None,
        Some((kind_part, name_part)) => match kind_for_name(kind_part) {
            None => None,
            Some(kind) => if name_part.len() > 0 {
                Some((kind, name_part))
            } else {
                None
            },
        },
    }
}

proof fn lemma_colon_split_at(t: Seq<char>, i: int)
    requires
        0 <= i < t.len(),
        t[i] == ':',
        forall|j: int| 0 <= j < i ==> t[j] != ':',
    ensures
        colon_split(t) == Some((t.subrange(0, i), t.subrange(i + 1, t.len() as int))),
    decreases i,
{
    if i == 0 {
        assert(t.subrange(0, 0) =~= Seq::<char>::empty());
    } else {
        let rest = t.subrange(1, t.len() as int);
        lemma_colon_split_at(rest, i - 1);
        assert(seq![t[0]] + rest.subrange(0, i - 1) =~= t.subrange(0, i));
        assert(rest.subrange(i, rest.len() as int) =~= t.subrange(i + 1, t.len() as int));
    }
}

proof fn lemma_colon_split_none(t: Seq<char>)
    requires
        forall|j: int| 0 <= j < t.len() ==> t[j] != ':',
    ensures
        colon_split(t) is None,
    decreases t.len(),
{
    if t.len() > 0 {
        lemma_colon_split_none(t.subrange(1, t.len() as int));
    }
}

/// Parses a `kind:type` token (for example `sensor:cpu`) into a structured
/// key, or nothing when the grammar rejects the token.
pub fn parse_plugin_key(token: &str) -> (r: Option<PluginKey>)
    ensures
        r matches Some(k) ==> parse_key_spec(token@) == Some(k@),
        r is None ==> parse_key_spec(token@) is None,
{
    let n = token.unicode_len();
    let mut i: usize = 0;
    while i < n && token.get_char(i) != ':'
        invariant
            0 <= i <= n,
            n == token@.len(),
            forall|j: int| 0 <= j < i ==> token@[j] != ':',
        decreases n - i,
    {
        i = i + 1;
    }
    if i == n {
        proof {
            lemma_colon_split_none(token@);
        }
        return None;
    }
    proof {
        lemma_colon_split_at(token@, i as int);
    }
    if i + 1 == n {
        // empty variant name
        return None;
    }
    let kind_part = token.substring_char(0, i);
    let name_part = token.substring_char(i + 1, n);
    let kind_owned: String = kind_part.to_owned();
    let kind = if kind_owned == String::from_str("sensor") {
        PluginKind::Sensor
    } else if kind_owned == String::from_str("output") {
        PluginKind::Output
    } else {
        return None;
    };
    Some(PluginKey { kind, plugin_type: name_part.to_owned() })
}

} // verus!
