//! Loading configured plugins: resolving each section's `type` token against
//! the registry and constructing the plugin it names. Within one file the
//! loader fails fast at the first bad section, wrapped with that section's
//! name; across files every file is attempted and each failure is wrapped
//! with its file's path.

use vstd::pervasive::arbitrary;
use vstd::prelude::*;
use crate::config::get_str_field;
use crate::config::parse_sections;
use crate::config::sections_view;
use crate::config::str_field_of;
use crate::config::toml_parse_of;
use crate::errors::Error;
use crate::keys::parse_key_spec;
use crate::keys::parse_plugin_key;
use crate::keys::PluginKind;
use crate::plugin::Constructor;
use crate::plugin::Plugin;
use crate::plugin::PluginModel;
use crate::registry::Registry;

verus! {

/// The `type` field of a section, the token that names its plugin.
pub open spec fn section_plugin_type(v: toml::Value) -> Option<Seq<char>> {
    str_field_of(v, "type"@)
}

/// How one section fares against a registry mapping.
pub enum SectionFate {
    /// The section has no string `type` field.
    BadShape,
    /// The `type` token does not fit the `kind:type` grammar.
    BadToken { token: Seq<char> },
    /// The key is well-formed but nothing is registered under it.
    Unregistered { key: (PluginKind, Seq<char>) },
    /// The family's constructor rejects the section's fields.
    BadFields { key: (PluginKind, Seq<char>) },
    /// The section constructs this plugin.
    Loads { model: PluginModel },
}

/// Classifies one section against a registry mapping.
pub open spec fn section_fate(
    reg: Map<(PluginKind, Seq<char>), Constructor>,
    v: toml::Value,
) -> SectionFate {
    match section_plugin_type(v) {
        None => SectionFate::BadShape,
        Some(token) => match parse_key_spec(token) {
            None => SectionFate::BadToken { token },
            Some(key) => if !reg.contains_key(key) {
                SectionFate::Unregistered { key }
            } else {
                match reg[key].construct_spec(key, v) {
                    None => SectionFate::BadFields { key },
                    Some(model) => SectionFate::Loads { model },
                }
            },
        },
    }
}

pub open spec fn section_loads(
    reg: Map<(PluginKind, Seq<char>), Constructor>,
    v: toml::Value,
) -> bool {
    section_fate(reg, v) is Loads
}

/// The plugin a loading section constructs.
pub open spec fn section_model(
    reg: Map<(PluginKind, Seq<char>), Constructor>,
    v: toml::Value,
) -> PluginModel {
    match section_fate(reg, v) {
        SectionFate::Loads { model } => model,
        _ => arbitrary(),
    }
}

/// Whether an error is the one a section with the given fate produces.
pub open spec fn error_matches_fate(e: Error, fate: SectionFate) -> bool {
    match fate {
        SectionFate::BadShape => e is Decode,
        SectionFate::BadToken { token } => e matches Error::KeySyntax { token: t } && t@ == token,
        SectionFate::Unregistered { key } => e matches Error::MissingPlugin { key: k } && k@
            == key,
        SectionFate::BadFields { .. } => e is Decode,
        SectionFate::Loads { .. } => false,
    }
}

/// Resolves a `type` token against the registry and constructs the plugin it
/// names from the section: an ill-formed token, an unregistered key, and a
/// section the family's constructor rejects each yield their own error.
pub fn load_instance(registry: &Registry, plugin_type: &String, section: &toml::Value) -> (r:
    Result<Plugin, Error>)
    requires
        registry.wf(),
    ensures
        match parse_key_spec(plugin_type@) {
            None => r matches Err(e) && (e matches Error::KeySyntax { token } && token@
                == plugin_type@),
            Some(key) => if !registry@.contains_key(key) {
                r matches Err(e) && (e matches Error::MissingPlugin { key: k } && k@ == key)
            } else {
                match registry@[key].construct_spec(key, *section) {
                    None => r matches Err(e) && e is Decode,
                    Some(m) => r matches Ok(p) && p@ == m,
                }
            },
        },
{
    match parse_plugin_key(plugin_type.as_str()) {
        None => Err(Error::KeySyntax { token: plugin_type.clone() }),
        Some(key) => match registry.lookup(&key) {
            None => Err(Error::MissingPlugin { key }),
            Some(constructor) => constructor.construct(&key, section),
        },
    }
}

/// Loads the plugin one section configures, or reports why the section is
/// rejected; a section without a string `type` field fails with a decode
/// error.
pub fn load_section(registry: &Registry, section: &toml::Value) -> (r: Result<Plugin, Error>)
    requires
        registry.wf(),
    ensures
        match section_fate(registry@, *section) {
            SectionFate::Loads { model } => r matches Ok(p) && p@ == model,
            fate => r matches Err(e) && error_matches_fate(e, fate),
        },
{
    match get_str_field(section, "type") {
        None => Err(Error::Decode),
        Some(plugin_type) => load_instance(registry, &plugin_type, section),
    }
}

/// The position of the first section that does not load; meaningful only
/// when some section fails.
pub open spec fn first_bad_section(
    reg: Map<(PluginKind, Seq<char>), Constructor>,
    secs: Seq<(Seq<char>, toml::Value)>,
) -> int
    decreases secs.len(),
{
    if secs.len() == 0 {
        0
    } else if !section_loads(reg, secs[0].1) {
        0
    } else {
        1 + first_bad_section(reg, secs.drop_first())
    }
}

proof fn lemma_first_bad_section(
    reg: Map<(PluginKind, Seq<char>), Constructor>,
    secs: Seq<(Seq<char>, toml::Value)>,
    i: int,
)
    requires
        0 <= i < secs.len(),
        forall|j: int| 0 <= j < i ==> section_loads(reg, #[trigger] secs[j].1),
        !section_loads(reg, secs[i].1),
    ensures
        first_bad_section(reg, secs) == i,
    decreases i,
{
    if i > 0 {
        assert(section_loads(reg, secs[0].1));
        let rest = secs.drop_first();
        assert forall|j: int| 0 <= j < i - 1 implies section_loads(reg, #[trigger] rest[j].1) by {
            assert(rest[j] == secs[j + 1]);
        }
        assert(rest[i - 1] == secs[i]);
        lemma_first_bad_section(reg, rest, i - 1);
    }
}

/// Whether all sections of a parsed file load.
pub open spec fn sections_all_load(
    reg: Map<(PluginKind, Seq<char>), Constructor>,
    secs: Seq<(Seq<char>, toml::Value)>,
) -> bool {
    forall|i: int| 0 <= i < secs.len() ==> section_loads(reg, #[trigger] secs[i].1)
}

/// The plugins a fully-loading parsed file constructs, in section order.
pub open spec fn config_models(
    reg: Map<(PluginKind, Seq<char>), Constructor>,
    secs: Seq<(Seq<char>, toml::Value)>,
) -> Seq<PluginModel> {
    secs.map_values(|p: (Seq<char>, toml::Value)| section_model(reg, p.1))
}

/// Whether an error is the one a parsed file with a failing section
/// produces: the first failing section's own failure, wrapped with that
/// section's name.
pub open spec fn config_error_matches(
    reg: Map<(PluginKind, Seq<char>), Constructor>,
    secs: Seq<(Seq<char>, toml::Value)>,
    e: Error,
) -> bool {
    let i = first_bad_section(reg, secs);
    &&& e matches Error::Section { name, cause }
    &&& name@ == secs[i].0
    &&& error_matches_fate(*cause, section_fate(reg, secs[i].1))
}

/// Loads every section of one parsed file, in order, failing fast at the
/// first section that is rejected; the failure is wrapped with the rejected
/// section's name, and no later section is attempted.
pub fn load_sections(registry: &Registry, sections: &Vec<(String, toml::Value)>) -> (r: Result<
    Vec<Plugin>,
    Error,
>)
    requires
        registry.wf(),
    ensures
        r is Ok <==> sections_all_load(registry@, sections_view(sections@)),
        r matches Ok(plugins) ==> {
            &&& plugins@.len() == sections@.len()
            &&& forall|i: int|
                0 <= i < plugins@.len() ==> #[trigger] plugins@[i]@ == section_model(
                    registry@,
                    sections_view(sections@)[i].1,
                )
        },
        r matches Err(e) ==> config_error_matches(registry@, sections_view(sections@), e),
{
    let ghost secs = sections_view(sections@);
    let n = sections.len();
    let mut plugins: Vec<Plugin> = Vec::new();
    let mut i: usize = 0;
    while i < n
        invariant
            registry.wf(),
            0 <= i <= n,
            n == sections@.len(),
            secs == sections_view(sections@),
            secs.len() == n,
            plugins@.len() == i,
            forall|j: int| 0 <= j < i ==> section_loads(registry@, #[trigger] secs[j].1),
            forall|j: int|
                0 <= j < i ==> #[trigger] plugins@[j]@ == section_model(registry@, secs[j].1),
        decreases n - i,
    {
        let entry = &sections[i];
        proof {
            assert(secs[i as int] == (entry.0@, entry.1));
        }
        match load_section(registry, &entry.1) {
            Ok(plugin) => {
                plugins.push(plugin);
            },
            Err(cause) => {
                proof {
                    lemma_first_bad_section(registry@, secs, i as int);
                }
                return Err(Error::Section { name: entry.0.clone(), cause: Box::new(cause) });
            },
        }
        i = i + 1;
    }
    Ok(plugins)
}

/// How one configuration file fares: the text parses and every section
/// loads.
pub open spec fn file_loads(
    reg: Map<(PluginKind, Seq<char>), Constructor>,
    text: Seq<char>,
) -> bool {
    match toml_parse_of(text) {
        None => false,
        Some(secs) => sections_all_load(reg, secs),
    }
}

/// The plugins one fully-loading configuration text constructs.
pub open spec fn file_models(
    reg: Map<(PluginKind, Seq<char>), Constructor>,
    text: Seq<char>,
) -> Seq<PluginModel> {
    match toml_parse_of(text) {
        None => Seq::empty(),
        Some(secs) => config_models(reg, secs),
    }
}

/// Whether an error is the one loading the given configuration text
/// produces.
pub open spec fn file_error_matches(
    reg: Map<(PluginKind, Seq<char>), Constructor>,
    text: Seq<char>,
    e: Error,
) -> bool {
    match toml_parse_of(text) {
        None => e is Parse,
        Some(secs) => config_error_matches(reg, secs, e),
    }
}

/// Parses one configuration text and loads every plugin it configures:
/// syntactically invalid text fails with a parse error carrying the
/// underlying syntax errors; otherwise the sections load in order, failing
/// fast at the first rejected one.
pub fn load_config(registry: &Registry, text: &str) -> (r: Result<Vec<Plugin>, Error>)
    requires
        registry.wf(),
    ensures
        r is Ok <==> file_loads(registry@, text@),
        r matches Ok(plugins) ==> {
            &&& plugins@.len() == file_models(registry@, text@).len()
            &&& forall|i: int|
                0 <= i < plugins@.len() ==> #[trigger] plugins@[i]@ == file_models(
                    registry@,
                    text@,
                )[i]
        },
        r matches Err(e) ==> file_error_matches(registry@, text@, e),
{
    match parse_sections(text) {
        Err(messages) => Err(Error::Parse { messages }),
        Ok(sections) => load_sections(registry, &sections),
    }
}

/// The plugins a list of configuration files constructs, in file order.
pub open spec fn all_models(
    reg: Map<(PluginKind, Seq<char>), Constructor>,
    files: Seq<(String, String)>,
) -> Seq<PluginModel>
    decreases files.len(),
{
    if files.len() == 0 {
        Seq::empty()
    } else {
        all_models(reg, files.drop_last()) + file_models(reg, files.last().1@)
    }
}

/// The positions of the files that fail to load, in order.
pub open spec fn failing_files(
    reg: Map<(PluginKind, Seq<char>), Constructor>,
    files: Seq<(String, String)>,
) -> Seq<int>
    decreases files.len(),
{
    if files.len() == 0 {
        Seq::empty()
    } else if file_loads(reg, files.last().1@) {
        failing_files(reg, files.drop_last())
    } else {
        failing_files(reg, files.drop_last()) + seq![files.len() - 1]
    }
}

/// Whether an error is the one the file at position `idx` produces, wrapped
/// with that file's path.
pub open spec fn wrapped_file_error_matches(
    reg: Map<(PluginKind, Seq<char>), Constructor>,
    files: Seq<(String, String)>,
    idx: int,
    e: Error,
) -> bool {
    &&& e matches Error::File { path, cause }
    &&& path@ == files[idx].0@
    &&& file_error_matches(reg, files[idx].1@, *cause)
}

/// Loads every configuration file as an independent unit: a failure in one
/// file is wrapped with that file's path and does not keep any other file
/// from being attempted. All files load, or the per-file failures are
/// reported together, in file order.
pub fn load_configs(registry: &Registry, files: &Vec<(String, String)>) -> (r: Result<
    Vec<Plugin>,
    Vec<Error>,
>)
    requires
        registry.wf(),
    ensures
        r is Ok <==> forall|i: int|
            0 <= i < files@.len() ==> file_loads(registry@, #[trigger] files@[i].1@),
        r matches Ok(plugins) ==> {
            &&& plugins@.len() == all_models(registry@, files@).len()
            &&& forall|i: int|
                0 <= i < plugins@.len() ==> #[trigger] plugins@[i]@ == all_models(
                    registry@,
                    files@,
                )[i]
        },
        r matches Err(errors) ==> {
            let bad = failing_files(registry@, files@);
            &&& errors@.len() == bad.len()
            &&& errors@.len() > 0
            &&& forall|k: int|
                0 <= k < errors@.len() ==> wrapped_file_error_matches(
                    registry@,
                    files@,
                    bad[k],
                    #[trigger] errors@[k],
                )
        },
{
    let n = files.len();
    let mut loaded: Vec<Plugin> = Vec::new();
    let mut errors: Vec<Error> = Vec::new();
    let mut i: usize = 0;
    while i < n
        invariant
            registry.wf(),
            0 <= i <= n,
            n == files@.len(),
            errors@.len() == 0 <==> forall|j: int|
                0 <= j < i ==> file_loads(registry@, #[trigger] files@[j].1@),
            errors@.len() == 0 ==> {
                &&& loaded@.len() == all_models(registry@, files@.take(i as int)).len()
                &&& forall|j: int|
                    0 <= j < loaded@.len() ==> #[trigger] loaded@[j]@ == all_models(
                        registry@,
                        files@.take(i as int),
                    )[j]
            },
            errors@.len() == failing_files(registry@, files@.take(i as int)).len(),
            forall|k: int|
                0 <= k < errors@.len() ==> wrapped_file_error_matches(
                    registry@,
                    files@,
                    failing_files(registry@, files@.take(i as int))[k],
                    #[trigger] errors@[k],
                ),
        decreases n - i,
    {
        let entry = &files[i];
        let ghost prefix = files@.take(i as int);
        let ghost prefix_next = files@.take(i as int + 1);
        proof {
            assert(prefix_next.drop_last() =~= prefix);
            assert(prefix_next.last() == files@[i as int]);
        }
        match load_config(registry, entry.1.as_str()) {
            Ok(mut plugins) => {
                if errors.len() == 0 {
                    let ghost old_loaded = loaded@;
                    let ghost added = plugins@;
                    loaded.append(&mut plugins);
                    proof {
                        let all_next = all_models(registry@, prefix_next);
                        assert(all_next == all_models(registry@, prefix) + file_models(
                            registry@,
                            files@[i as int].1@,
                        ));
                        assert(loaded@ == old_loaded + added);
                        assert(loaded@.len() == all_next.len());
                        assert forall|j: int| 0 <= j < loaded@.len() implies #[trigger] loaded@[j]@
                            == all_next[j] by {
                            if j < old_loaded.len() {
                                assert(loaded@[j] == old_loaded[j]);
                            } else {
                                assert(loaded@[j] == added[j - old_loaded.len()]);
                            }
                        }
                    }
                }
            },
            Err(cause) => {
                errors.push(Error::File { path: entry.0.clone(), cause: Box::new(cause) });
                proof {
                    assert(failing_files(registry@, prefix_next) =~= failing_files(
                        registry@,
                        prefix,
                    ) + seq![i as int]);
                }
            },
        }
        i = i + 1;
    }
    proof {
        assert(files@.take(n as int) =~= files@);
    }
    if errors.len() == 0 {
        Ok(loaded)
    } else {
        Err(errors)
    }
}

} // verus!
