//! Agent startup glue: binding every constructed plugin to the shared
//! execution environment before any scheduling begins.

use vstd::prelude::*;
use crate::errors::Error;
use crate::plugin::Framework;
use crate::plugin::Plugin;
use crate::plugin::PluginInstance;

verus! {

/// Binds every constructed plugin to the execution environment, in order,
/// producing the live instance collection; called exactly once, at startup,
/// before the first round. A bind failure would abort startup, and no
/// built-in family has one.
pub fn bind_all(plugins: Vec<Plugin>, environment: &Framework) -> (r: Result<
    Vec<PluginInstance>,
    Error,
>)
    ensures
        r matches Ok(instances) && {
            &&& instances@.len() == plugins@.len()
            &&& forall|i: int|
                0 <= i < instances@.len() ==> (#[trigger] instances@[i])@ == plugins@[i]@
        },
{
    let ghost orig = plugins@;
    let mut rest = plugins;
    let mut instances: Vec<PluginInstance> = Vec::new();
    while rest.len() > 0
        invariant
            instances@.len() + rest@.len() == orig.len(),
            rest@ =~= orig.subrange(instances@.len() as int, orig.len() as int),
            forall|i: int|
                0 <= i < instances@.len() ==> (#[trigger] instances@[i])@ == orig[i]@,
        decreases rest@.len(),
    {
        let plugin = rest.remove(0);
        proof {
            assert(plugin == orig[instances@.len() as int]);
        }
        match plugin.setup(environment) {
            Ok(instance) => {
                instances.push(instance);
            },
            Err(failure) => {
                return Err(failure);
            },
        }
    }
    Ok(instances)
}

} // verus!
