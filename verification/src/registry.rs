//! The registry of plugins: which generator and output plugins the settings offer, and
//! which generator and output instances have been created from them.
//!
//! An instance is known by its instance id. The first registration of an instance id
//! creates the instance (the caller loads the plugin and keeps the instance under the
//! returned handle); every later registration of that id hands back the same handle, so
//! that all sensors naming one instance share one generator.

use vstd::prelude::*;
use crate::config::{GeneratorPluginConf, GeneratorPluginConfView, OutputPluginConf, OutputPluginConfView};
use crate::generator::GeneratorConfig;
use crate::output::OutputConfig;

verus! {

/// The outcome of a successful registration.
#[derive(Debug, Clone, Copy, PartialEq, Eq)]
pub struct Registration {
    /// The handle of the instance: its position in the order of creation.
    pub handle: usize,
    /// The position, in the settings, of the plugin that the instance was created from.
    pub plugin: usize,
    /// Whether this registration created the instance (the caller must load it now).
    pub created: bool,
}

/// Why a registration was refused.
#[derive(Debug, Clone, Copy, PartialEq, Eq)]
pub enum RegistryError {
    /// The settings offer no generator plugin with the requested id.
    NoGeneratorPlugin,
    /// The settings offer no output plugin with the requested id.
    NoOutputPlugin,
}

/// The position of the first id equal to `id`.
pub open spec fn first_index(ids: Seq<Seq<char>>, id: Seq<char>) -> Option<int>
    decreases ids.len(),
{
    if ids.len() == 0 {
        None
    } else if ids[0] == id {
        Some(0)
    } else {
        match first_index(ids.drop_first(), id) {
            Some(i) => Some(i + 1),
            None => None,
        }
    }
}

/// The instance ids of a table of instances.
pub open spec fn instance_ids(entries: Seq<(Seq<char>, nat)>) -> Seq<Seq<char>> {
    entries.map_values(|e: (Seq<char>, nat)| e.0)
}

/// Whether no instance id occurs twice in a table of instances.
pub open spec fn distinct_instances(entries: Seq<(Seq<char>, nat)>) -> bool {
    forall|i: int, j: int| 0 <= i < j < entries.len() ==> entries[i].0 != entries[j].0
}

/// Registering the instance `instance` of the plugin `plugin_id`: the new table of
/// instances and the outcome. The plugin is looked up first; an unknown plugin is refused
/// even where the instance exists.
pub open spec fn register_in(
    entries: Seq<(Seq<char>, nat)>,
    plugin_ids: Seq<Seq<char>>,
    instance: Seq<char>,
    plugin_id: Seq<char>,
    missing: RegistryError,
) -> (Seq<(Seq<char>, nat)>, Result<Registration, RegistryError>) {
    match first_index(plugin_ids, plugin_id) {
        None => (entries, Err(missing)),
        Some(p) => match first_index(instance_ids(entries), instance) {
            Some(h) => (
                entries,
                Ok(Registration { handle: h as usize, plugin: entries[h].1 as usize, created: false }),
            ),
            None => (
                entries.push((instance, p as nat)),
                Ok(Registration { handle: entries.len() as usize, plugin: p as usize, created: true }),
            ),
        },
    }
}

/// The registry as tables of ids.
pub struct RegistryView {
    /// The generator plugins, in the order of the settings.
    pub generator_plugins: Seq<GeneratorPluginConfView>,
    /// The output plugins, in the order of the settings.
    pub output_plugins: Seq<OutputPluginConfView>,
    /// The generator instances in the order of creation: instance id and plugin position.
    pub generators: Seq<(Seq<char>, nat)>,
    /// The output instances in the order of creation: instance id and plugin position.
    pub outputs: Seq<(Seq<char>, nat)>,
}

/// The plugins that the settings offer and the instances created from them.
pub struct GeneratorPluginRegistry {
    plugins: Vec<GeneratorPluginConf>,
    output_plugins: Vec<OutputPluginConf>,
    generators: Vec<(String, usize)>,
    outputs: Vec<(String, usize)>,
}

/// The ids of a list of generator plugins.
pub open spec fn generator_plugin_ids(plugins: Seq<GeneratorPluginConfView>) -> Seq<Seq<char>> {
    plugins.map_values(|c: GeneratorPluginConfView| c.id)
}

/// The ids of a list of output plugins.
pub open spec fn output_plugin_ids(plugins: Seq<OutputPluginConfView>) -> Seq<Seq<char>> {
    plugins.map_values(|c: OutputPluginConfView| c.id)
}

/// A list of generator plugin settings as plain values.
pub open spec fn generator_confs_view(plugins: Seq<GeneratorPluginConf>) -> Seq<GeneratorPluginConfView> {
    plugins.map_values(|c: GeneratorPluginConf| c@)
}

/// A list of output plugin settings as plain values.
pub open spec fn output_confs_view(plugins: Seq<OutputPluginConf>) -> Seq<OutputPluginConfView> {
    plugins.map_values(|c: OutputPluginConf| c@)
}

/// A table of instances as ids and plugin positions.
pub open spec fn table_view(entries: Seq<(String, usize)>) -> Seq<(Seq<char>, nat)> {
    entries.map_values(|e: (String, usize)| (e.0@, e.1 as nat))
}

impl GeneratorPluginRegistry {
    /// Neither table names an instance twice or a plugin that the settings do not offer.
    #[verifier::type_invariant]
    closed spec fn tables_wf(self) -> bool {
        self@.wf()
    }
}

impl View for GeneratorPluginRegistry {
    type V = RegistryView;

    closed spec fn view(&self) -> RegistryView {
        RegistryView {
            generator_plugins: generator_confs_view(self.plugins@),
            output_plugins: output_confs_view(self.output_plugins@),
            generators: table_view(self.generators@),
            outputs: table_view(self.outputs@),
        }
    }
}

/// Whether a table of instances names no instance twice and only plugins of the settings.
pub open spec fn table_wf(entries: Seq<(Seq<char>, nat)>, plugin_count: nat) -> bool {
    &&& distinct_instances(entries)
    &&& forall|i: int| 0 <= i < entries.len() ==> #[trigger] entries[i].1 < plugin_count
}

impl RegistryView {
    /// Whether both tables name no instance twice and only plugins of the settings.
    pub open spec fn wf(self) -> bool {
        &&& table_wf(self.generators, self.generator_plugins.len())
        &&& table_wf(self.outputs, self.output_plugins.len())
    }
}

proof fn lemma_first_index(ids: Seq<Seq<char>>, id: Seq<char>)
    ensures
        match first_index(ids, id) {
            Some(i) => 0 <= i < ids.len() && ids[i] == id && forall|j: int|
                0 <= j < i ==> ids[j] != id,
            None => forall|j: int| 0 <= j < ids.len() ==> ids[j] != id,
        },
    decreases ids.len(),
{
    if ids.len() > 0 && ids[0] != id {
        let t = ids.drop_first();
        lemma_first_index(t, id);
        assert forall|j: int| 1 <= j < ids.len() implies ids[j] == t[j - 1] by {}
    }
}

/// An item that is found by a text id.
pub trait Keyed {
    /// The id of the item.
    spec fn key(&self) -> Seq<char>;

    /// The id of the item.
    fn key_text(&self) -> (r: &String)
        ensures
            r@ == self.key(),
    ;
}

impl Keyed for GeneratorPluginConf {
    open spec fn key(&self) -> Seq<char> {
        self.id@
    }

    fn key_text(&self) -> (r: &String) {
        &self.id
    }
}

impl Keyed for OutputPluginConf {
    open spec fn key(&self) -> Seq<char> {
        self.id@
    }

    fn key_text(&self) -> (r: &String) {
        &self.id
    }
}

impl Keyed for (String, usize) {
    open spec fn key(&self) -> Seq<char> {
        self.0@
    }

    fn key_text(&self) -> (r: &String) {
        &self.0
    }
}

/// The ids of a list of items.
pub open spec fn keys<T: Keyed>(items: Seq<T>) -> Seq<Seq<char>> {
    items.map_values(|t: T| t.key())
}

/// The position of the first item whose id is `id`.
fn find_by_key<T: Keyed>(items: &Vec<T>, id: &String) -> (r: Option<usize>)
    ensures
        match first_index(keys(items@), id@) {
            Some(i) => r matches Some(k) && k == i,
            None => r is None,
        },
{
    let ghost ids = keys(items@);
    proof {
        lemma_first_index(ids, id@);
    }
    let mut i: usize = 0;
    while i < items.len()
        invariant
            ids == keys(items@),
            i <= items@.len(),
            forall|j: int| 0 <= j < i ==> ids[j] != id@,
            match first_index(ids, id@) {
                Some(k) => 0 <= k < ids.len() && ids[k] == id@ && forall|j: int|
                    0 <= j < k ==> ids[j] != id@,
                None => forall|j: int| 0 <= j < ids.len() ==> ids[j] != id@,
            },
        decreases items@.len() - i,
    {
        assert(ids[i as int] == items@[i as int].key());
        if *items[i].key_text() == *id {
            return Some(i);
        }
        i = i + 1;
    }
    None
}

/// Registers an instance in a table: the table changes as `register_in` says.
fn register_entry(
    entries: &mut Vec<(String, usize)>,
    plugin: Option<usize>,
    instance: &String,
    Ghost(plugin_ids): Ghost<Seq<Seq<char>>>,
    Ghost(plugin_id): Ghost<Seq<char>>,
    missing: RegistryError,
) -> (r: Result<Registration, RegistryError>)
    requires
        plugin_ids.len() <= usize::MAX,
        table_wf(table_view(old(entries)@), plugin_ids.len()),
        match first_index(plugin_ids, plugin_id) {
            Some(i) => plugin matches Some(k) && k == i,
            None => plugin is None,
        },
    ensures
        table_view(final(entries)@) == register_in(
            table_view(old(entries)@),
            plugin_ids,
            instance@,
            plugin_id,
            missing,
        ).0,
        r == register_in(table_view(old(entries)@), plugin_ids, instance@, plugin_id, missing).1,
        table_wf(table_view(final(entries)@), plugin_ids.len()),
{
    proof {
        lemma_first_index(plugin_ids, plugin_id);
        lemma_first_index(instance_ids(table_view(entries@)), instance@);
    }
    match plugin {
        None => Err(missing),
        Some(p) => {
            assert(keys(entries@) =~= instance_ids(table_view(entries@)));
            match find_by_key(entries, instance) {
                Some(h) => {
                    let plugin_of = entries[h].1;
                    Ok(Registration { handle: h, plugin: plugin_of, created: false })
                },
                None => {
                    let handle = entries.len();
                    entries.push((instance.clone(), p));
                    assert(table_view(entries@) =~= table_view(old(entries)@).push(
                        (instance@, p as nat),
                    ));
                    proof {
                        let t = table_view(entries@);
                        assert forall|i: int, j: int| 0 <= i < j < t.len() implies t[i].0
                            != t[j].0 by {
                            if j == t.len() - 1 {
                                assert(instance_ids(table_view(old(entries)@))[i] == t[i].0);
                            }
                        }
                    }
                    Ok(Registration { handle, plugin: p, created: true })
                },
            }
        },
    }
}

impl GeneratorPluginRegistry {
    /// A registry of the plugins that the settings offer, with no instance created yet.
    pub fn init(plugins: Vec<GeneratorPluginConf>, output_plugins: Vec<OutputPluginConf>) -> (r:
        GeneratorPluginRegistry)
        ensures
            r@.generator_plugins == generator_confs_view(plugins@),
            r@.output_plugins == output_confs_view(output_plugins@),
            r@.generators.len() == 0,
            r@.outputs.len() == 0,
            r@.wf(),
    {
        GeneratorPluginRegistry { plugins, output_plugins, generators: Vec::new(), outputs: Vec::new() }
    }

    /// The generator plugins that the settings offer.
    pub fn generator_plugins(&self) -> (r: &Vec<GeneratorPluginConf>)
        ensures
            generator_confs_view(r@) == self@.generator_plugins,
    {
        &self.plugins
    }

    /// The output plugins that the settings offer.
    pub fn output_plugins(&self) -> (r: &Vec<OutputPluginConf>)
        ensures
            output_confs_view(r@) == self@.output_plugins,
    {
        &self.output_plugins
    }

    /// Registers the generator instance that a configuration names: refused where the settings
    /// offer no plugin of its generator id; otherwise the handle of the instance, created by
    /// this registration where no instance of that id existed.
    pub fn register(&mut self, generator_conf: &GeneratorConfig) -> (r: Result<
        Registration,
        RegistryError,
    >)
        ensures
            final(self)@.wf(),
            final(self)@.generator_plugins == old(self)@.generator_plugins,
            final(self)@.output_plugins == old(self)@.output_plugins,
            final(self)@.outputs == old(self)@.outputs,
            (final(self)@.generators, r) == register_in(
                old(self)@.generators,
                generator_plugin_ids(old(self)@.generator_plugins),
                generator_conf.instance_id@,
                generator_conf.generator_id@,
                RegistryError::NoGeneratorPlugin,
            ),
            r matches Ok(reg) ==> reg.created ==> first_index(generator_plugin_ids(old(self)@.generator_plugins), generator_conf.generator_id@) == Some(reg.plugin as int)
                && old(self)@.generator_plugins[reg.plugin as int].id == generator_conf.generator_id@
                && reg.handle == old(self)@.generators.len()
                && final(self)@.generators == old(self)@.generators.push((generator_conf.instance_id@, reg.plugin as nat)),
            r matches Ok(reg) ==> !reg.created ==> reg.handle < old(self)@.generators.len()
                && old(self)@.generators[reg.handle as int] == (generator_conf.instance_id@, reg.plugin as nat)
                && final(self)@.generators == old(self)@.generators,
    {
        proof {
            use_type_invariant(&*self);
        }
        let ghost before = self@;
        let plugin_count: usize = self.plugins.len();
        let instance_count: usize = self.generators.len();
        assert(generator_plugin_ids(before.generator_plugins).len() == plugin_count);
        assert(before.generators.len() == instance_count);
        let plugin = find_by_key(&self.plugins, &generator_conf.generator_id);
        assert(keys(self.plugins@) =~= generator_plugin_ids(self@.generator_plugins));
        assert(keys(self.plugins@).len() == plugin_count);
        let mut table: Vec<(String, usize)> = Vec::new();
        std::mem::swap(&mut table, &mut self.generators);
        let r = register_entry(
            &mut table,
            plugin,
            &generator_conf.instance_id,
            Ghost(keys(self.plugins@)),
            Ghost(generator_conf.generator_id@),
            RegistryError::NoGeneratorPlugin,
        );
        self.generators = table;
        proof {
            lemma_first_index(generator_plugin_ids(before.generator_plugins), generator_conf.generator_id@);
            lemma_first_index(instance_ids(before.generators), generator_conf.instance_id@);
            let h = first_index(instance_ids(before.generators), generator_conf.instance_id@);
            if h is Some {
                assert(instance_ids(before.generators)[h.unwrap()] == before.generators[h.unwrap()].0);
            }
        }
        r
    }

    /// Registers the output instance that a configuration names, as `register` does for
    /// generators.
    pub fn register_output(&mut self, output_conf: &OutputConfig) -> (r: Result<
        Registration,
        RegistryError,
    >)
        ensures
            final(self)@.wf(),
            final(self)@.generator_plugins == old(self)@.generator_plugins,
            final(self)@.output_plugins == old(self)@.output_plugins,
            final(self)@.generators == old(self)@.generators,
            (final(self)@.outputs, r) == register_in(
                old(self)@.outputs,
                output_plugin_ids(old(self)@.output_plugins),
                output_conf.instance_id@,
                output_conf.output_id@,
                RegistryError::NoOutputPlugin,
            ),
            r matches Ok(reg) ==> reg.created ==> first_index(output_plugin_ids(old(self)@.output_plugins), output_conf.output_id@) == Some(reg.plugin as int)
                && old(self)@.output_plugins[reg.plugin as int].id == output_conf.output_id@
                && reg.handle == old(self)@.outputs.len()
                && final(self)@.outputs == old(self)@.outputs.push((output_conf.instance_id@, reg.plugin as nat)),
            r matches Ok(reg) ==> !reg.created ==> reg.handle < old(self)@.outputs.len()
                && old(self)@.outputs[reg.handle as int] == (output_conf.instance_id@, reg.plugin as nat)
                && final(self)@.outputs == old(self)@.outputs,
    {
        proof {
            use_type_invariant(&*self);
        }
        let ghost before = self@;
        let plugin_count: usize = self.output_plugins.len();
        let instance_count: usize = self.outputs.len();
        assert(output_plugin_ids(before.output_plugins).len() == plugin_count);
        assert(before.outputs.len() == instance_count);
        let plugin = find_by_key(&self.output_plugins, &output_conf.output_id);
        assert(keys(self.output_plugins@) =~= output_plugin_ids(self@.output_plugins));
        assert(keys(self.output_plugins@).len() == plugin_count);
        let mut table: Vec<(String, usize)> = Vec::new();
        std::mem::swap(&mut table, &mut self.outputs);
        let r = register_entry(
            &mut table,
            plugin,
            &output_conf.instance_id,
            Ghost(keys(self.output_plugins@)),
            Ghost(output_conf.output_id@),
            RegistryError::NoOutputPlugin,
        );
        self.outputs = table;
        proof {
            lemma_first_index(output_plugin_ids(before.output_plugins), output_conf.output_id@);
            lemma_first_index(instance_ids(before.outputs), output_conf.instance_id@);
            let h = first_index(instance_ids(before.outputs), output_conf.instance_id@);
            if h is Some {
                assert(instance_ids(before.outputs)[h.unwrap()] == before.outputs[h.unwrap()].0);
            }
        }
        r
    }

    /// The handles of all output instances, in the order of their creation.
    pub fn get_outputs(&self) -> (r: Vec<usize>)
        ensures
            r@.len() == self@.outputs.len(),
            forall|i: int| 0 <= i < r@.len() ==> r@[i] == i,
    {
        let mut handles: Vec<usize> = Vec::new();
        let n = self.outputs.len();
        let mut i: usize = 0;
        while i < n
            invariant
                n == self@.outputs.len(),
                i <= n,
                handles@.len() == i,
                forall|j: int| 0 <= j < i ==> handles@[j] == j,
            decreases n - i,
        {
            handles.push(i);
            i = i + 1;
        }
        handles
    }
}

/// Once an instance id is registered, registering it again hands back the handle of the
/// first registration, reports that nothing was created and leaves the table as it was,
/// whichever offered plugin the second configuration names: all sensors that name one
/// instance share one generator.
pub proof fn law_registration_is_shared(
    entries: Seq<(Seq<char>, nat)>,
    plugin_ids: Seq<Seq<char>>,
    instance: Seq<char>,
    first_plugin: Seq<char>,
    second_plugin: Seq<char>,
    missing: RegistryError,
)
    requires
        register_in(entries, plugin_ids, instance, first_plugin, missing).1 is Ok,
        first_index(plugin_ids, second_plugin) is Some,
    ensures
        ({
            let (after, first) = register_in(entries, plugin_ids, instance, first_plugin, missing);
            let (again, second) = register_in(after, plugin_ids, instance, second_plugin, missing);
            &&& again == after
            &&& second matches Ok(reg) && reg.handle == first->Ok_0.handle && !reg.created
        }),
{
    let after = register_in(entries, plugin_ids, instance, first_plugin, missing).0;
    let ids = instance_ids(entries);
    lemma_first_index(ids, instance);
    lemma_first_index(instance_ids(after), instance);
    if first_index(ids, instance) is None {
        assert(instance_ids(after) =~= ids.push(instance));
        assert(instance_ids(after)[ids.len() as int] == instance);
        let k = first_index(instance_ids(after), instance).unwrap();
        assert(k == ids.len()) by {
            if k < ids.len() {
                assert(instance_ids(after)[k] == ids[k]);
            }
        }
    }
}

/// A registration that creates an instance creates it from the plugin it asks for: the first
/// offered plugin with the requested id. The new instance is added at the end of the table,
/// under the next handle, with that plugin.
pub proof fn law_created_instance_uses_requested_plugin(
    entries: Seq<(Seq<char>, nat)>,
    plugin_ids: Seq<Seq<char>>,
    instance: Seq<char>,
    plugin_id: Seq<char>,
    missing: RegistryError,
)
    requires
        entries.len() <= usize::MAX,
        plugin_ids.len() <= usize::MAX,
    ensures
        ({
            let (after, r) = register_in(entries, plugin_ids, instance, plugin_id, missing);
            r matches Ok(reg) ==> reg.created ==> 0 <= reg.plugin < plugin_ids.len()
                && plugin_ids[reg.plugin as int] == plugin_id
                && (forall|j: int| 0 <= j < reg.plugin ==> plugin_ids[j] != plugin_id)
                && reg.handle == entries.len()
                && after == entries.push((instance, reg.plugin as nat))
        }),
{
    lemma_first_index(plugin_ids, plugin_id);
}

/// Two different instance ids registered one after the other get different handles.
pub proof fn law_distinct_instances_get_distinct_handles(
    entries: Seq<(Seq<char>, nat)>,
    plugin_ids: Seq<Seq<char>>,
    a: Seq<char>,
    b: Seq<char>,
    plugin_a: Seq<char>,
    plugin_b: Seq<char>,
    missing: RegistryError,
)
    requires
        entries.len() + 1 < usize::MAX,
        a != b,
        register_in(entries, plugin_ids, a, plugin_a, missing).1 is Ok,
        register_in(register_in(entries, plugin_ids, a, plugin_a, missing).0, plugin_ids, b, plugin_b, missing).1 is Ok,
    ensures
        register_in(entries, plugin_ids, a, plugin_a, missing).1->Ok_0.handle != register_in(
            register_in(entries, plugin_ids, a, plugin_a, missing).0,
            plugin_ids,
            b,
            plugin_b,
            missing,
        ).1->Ok_0.handle,
{
    let ids = instance_ids(entries);
    let after = register_in(entries, plugin_ids, a, plugin_a, missing).0;
    lemma_first_index(ids, a);
    lemma_first_index(instance_ids(after), b);
    lemma_first_index(instance_ids(after), a);
    if first_index(ids, a) is None {
        assert(instance_ids(after) =~= ids.push(a));
        assert(instance_ids(after)[ids.len() as int] == a);
    } else {
        let h = first_index(ids, a).unwrap();
        assert(instance_ids(after)[h] == a);
    }
}

/// A registration is refused exactly when the settings offer no plugin of the requested
/// id, and a refused registration changes nothing.
pub proof fn law_refused_exactly_without_plugin(
    entries: Seq<(Seq<char>, nat)>,
    plugin_ids: Seq<Seq<char>>,
    instance: Seq<char>,
    plugin_id: Seq<char>,
    missing: RegistryError,
)
    ensures
        register_in(entries, plugin_ids, instance, plugin_id, missing).1 is Err <==> first_index(
            plugin_ids,
            plugin_id,
        ) is None,
        register_in(entries, plugin_ids, instance, plugin_id, missing).1 is Err ==> register_in(
            entries,
            plugin_ids,
            instance,
            plugin_id,
            missing,
        ).0 == entries,
{
}

/// A registration keeps every instance that existed before it under its handle, and the
/// instance it names is found under the handle it returns.
pub proof fn law_registration_keeps_instances(
    entries: Seq<(Seq<char>, nat)>,
    plugin_ids: Seq<Seq<char>>,
    instance: Seq<char>,
    plugin_id: Seq<char>,
    missing: RegistryError,
)
    requires
        entries.len() < usize::MAX,
        register_in(entries, plugin_ids, instance, plugin_id, missing).1 is Ok,
    ensures
        ({
            let (after, r) = register_in(entries, plugin_ids, instance, plugin_id, missing);
            &&& entries.len() <= after.len()
            &&& forall|i: int| 0 <= i < entries.len() ==> after[i] == entries[i]
            &&& r->Ok_0.handle < after.len()
            &&& after[r->Ok_0.handle as int].0 == instance
        }),
{
    lemma_first_index(instance_ids(entries), instance);
    let h = first_index(instance_ids(entries), instance);
    if h is Some {
        assert(instance_ids(entries)[h.unwrap()] == entries[h.unwrap()].0);
    }
}

} // verus!
