//! The settings of the simulator: where its generator and output plugins live.

use vstd::prelude::*;

verus! {

/// Whether a generator keeps state between two values.
#[derive(Debug, Clone, Copy, PartialEq, Eq)]
pub enum GeneratorType {
    /// Each value is computed afresh.
    Stateless,
    /// Each value may depend on the values before it.
    Stateful,
}

/// A generator plugin that the settings make available.
#[derive(Debug)]
pub struct GeneratorPluginConf {
    /// The name by which sensors ask for this generator.
    pub id: String,
    /// Whether the generator keeps state.
    pub generator_type: GeneratorType,
    /// The kind of value it produces, if the settings say.
    pub return_type: Option<String>,
    /// The path of the shared library that holds the plugin.
    pub path: String,
}

/// A generator plugin setting as plain values.
pub struct GeneratorPluginConfView {
    pub id: Seq<char>,
    pub generator_type: GeneratorType,
    pub return_type: Option<Seq<char>>,
    pub path: Seq<char>,
}

impl View for GeneratorPluginConf {
    type V = GeneratorPluginConfView;

    open spec fn view(&self) -> GeneratorPluginConfView {
        GeneratorPluginConfView {
            id: self.id@,
            generator_type: self.generator_type,
            return_type: match self.return_type {
                Some(t) => Some(t@),
                None => None,
            },
            path: self.path@,
        }
    }
}

/// An output plugin that the settings make available.
#[derive(Debug)]
pub struct OutputPluginConf {
    /// The name by which a simulation asks for this output.
    pub id: String,
    /// The path of the shared library that holds the plugin.
    pub path: String,
}

/// An output plugin setting as plain values.
pub struct OutputPluginConfView {
    pub id: Seq<char>,
    pub path: Seq<char>,
}

impl View for OutputPluginConf {
    type V = OutputPluginConfView;

    open spec fn view(&self) -> OutputPluginConfView {
        OutputPluginConfView { id: self.id@, path: self.path@ }
    }
}

/// The settings of the simulator; both lists are empty where the settings name no plugin.
#[derive(Debug)]
pub struct Settings {
    /// The generator plugins, in the order the settings list them.
    pub generator_plugins: Vec<GeneratorPluginConf>,
    /// The output plugins, in the order the settings list them.
    pub output_plugins: Vec<OutputPluginConf>,
}

} // verus!
