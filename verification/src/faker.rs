//! A generator of fixed fake text.

use vstd::prelude::*;
use crate::typed::{GeneratorPlugin, StatelessGeneratorPlugin};

verus! {

/// A generator that produces the text `fake`.
pub struct FakerGenerator {}

impl FakerGenerator {
    /// A new fake text generator.
    pub fn new() -> (r: FakerGenerator) {
        FakerGenerator {}
    }
}

impl GeneratorPlugin<(), String> for FakerGenerator {
    fn generate(&mut self, input: ()) -> (r: String)
        ensures
            r@ == "fake"@,
    {
        "fake".to_string()
    }
}

impl StatelessGeneratorPlugin<(), String> for FakerGenerator {

}

/// The instance that the plugin offers: a fake text generator, whose `generate` gives `fake`
/// for every input. It is handed out as the generator itself, so that what it produces stays
/// stated; a caller that wants the plugin interface boxes it as a
/// `Box<dyn StatelessGeneratorPlugin<(), String>>`.
pub fn new_instance() -> (r: Box<FakerGenerator>) {
    Box::new(FakerGenerator::new())
}

} // verus!
