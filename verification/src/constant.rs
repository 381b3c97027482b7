//! A generator that produces, every time, the value it was created with.

use vstd::prelude::*;
use crate::args::{arg_lookup, is_missing, unwrap_arg, ArgError};
use crate::generator::{GenerationResult, GenerationValue, GeneratorPlugin};

verus! {

/// A generator of one constant value.
#[derive(Debug)]
pub struct ConstGenerator {
    val: GenerationResult,
}

impl ConstGenerator {
    /// The value that the generator produces.
    pub closed spec fn value(&self) -> GenerationValue {
        self.val@
    }

    /// A generator of the value `val`.
    pub fn new(val: GenerationResult) -> (r: ConstGenerator)
        ensures
            r.value() == val@,
    {
        ConstGenerator { val }
    }
}

impl GeneratorPlugin for ConstGenerator {
    fn generate(&mut self) -> (r: GenerationResult)
        ensures
            r@ == old(self).value(),
            final(self).value() == old(self).value(),
    {
        self.val.clone()
    }
}

/// The instance that the plugin offers: a generator of the text given as the argument `val`.
pub fn new_instance(args: &Vec<(String, String)>) -> (r: Result<ConstGenerator, ArgError>)
    ensures
        match arg_lookup(args@, "val"@) {
            Some(v) => r matches Ok(g) && g.value() == GenerationValue::Str(v),
            None => r matches Err(e) && is_missing(e, "val"@),
        },
{
    match unwrap_arg("val", args) {
        Ok(val) => Ok(ConstGenerator::new(GenerationResult::from_text(val.as_str()))),
        Err(e) => Err(e),
    }
}

} // verus!
