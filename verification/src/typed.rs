//! Generators typed by what they take and what they produce.

use vstd::prelude::*;

verus! {

/// A generator that takes an input of type `I` and produces a value of type `O`.
pub trait GeneratorPlugin<I, O> {
    /// The value for an input.
    fn generate(&mut self, input: I) -> O;
}

/// A generator whose values do not depend on the values before them.
pub trait StatelessGeneratorPlugin<I, O>: GeneratorPlugin<I, O> {

}

/// A generator whose values may depend on the values before them.
pub trait StatefulGeneratorPlugin<I, O>: GeneratorPlugin<I, O> {

}

} // verus!
