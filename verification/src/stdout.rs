//! The output that writes each payload to standard output, as JSON or in debug form.

use vstd::prelude::*;
use crate::args::{bool_reading, typed_arg_outcome, unwrap_bool_arg, ArgError};

verus! {

/// How the standard output writes a payload.
#[derive(Debug, Clone, Copy, PartialEq, Eq)]
pub struct StdoutOutput {
    pretty: bool,
}

impl StdoutOutput {
    /// Whether payloads are written as indented JSON (otherwise in debug form).
    pub closed spec fn writes_pretty(&self) -> bool {
        self.pretty
    }

    /// An output that writes payloads as indented JSON when `pretty` holds.
    pub fn new(pretty: bool) -> (r: StdoutOutput)
        ensures
            r.writes_pretty() == pretty,
    {
        StdoutOutput { pretty }
    }

    /// Whether payloads are written as indented JSON.
    pub fn pretty(&self) -> (r: bool)
        ensures
            r == self.writes_pretty(),
    {
        self.pretty
    }
}

/// The instance that the plugin offers: an output configured by the `bool` argument `pretty`.
pub fn new_instance(args: &Vec<(String, String)>) -> (r: Result<StdoutOutput, ArgError>)
    ensures
        typed_arg_outcome(
            args@,
            "pretty"@,
            |s: Seq<char>| bool_reading(s),
            match r {
                Ok(o) => Ok::<bool, ArgError>(o.writes_pretty()),
                Err(e) => Err(e),
            },
        ),
{
    match unwrap_bool_arg("pretty", args) {
        Ok(pretty) => Ok(StdoutOutput::new(pretty)),
        Err(e) => Err(e),
    }
}

} // verus!
