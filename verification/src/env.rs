//! What every emitter is told about the generation run.

use vstd::prelude::*;
use crate::version::Version;

verus! {

/// The context of a generation run. It is handed to every function that
/// needs it and never changes during a run.
#[derive(Clone, Debug)]
pub struct GenerationContext {
    /// The display name of the library for which bindings are generated.
    pub library_name: String,
    /// The oldest version of the library that the bindings support.
    pub min_cfg_version: Version,
    /// The name of the generating tool.
    pub tool_name: String,
    /// The version of the generating tool.
    pub tool_version: String,
    /// The identity of the metadata repository, where it is known.
    pub repo_hash: Option<String>,
}

pub struct GenerationContextView {
    pub library_name: Seq<char>,
    pub min_cfg_version: Version,
    pub tool_name: Seq<char>,
    pub tool_version: Seq<char>,
    pub repo_hash: Option<Seq<char>>,
}

impl View for GenerationContext {
    type V = GenerationContextView;

    open spec fn view(&self) -> GenerationContextView {
        GenerationContextView {
            library_name: self.library_name@,
            min_cfg_version: self.min_cfg_version,
            tool_name: self.tool_name@,
            tool_version: self.tool_version@,
            repo_hash: self.repo_hash.deep_view(),
        }
    }
}

} // verus!
