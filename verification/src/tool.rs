//! Naming the tool and version that a request was made for.

use vstd::prelude::*;

verus! {

/// The tool and the version, or range of versions, that the user asked for.
///
/// It travels with a request as context for error reports and is never
/// interpreted.
#[derive(Debug, PartialEq, Eq)]
pub struct ToolSpec {
    /// Which tool: `node`, `yarn`, ...
    pub kind: String,
    /// The requested version or range, as the user wrote it.
    pub version: String,
}

/// The mathematical value of a [`ToolSpec`].
pub struct ToolSpecView {
    pub kind: Seq<char>,
    pub version: Seq<char>,
}

impl View for ToolSpec {
    type V = ToolSpecView;

    open spec fn view(&self) -> ToolSpecView {
        ToolSpecView { kind: self.kind@, version: self.version@ }
    }
}

impl Clone for ToolSpec {
    fn clone(&self) -> (copy: Self)
        ensures
            copy == *self,
    {
        ToolSpec { kind: self.kind.clone(), version: self.version.clone() }
    }
}

} // verus!
