use vstd::prelude::*;

verus! {

/// The command-line switches of the server.
pub struct Args {
    /// List resources
    pub resources: bool,
    /// List prompts
    pub prompts: bool,
    /// List tools
    pub tools: bool,
    /// Start the stdio server
    pub mcp: bool,
}

impl Args {
    /// Whether any informational listing was asked for.
    pub fn is_args_available(&self) -> (r: bool)
        ensures
            r == (self.prompts || self.resources || self.tools),
    {
        self.prompts || self.resources || self.tools
    }
}

} // verus!
