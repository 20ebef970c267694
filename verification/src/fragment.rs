use vstd::prelude::*;

verus! {

/// A piece of contextual text that the agent hands to the model inside a
/// pair of marker lines.
pub struct ContextualUserFragmentDefinition {
    pub start_marker: &'static str,
    pub end_marker: &'static str,
}

/// The marker lines of the environment context.
pub fn environment_context_fragment() -> (f: ContextualUserFragmentDefinition)
    ensures
        f.start_marker@ == "<environment_context>"@,
        f.end_marker@ == "</environment_context>"@,
{
    ContextualUserFragmentDefinition {
        start_marker: "<environment_context>",
        end_marker: "</environment_context>",
    }
}

impl ContextualUserFragmentDefinition {
    /// The body between the start marker and the end marker, each on a line
    /// of its own.
    pub fn wrap(&self, body: String) -> (res: String)
        ensures
            res@ == self.start_marker@ + seq!['\n'] + body@ + seq!['\n'] + self.end_marker@,
    {
        let newline = "\n";
        proof {
            reveal_strlit("\n");
        }
        assert(newline@ =~= seq!['\n']);
        let mut res = String::from_str(self.start_marker);
        res.append(newline);
        res.append(body.as_str());
        res.append(newline);
        res.append(self.end_marker);
        res
    }
}

} // verus!
