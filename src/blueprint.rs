//! The dependency descriptor read from a project's manifest.

use vstd::prelude::*;
use vstd::string::StringExecFns;

verus! {

/// A parsed manifest: optional name and description, the runtime version and
/// the dependency specifiers in the order written (duplicates kept).
pub struct Blueprint {
    pub name: Option<String>,
    pub description: Option<String>,
    pub python: String,
    pub dependencies: Vec<String>,
}

/// The runtime version used when the manifest names none.
pub fn default_python() -> (r: String)
    ensures
        r@ == "3.10"@,
{
    String::from_str("3.10")
}

/// The lines joined with a newline between each two (none at the end).
pub open spec fn join_lines(lines: Seq<Seq<char>>) -> Seq<char>
    decreases lines.len(),
{
    if lines.len() == 0 {
        Seq::empty()
    } else if lines.len() == 1 {
        lines[0]
    } else {
        join_lines(lines.drop_last()) + "\n"@ + lines.last()
    }
}

impl Blueprint {
    /// The dependency specifiers as they appear in the manifest.
    pub open spec fn dependency_views(&self) -> Seq<Seq<char>> {
        self.dependencies@.map_values(|d: String| d@)
    }

    /// The install manifest for the engine: one dependency specifier per line.
    pub fn to_requirements_txt(&self) -> (r: String)
        ensures
            r@ == join_lines(self.dependency_views()),
    {
        let mut out = String::new();
        let mut i: usize = 0;
        while i < self.dependencies.len()
            invariant
                i <= self.dependencies@.len(),
                out@ == join_lines(self.dependency_views().take(i as int)),
            decreases self.dependencies@.len() - i,
        {
            let ghost lines = self.dependency_views().take(i as int + 1);
            assert(lines.drop_last() == self.dependency_views().take(i as int));
            if i > 0 {
                out.append("\n");
            }
            out.append(self.dependencies[i].as_str());
            i = i + 1;
            assert(lines.last() == self.dependencies@[i as int - 1]@);
            if i == 1 {
                assert(join_lines(lines) == lines[0]);
            }
        }
        assert(self.dependency_views().take(i as int) == self.dependency_views());
        out
    }
}

} // verus!
