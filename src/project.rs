//! Project layout and the pieces of a run that are decided from plain
//! values: file names, the scaffolded manifest, where the runtime's
//! executable lives, and the environment handed to the payload.

use crate::engine::HostOs;
use vstd::prelude::*;
use vstd::string::StringExecFns;

verus! {

/// The manifest's file name.
pub const MANIFEST_FILE: &'static str = "cask.yaml";

/// The lockfile's file name, beside the manifest.
pub const LOCK_FILE: &'static str = "cask.lock";

/// The tool's directory under the user's home.
pub const CASK_DIR: &'static str = ".cask";

/// The cache root's directory inside the tool's directory.
pub const HOLOTREE_DIR: &'static str = "holotree";

/// The engine's directory inside the tool's directory.
pub const BIN_DIR: &'static str = "bin";

/// The temporary install manifest inside an environment being built.
pub const INSTALL_MANIFEST_FILE: &'static str = "temp_reqs.txt";

/// The secrets file in the project root.
pub const SECRETS_FILE: &'static str = ".env";

/// The runtime's directory inside an environment.
pub const RUNTIME_DIR: &'static str = ".venv";

/// The variable that points the payload at its runtime.
pub const RUNTIME_VAR: &'static str = "VIRTUAL_ENV";

/// The name of a new project when none is given and the directory has none.
pub const FALLBACK_NAME: &'static str = "my-robot";

/// The name of a new project: the one given, else the directory's name,
/// else a fixed fallback.
pub fn project_name(given: Option<String>, dir_name: Option<String>) -> (r: String)
    ensures
        given matches Some(g) ==> r@ == g@,
        given is None ==> (dir_name matches Some(d) ==> r@ == d@),
        given is None && dir_name is None ==> r@ == FALLBACK_NAME@,
{
    match given {
        Some(g) => g,
        None => match dir_name {
            Some(d) => d,
            None => String::from_str(FALLBACK_NAME),
        },
    }
}

pub open spec fn template_head() -> Seq<char> {
    "name: \""@
}

pub open spec fn template_tail() -> Seq<char> {
    "\"\ndescription: \"New automation project\"\npython: \"3.11\"\n\ndependencies:\n  - robocorp-tasks\n  - requests\n"@
}

/// The manifest written for a new project.
pub fn manifest_template(name: &str) -> (r: String)
    ensures
        r@ == template_head() + name@ + template_tail(),
{
    String::from_str("name: \"").concat(name).concat(
        "\"\ndescription: \"New automation project\"\npython: \"3.11\"\n\ndependencies:\n  - robocorp-tasks\n  - requests\n",
    )
}

/// The runtime's executable inside the runtime directory, as two path
/// components.
pub fn runtime_executable(os: HostOs) -> (r: (&'static str, &'static str))
    ensures
        os == HostOs::Windows ==> r.0@ == "Scripts"@ && r.1@ == "python.exe"@,
        os != HostOs::Windows ==> r.0@ == "bin"@ && r.1@ == "python"@,
{
    if os == HostOs::Windows {
        ("Scripts", "python.exe")
    } else {
        ("bin", "python")
    }
}

/// The text with leading and trailing whitespace removed.
pub uninterp spec fn trimmed(s: Seq<char>) -> Seq<char>;

/// The text in lowercase.
pub uninterp spec fn lowercased(s: Seq<char>) -> Seq<char>;

/// Relies on `str::trim`: the text without leading and trailing whitespace.
#[verifier::external_body]
fn trim(s: &str) -> (r: &str)
    ensures
        r@ == trimmed(s@),
{
    s.trim()
}

/// Relies on `str::to_lowercase`: the text's lowercase form.
#[verifier::external_body]
fn to_lowercase(s: &str) -> (r: String)
    ensures
        r@ == lowercased(s@),
{
    s.to_lowercase()
}

/// Whether a trimmed, lowercased answer to the confirmation prompt accepts.
pub fn is_yes(folded: &str) -> (r: bool)
    ensures
        r == (folded@ == "y"@),
{
    String::from_str(folded) == String::from_str("y")
}

/// Whether an answer to the prompt before destroying the cache accepts:
/// `y` in either case, with any surrounding whitespace.
pub fn clean_confirmed(answer: &str) -> (r: bool)
    ensures
        r == (lowercased(trimmed(answer@)) == "y"@),
{
    let folded = to_lowercase(trim(answer));
    is_yes(folded.as_str())
}

/// The key and value of each declaration.
pub open spec fn pair_views(p: Seq<(String, String)>) -> Seq<(Seq<char>, Seq<char>)> {
    p.map_values(|e: (String, String)| (e.0@, e.1@))
}

/// Whether the declaration at `i` is overridden by a later one of the same key.
pub open spec fn overridden(p: Seq<(Seq<char>, Seq<char>)>, i: int) -> bool {
    exists|j: int| i < j < p.len() && #[trigger] p[j].0 == p[i].0
}

/// The declarations among the first `n` that no later one overrides, in order.
pub open spec fn kept(p: Seq<(Seq<char>, Seq<char>)>, n: int) -> Seq<(Seq<char>, Seq<char>)>
    decreases n,
{
    if n <= 0 {
        Seq::empty()
    } else if overridden(p, n - 1) {
        kept(p, n - 1)
    } else {
        kept(p, n - 1).push(p[n - 1])
    }
}

/// The declarations in effect: for each key, its last declaration.
pub open spec fn effective(p: Seq<(Seq<char>, Seq<char>)>) -> Seq<(Seq<char>, Seq<char>)> {
    kept(p, p.len() as int)
}

proof fn lemma_kept(p: Seq<(Seq<char>, Seq<char>)>, n: int)
    requires
        0 <= n <= p.len(),
    ensures
        forall|x: int|
            0 <= x < kept(p, n).len() ==> exists|m: int|
                0 <= m < n && !overridden(p, m) && #[trigger] kept(p, n)[x] == p[m],
        forall|a: int, b: int|
            0 <= a < b < kept(p, n).len() ==> #[trigger] kept(p, n)[a].0 != #[trigger] kept(
                p,
                n,
            )[b].0,
        forall|i: int| 0 <= i < n && !overridden(p, i) ==> kept(p, n).contains(#[trigger] p[i]),
    decreases n,
{
    if n > 0 {
        let k = n - 1;
        lemma_kept(p, k);
        let before = kept(p, k);
        if !overridden(p, k) {
            let after = before.push(p[k]);
            assert(kept(p, n) == after);
            assert forall|x: int| 0 <= x < after.len() implies exists|m: int|
                0 <= m < n && !overridden(p, m) && #[trigger] after[x] == p[m] by {
                if x == before.len() {
                    assert(after[x] == p[k]);
                } else {
                    assert(after[x] == before[x]);
                }
            }
            assert forall|a: int, b: int| 0 <= a < b < after.len() implies #[trigger] after[a].0
                != #[trigger] after[b].0 by {
                if b == before.len() {
                    assert(after[a] == before[a]);
                    let m = choose|m: int| 0 <= m < k && !overridden(p, m) && before[a] == p[m];
                    if p[m].0 == p[k].0 {
                        assert(overridden(p, m));
                    }
                } else {
                    assert(after[a] == before[a] && after[b] == before[b]);
                }
            }
            assert forall|i: int| 0 <= i < n && !overridden(p, i) implies after.contains(
                #[trigger] p[i],
            ) by {
                if i == k {
                    assert(after[before.len() as int] == p[k]);
                } else {
                    let x = choose|x: int| 0 <= x < before.len() && before[x] == p[i];
                    assert(after[x] == p[i]);
                }
            }
        }
    }
}

/// In the declarations in effect each key appears once, each of them is a
/// declaration that no later one overrides, and every such declaration is
/// among them: the last declaration of a key wins.
pub proof fn lemma_last_declaration_wins(p: Seq<(Seq<char>, Seq<char>)>)
    ensures
        forall|a: int, b: int|
            0 <= a < b < effective(p).len() ==> #[trigger] effective(p)[a].0
                != #[trigger] effective(p)[b].0,
        forall|x: int|
            0 <= x < effective(p).len() ==> exists|m: int|
                0 <= m < p.len() && !overridden(p, m) && #[trigger] effective(p)[x] == p[m],
        forall|i: int|
            0 <= i < p.len() && !overridden(p, i) ==> effective(p).contains(#[trigger] p[i]),
{
    lemma_kept(p, p.len() as int);
}

/// The environment handed to the payload: the runtime variable first, then
/// the secrets file's declarations. Where a key is declared more than once
/// only its last declaration is kept.
pub fn payload_env(runtime_root: &str, secrets: &Vec<(String, String)>) -> (r: Vec<(String, String)>)
    ensures
        pair_views(r@) == effective(
            seq![(RUNTIME_VAR@, runtime_root@)] + pair_views(secrets@),
        ),
{
    let mut all: Vec<(String, String)> = Vec::new();
    all.push((String::from_str(RUNTIME_VAR), String::from_str(runtime_root)));
    let mut i: usize = 0;
    while i < secrets.len()
        invariant
            i <= secrets@.len(),
            pair_views(all@) == seq![(RUNTIME_VAR@, runtime_root@)] + pair_views(
                secrets@.take(i as int),
            ),
        decreases secrets@.len() - i,
    {
        let ghost before = all@;
        let key = secrets[i].0.clone();
        let value = secrets[i].1.clone();
        all.push((key, value));
        proof {
            let done = secrets@.take(i as int);
            assert(secrets@.take(i as int + 1) == done.push(secrets@[i as int]));
            assert(pair_views(done.push(secrets@[i as int])) =~= pair_views(done).push(
                (secrets@[i as int].0@, secrets@[i as int].1@),
            ));
            assert(pair_views(all@) =~= pair_views(before).push(
                (secrets@[i as int].0@, secrets@[i as int].1@),
            ));
        }
        i = i + 1;
    }
    assert(secrets@.take(i as int) == secrets@);
    last_declarations(&all)
}

/// For each key, its last declaration, in the order of those declarations.
pub fn last_declarations(pairs: &Vec<(String, String)>) -> (r: Vec<(String, String)>)
    ensures
        pair_views(r@) == effective(pair_views(pairs@)),
{
    let ghost p = pair_views(pairs@);
    let mut out: Vec<(String, String)> = Vec::new();
    let mut i: usize = 0;
    while i < pairs.len()
        invariant
            i <= pairs@.len(),
            p == pair_views(pairs@),
            pair_views(out@) == kept(p, i as int),
        decreases pairs@.len() - i,
    {
        let mut later = false;
        let mut j: usize = i + 1;
        while j < pairs.len()
            invariant
                i < j <= pairs@.len(),
                p == pair_views(pairs@),
                later == exists|m: int| i < m < j && #[trigger] p[m].0 == p[i as int].0,
            decreases pairs@.len() - j,
        {
            let same = pairs[j].0 == pairs[i].0;
            proof {
                assert(p[j as int].0 == pairs@[j as int].0@);
                assert(p[i as int].0 == pairs@[i as int].0@);
            }
            if same {
                later = true;
            }
            proof {
                if !later {
                    assert forall|m: int| i < m < j + 1 implies #[trigger] p[m].0 != p[i as int].0 by {
                        if m == j {
                            assert(p[m].0 == pairs@[m].0@);
                        }
                    }
                }
            }
            j = j + 1;
        }
        assert(later == overridden(p, i as int));
        if !later {
            out.push((pairs[i].0.clone(), pairs[i].1.clone()));
        }
        i = i + 1;
        assert(pair_views(out@) =~= kept(p, i as int));
    }
    out
}

} // verus!
