use vstd::prelude::*;
use vstd::string::StringExecFns;

use crate::errors::Error;

verus! {

/// One planned location: the two resolved absolute paths of a relative
/// sub-path, one under each root tree, plus the target-side parent.
pub struct LocationPaths {
    /// Resolved path under the source tree: holds the content before Export
    /// and becomes a symbolic link to `to` afterwards.
    pub from: String,
    /// Resolved path under the target tree: the content holder after Export.
    pub to: String,
    /// Parent directory of `to`, created on demand during Export.
    pub to_parent: String,
}

/// `base` and `rel` joined with a single separator.
pub open spec fn spec_join(base: Seq<char>, rel: Seq<char>) -> Seq<char> {
    base + "/"@ + rel
}

/// The named subtree of location `i` (locations 1 to 4; location 0 sits at
/// the tree root).
pub open spec fn spec_subtree(i: int) -> Seq<char> {
    if i == 1 {
        "Public"@
    } else if i == 2 {
        "Projects"@
    } else if i == 3 {
        "Mods"@
    } else {
        "Editor/Mods"@
    }
}

/// The relative sub-path of location `i` for a project called `name`:
/// `{name}`, `Public/{name}`, `Projects/{name}`, `Mods/{name}`,
/// `Editor/Mods/{name}`, in that fixed order.
pub open spec fn spec_relative(i: int, name: Seq<char>) -> Seq<char> {
    if i == 0 {
        name
    } else {
        spec_join(spec_subtree(i), name)
    }
}

/// The directory under `tree` that directly contains location `i`.
pub open spec fn spec_tree_parent(i: int, tree: Seq<char>) -> Seq<char> {
    if i == 0 {
        tree
    } else {
        spec_join(tree, spec_subtree(i))
    }
}

/// The source-tree-resolved path of location `i`.
pub open spec fn spec_from(i: int, source_tree: Seq<char>, name: Seq<char>) -> Seq<char> {
    spec_join(spec_tree_parent(i, source_tree), name)
}

/// The target-tree-resolved path of location `i`.
pub open spec fn spec_to(i: int, target_tree: Seq<char>, name: Seq<char>) -> Seq<char> {
    spec_join(spec_tree_parent(i, target_tree), name)
}

/// A resolved path is the tree root joined with the relative sub-path.
pub proof fn lemma_resolved_is_relative_under_tree(i: int, tree: Seq<char>, name: Seq<char>)
    requires
        0 <= i < 5,
    ensures
        spec_join(spec_tree_parent(i, tree), name) == spec_join(tree, spec_relative(i, name)),
{
    assert(spec_join(spec_tree_parent(i, tree), name) =~= spec_join(
        tree,
        spec_relative(i, name),
    ));
}

fn subtree_name(i: usize) -> (r: &'static str)
    requires
        1 <= i <= 4,
    ensures
        r@ == spec_subtree(i as int),
{
    if i == 1 {
        "Public"
    } else if i == 2 {
        "Projects"
    } else if i == 3 {
        "Mods"
    } else {
        "Editor/Mods"
    }
}

fn join_under(base: &String, rel: &str) -> (r: String)
    ensures
        r@ == spec_join(base@, rel@),
{
    let mut s: String = base.clone();
    s.append("/");
    s.append(rel);
    s
}

fn rel_entry(i: usize, name: &String) -> (r: String)
    requires
        1 <= i <= 4,
    ensures
        r@ == spec_relative(i as int, name@),
{
    let mut s: String = subtree_name(i).to_owned();
    s.append("/");
    s.append(name.as_str());
    s
}

/// The planner: the ordered, fixed five-element sequence of relative
/// sub-paths that project `name` occupies under a root tree. Pure: it never
/// inspects any tree.
pub fn plan(name: &String) -> (r: Vec<String>)
    ensures
        r@.len() == 5,
        forall|i: int| 0 <= i < 5 ==> (#[trigger] r@[i])@ == spec_relative(i, name@),
{
    let mut v: Vec<String> = Vec::new();
    v.push(name.clone());
    v.push(rel_entry(1, name));
    v.push(rel_entry(2, name));
    v.push(rel_entry(3, name));
    v.push(rel_entry(4, name));
    v
}

fn tree_parent(i: usize, tree: &String) -> (r: String)
    requires
        i <= 4,
    ensures
        r@ == spec_tree_parent(i as int, tree@),
{
    if i == 0 {
        tree.clone()
    } else {
        join_under(tree, subtree_name(i))
    }
}

fn location_entry(i: usize, name: &String, source_tree: &String, target_tree: &String) -> (r:
    LocationPaths)
    requires
        i <= 4,
    ensures
        r.from@ == spec_from(i as int, source_tree@, name@),
        r.to@ == spec_to(i as int, target_tree@, name@),
        r.to_parent@ == spec_tree_parent(i as int, target_tree@),
{
    let from_parent = tree_parent(i, source_tree);
    let to_parent = tree_parent(i, target_tree);
    let from = join_under(&from_parent, name.as_str());
    let to = join_under(&to_parent, name.as_str());
    LocationPaths { from, to, to_parent }
}

/// The planner's output resolved against both root trees: for each of the
/// five locations, the source-side path, the target-side path, and the
/// target-side parent directory.
pub fn resolve(name: &String, source_tree: &String, target_tree: &String) -> (r: Vec<
    LocationPaths,
>)
    ensures
        r@.len() == 5,
        forall|i: int|
            0 <= i < 5 ==> (#[trigger] r@[i]).from@ == spec_from(i, source_tree@, name@),
        forall|i: int| 0 <= i < 5 ==> (#[trigger] r@[i]).to@ == spec_to(i, target_tree@, name@),
        forall|i: int|
            0 <= i < 5 ==> (#[trigger] r@[i]).to_parent@ == spec_tree_parent(i, target_tree@),
        forall|i: int|
            0 <= i < 5 ==> (#[trigger] r@[i]).from@ == spec_join(
                source_tree@,
                spec_relative(i, name@),
            ),
        forall|i: int|
            0 <= i < 5 ==> (#[trigger] r@[i]).to@ == spec_join(
                target_tree@,
                spec_relative(i, name@),
            ),
{
    let mut v: Vec<LocationPaths> = Vec::new();
    v.push(location_entry(0, name, source_tree, target_tree));
    v.push(location_entry(1, name, source_tree, target_tree));
    v.push(location_entry(2, name, source_tree, target_tree));
    v.push(location_entry(3, name, source_tree, target_tree));
    v.push(location_entry(4, name, source_tree, target_tree));
    proof {
        assert forall|i: int| 0 <= i < 5 implies {
            &&& (#[trigger] v@[i]).from@ == spec_join(source_tree@, spec_relative(i, name@))
            &&& v@[i].to@ == spec_join(target_tree@, spec_relative(i, name@))
        } by {
            lemma_resolved_is_relative_under_tree(i, source_tree@, name@);
            lemma_resolved_is_relative_under_tree(i, target_tree@, name@);
        }
    }
    v
}

/// The directory inspected by project discovery: the parent of the
/// `Projects` location under the target tree.
pub fn projects_dir(target_tree: &String) -> (r: String)
    ensures
        r@ == spec_tree_parent(2, target_tree@),
{
    tree_parent(2, target_tree)
}

/// Project-identifier discovery over the entries found under the target
/// tree's `Projects` directory, in enumeration order: the first entry wins.
/// On filesystems that do not guarantee an enumeration order the chosen
/// entry is platform-dependent when several projects coexist.
pub fn discover_project(entries: &Vec<String>) -> (r: Result<String, Error>)
    ensures
        entries@.len() > 0 ==> (r matches Ok(n) && n@ == entries@[0]@),
        entries@.len() == 0 ==> (r matches Err(Error::NoProjectFound)),
{
    if entries.len() == 0 {
        Err(Error::NoProjectFound)
    } else {
        Ok(entries[0].clone())
    }
}

} // verus!
