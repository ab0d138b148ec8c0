use std::collections::BTreeMap;

use link_manager::errors::Error;
use link_manager::export::{ExportMachine, ExportPhase};
use link_manager::import::{ImportMachine, ImportPhase};
use link_manager::plan::{discover_project, projects_dir};
use link_manager::protocol::{
    classify_site, classify_source, has_foreign_entry, marker_names, placeholder_name, Action,
    Event, ExportKind,
};

/// One entry of the simulated filesystem.
#[derive(Clone, Debug, PartialEq, Eq)]
enum SimNode {
    Dir,
    File,
    Link(String),
}

/// A tiny in-memory filesystem: absolute path -> node. Directories are
/// explicit entries; children are keys extending `dir + "/"`.
#[derive(Clone, Debug, PartialEq, Eq)]
struct SimFs {
    nodes: BTreeMap<String, SimNode>,
}

impl SimFs {
    fn new() -> SimFs {
        SimFs { nodes: BTreeMap::new() }
    }

    fn mkdir(&mut self, p: &str) {
        self.nodes.insert(p.to_string(), SimNode::Dir);
    }

    fn mkfile(&mut self, p: &str) {
        self.nodes.insert(p.to_string(), SimNode::File);
    }

    fn raw(&self, p: &str) -> Option<&SimNode> {
        self.nodes.get(p)
    }

    /// Resolves one level of symbolic link.
    fn resolved(&self, p: &str) -> Option<&SimNode> {
        match self.nodes.get(p) {
            Some(SimNode::Link(t)) => self.nodes.get(t.as_str()),
            other => other,
        }
    }

    fn is_symlink(&self, p: &str) -> bool {
        matches!(self.raw(p), Some(SimNode::Link(_)))
    }

    /// Like `Path::exists`: follows links, so a dangling link reports false.
    fn exists_following(&self, p: &str) -> bool {
        self.resolved(p).is_some()
    }

    /// Like `Path::is_dir`: follows links.
    fn is_dir_following(&self, p: &str) -> bool {
        matches!(self.resolved(p), Some(SimNode::Dir))
    }

    /// The names of the direct children of `dir`.
    fn child_names(&self, dir: &str) -> Vec<String> {
        let prefix = format!("{}/", dir);
        let mut names = Vec::new();
        for key in self.nodes.keys() {
            if let Some(rest) = key.strip_prefix(&prefix) {
                if !rest.is_empty() && !rest.contains('/') {
                    names.push(rest.to_string());
                }
            }
        }
        names
    }

    /// The names of the direct non-directory children of `dir`.
    fn file_child_names(&self, dir: &str) -> Vec<String> {
        self.child_names(dir)
            .into_iter()
            .filter(|n| {
                !matches!(self.raw(&format!("{}/{}", dir, n)), Some(SimNode::Dir))
            })
            .collect()
    }

    /// Moves the whole subtree rooted at `from` so that it is rooted at `to`.
    fn move_tree(&mut self, from: &str, to: &str) {
        let prefix = format!("{}/", from);
        let moved: Vec<(String, SimNode)> = self
            .nodes
            .iter()
            .filter(|(k, _)| k.as_str() == from || k.starts_with(&prefix))
            .map(|(k, v)| (k.clone(), v.clone()))
            .collect();
        for (k, _) in &moved {
            self.nodes.remove(k);
        }
        for (k, v) in moved {
            let new_key = format!("{}{}", to, &k[from.len()..]);
            self.nodes.insert(new_key, v);
        }
    }

    fn remove(&mut self, p: &str) {
        self.nodes.remove(p);
    }
}

fn join(a: &str, b: &str) -> String {
    format!("{}/{}", a, b)
}

/// A source tree carrying all three marker files and a populated project.
fn game_tree(fs: &mut SimFs) {
    fs.mkdir("/game/Data");
    for m in marker_names() {
        fs.mkfile(&join("/game/Data", m));
    }
    fs.mkdir("/game/Data/MyMod");
    fs.mkfile("/game/Data/MyMod/Meta.lsx");
    fs.mkdir("/repo");
}

fn markers_event(fs: &SimFs, tree: &str) -> Event {
    let names = marker_names();
    Event::Markers {
        assets: fs.exists_following(&join(tree, names[0])),
        gustav: fs.exists_following(&join(tree, names[1])),
        dice: fs.exists_following(&join(tree, names[2])),
    }
}

/// Performs one Export transform against the simulated filesystem.
fn sim_apply_to(
    fs: &mut SimFs,
    to_parent: String,
    from: String,
    to: String,
    make_parent: bool,
    kind: ExportKind,
) {
    if make_parent {
        fs.mkdir(&to_parent);
    }
    match kind {
        ExportKind::MoveAndLink => {
            fs.move_tree(&from, &to);
            fs.nodes.insert(from.clone(), SimNode::Link(to.clone()));
        }
        ExportKind::CreateAndLink => {
            fs.mkdir(&to);
            fs.nodes.insert(from.clone(), SimNode::Link(to.clone()));
        }
        ExportKind::SkipExisting => {}
    }
    fs.mkfile(&join(&to, placeholder_name()));
}

/// Runs a whole Export against the simulated filesystem, injecting a
/// filesystem failure at the transform of location `fail_at`, if given.
fn drive_export(
    fs: &mut SimFs,
    name: &str,
    source_tree: &str,
    target_tree: &str,
    fail_at: Option<usize>,
) -> Result<(), Error> {
    let (mut m, mut act) = ExportMachine::new(
        name.to_string(),
        source_tree.to_string(),
        target_tree.to_string(),
    );
    loop {
        let ev = match act {
            Action::ProbeMarkers => markers_event(fs, source_tree),
            Action::ProbeSource { index } => {
                let loc = &m.locations[index];
                Event::Source {
                    found: classify_source(
                        fs.is_dir_following(&loc.from),
                        fs.is_symlink(&loc.from),
                        fs.exists_following(&loc.from),
                    ),
                    parent_exists: fs.is_dir_following(&loc.to_parent),
                }
            }
            Action::Apply { index, make_parent, kind } => {
                if fail_at == Some(index) {
                    Event::Failed { path: m.locations[index].from.clone() }
                } else {
                    let loc = &m.locations[index];
                    sim_apply_to(fs, loc.to_parent.clone(), loc.from.clone(), loc.to.clone(), make_parent, kind);
                    Event::Applied
                }
            }
            Action::ProbeTargetFiles { index } => {
                let names = fs.file_child_names(&m.locations[index].to);
                Event::TargetFiles { foreign: has_foreign_entry(&names) }
            }
            Action::RemovePlaceholder { index } => {
                fs.remove(&join(&m.locations[index].to, placeholder_name()));
                Event::Applied
            }
            Action::Halt => break,
            _ => unreachable!("Export never asks for an Import observation"),
        };
        let (m2, a2) = m.step(ev);
        m = m2;
        act = a2;
    }
    match m.phase {
        ExportPhase::Finished { result } => result,
        _ => unreachable!("the machine halted in an unfinished phase"),
    }
}

/// Runs a whole Import against the simulated filesystem.
fn drive_import(
    fs: &mut SimFs,
    name: &str,
    source_tree: &str,
    target_tree: &str,
) -> Result<(), Error> {
    let (mut m, mut act) = ImportMachine::new(
        name.to_string(),
        source_tree.to_string(),
        target_tree.to_string(),
    );
    loop {
        let ev = match act {
            Action::ProbeMarkers => markers_event(fs, source_tree),
            Action::ProbePair { index } => {
                let loc = &m.locations[index];
                let present = fs.raw(&loc.from).is_some();
                let is_symlink = fs.is_symlink(&loc.from);
                let is_dir = matches!(fs.raw(&loc.from), Some(SimNode::Dir));
                let is_empty = fs.child_names(&loc.from).is_empty();
                Event::Pair {
                    content_present: fs.is_dir_following(&loc.to),
                    site: classify_site(present, is_symlink, is_dir, is_empty),
                }
            }
            Action::Link { index, remove_site } => {
                let loc = &m.locations[index];
                if remove_site {
                    fs.remove(&loc.from);
                }
                fs.nodes.insert(loc.from.clone(), SimNode::Link(loc.to.clone()));
                Event::Applied
            }
            Action::Halt => break,
            _ => unreachable!("Import never asks for an Export observation"),
        };
        let (m2, a2) = m.step(ev);
        m = m2;
        act = a2;
    }
    match m.phase {
        ImportPhase::Finished { result } => result,
        _ => unreachable!("the machine halted in an unfinished phase"),
    }
}

#[test]
fn export_example_scenario() {
    let mut fs = SimFs::new();
    game_tree(&mut fs);
    let r = drive_export(&mut fs, "MyMod", "/game/Data", "/repo", None);
    assert_eq!(r, Ok(()));

    // the populated project directory moved and was replaced by a link
    assert_eq!(fs.raw("/game/Data/MyMod"), Some(&SimNode::Link("/repo/MyMod".to_string())));
    assert_eq!(fs.raw("/repo/MyMod"), Some(&SimNode::Dir));
    assert_eq!(fs.raw("/repo/MyMod/Meta.lsx"), Some(&SimNode::File));
    // it holds real content, so no placeholder stays in it
    assert_eq!(fs.raw("/repo/MyMod/.gitkeep"), None);

    // the four empty locations were created with placeholder markers and
    // linked back
    for (from, to) in [
        ("/game/Data/Public/MyMod", "/repo/Public/MyMod"),
        ("/game/Data/Projects/MyMod", "/repo/Projects/MyMod"),
        ("/game/Data/Mods/MyMod", "/repo/Mods/MyMod"),
        ("/game/Data/Editor/Mods/MyMod", "/repo/Editor/Mods/MyMod"),
    ] {
        assert_eq!(fs.raw(from), Some(&SimNode::Link(to.to_string())));
        assert_eq!(fs.raw(to), Some(&SimNode::Dir));
        assert_eq!(fs.raw(&join(to, ".gitkeep")), Some(&SimNode::File));
    }
}

#[test]
fn export_twice_is_idempotent() {
    let mut fs = SimFs::new();
    game_tree(&mut fs);
    assert_eq!(drive_export(&mut fs, "MyMod", "/game/Data", "/repo", None), Ok(()));
    let after_first = fs.clone();
    assert_eq!(drive_export(&mut fs, "MyMod", "/game/Data", "/repo", None), Ok(()));
    assert_eq!(fs, after_first);
}

#[test]
fn export_import_export_round_trip() {
    let mut fs = SimFs::new();
    game_tree(&mut fs);
    assert_eq!(drive_export(&mut fs, "MyMod", "/game/Data", "/repo", None), Ok(()));
    let after_export = fs.clone();
    assert_eq!(drive_import(&mut fs, "MyMod", "/game/Data", "/repo"), Ok(()));
    assert_eq!(fs, after_export);
    assert_eq!(drive_export(&mut fs, "MyMod", "/game/Data", "/repo", None), Ok(()));
    assert_eq!(fs, after_export);
    // the content survived the round trip
    assert_eq!(fs.raw("/repo/MyMod/Meta.lsx"), Some(&SimNode::File));
}

#[test]
fn export_against_invalid_tree_mutates_nothing() {
    for missing in marker_names() {
        let mut fs = SimFs::new();
        game_tree(&mut fs);
        fs.remove(&join("/game/Data", missing));
        let before = fs.clone();
        let r = drive_export(&mut fs, "MyMod", "/game/Data", "/repo", None);
        assert_eq!(
            r,
            Err(Error::InvalidSourceTree { tree: "/game/Data".to_string() })
        );
        assert_eq!(fs, before);
    }
}

#[test]
fn import_against_invalid_tree_mutates_nothing() {
    for missing in marker_names() {
        let mut fs = SimFs::new();
        game_tree(&mut fs);
        assert_eq!(drive_export(&mut fs, "MyMod", "/game/Data", "/repo", None), Ok(()));
        fs.remove(&join("/game/Data", missing));
        let before = fs.clone();
        let r = drive_import(&mut fs, "MyMod", "/game/Data", "/repo");
        assert_eq!(
            r,
            Err(Error::InvalidSourceTree { tree: "/game/Data".to_string() })
        );
        assert_eq!(fs, before);
    }
}

#[test]
fn failure_at_third_location_is_contained() {
    let mut fs = SimFs::new();
    game_tree(&mut fs);
    let before = fs.clone();
    let r = drive_export(&mut fs, "MyMod", "/game/Data", "/repo", Some(2));
    assert_eq!(
        r,
        Err(Error::Filesystem { path: "/game/Data/Projects/MyMod".to_string() })
    );

    // locations one and two are fully migrated
    assert_eq!(fs.raw("/game/Data/MyMod"), Some(&SimNode::Link("/repo/MyMod".to_string())));
    assert_eq!(fs.raw("/repo/MyMod"), Some(&SimNode::Dir));
    assert_eq!(
        fs.raw("/game/Data/Public/MyMod"),
        Some(&SimNode::Link("/repo/Public/MyMod".to_string()))
    );
    assert_eq!(fs.raw("/repo/Public/MyMod"), Some(&SimNode::Dir));
    assert_eq!(fs.raw("/repo/Public/MyMod/.gitkeep"), Some(&SimNode::File));

    // locations four and five are completely untouched
    for (from, to, parent) in [
        ("/game/Data/Mods/MyMod", "/repo/Mods/MyMod", "/repo/Mods"),
        ("/game/Data/Editor/Mods/MyMod", "/repo/Editor/Mods/MyMod", "/repo/Editor/Mods"),
    ] {
        assert_eq!(fs.raw(from), before.raw(from));
        assert_eq!(fs.raw(to), None);
        assert_eq!(fs.raw(parent), None);
        assert_eq!(fs.raw(&join(to, ".gitkeep")), None);
    }
}

#[test]
fn import_with_missing_content_is_source_missing() {
    let mut fs = SimFs::new();
    game_tree(&mut fs);
    assert_eq!(drive_export(&mut fs, "MyMod", "/game/Data", "/repo", None), Ok(()));
    // lose one target-side content directory
    fs.remove("/repo/Projects/MyMod/.gitkeep");
    fs.remove("/repo/Projects/MyMod");
    let r = drive_import(&mut fs, "MyMod", "/game/Data", "/repo");
    assert_eq!(
        r,
        Err(Error::SourceMissing { path: "/repo/Projects/MyMod".to_string() })
    );
}

#[test]
fn import_onto_occupied_site_is_a_conflict() {
    let mut fs = SimFs::new();
    game_tree(&mut fs);
    assert_eq!(drive_export(&mut fs, "MyMod", "/game/Data", "/repo", None), Ok(()));
    // a non-empty real directory reappears at the first source-side site
    fs.remove("/game/Data/MyMod");
    fs.mkdir("/game/Data/MyMod");
    fs.mkfile("/game/Data/MyMod/Keep.me");
    let r = drive_import(&mut fs, "MyMod", "/game/Data", "/repo");
    assert_eq!(
        r,
        Err(Error::DestinationConflict { path: "/game/Data/MyMod".to_string() })
    );
    // the conflicting content is still there
    assert_eq!(fs.raw("/game/Data/MyMod/Keep.me"), Some(&SimNode::File));
}

#[test]
fn import_relinks_stale_sites() {
    let mut fs = SimFs::new();
    game_tree(&mut fs);
    assert_eq!(drive_export(&mut fs, "MyMod", "/game/Data", "/repo", None), Ok(()));
    // one site becomes an empty real directory, another a dangling link
    fs.remove("/game/Data/Mods/MyMod");
    fs.mkdir("/game/Data/Mods/MyMod");
    fs.nodes.insert(
        "/game/Data/Public/MyMod".to_string(),
        SimNode::Link("/somewhere/else".to_string()),
    );
    assert_eq!(drive_import(&mut fs, "MyMod", "/game/Data", "/repo"), Ok(()));
    assert_eq!(
        fs.raw("/game/Data/Mods/MyMod"),
        Some(&SimNode::Link("/repo/Mods/MyMod".to_string()))
    );
    assert_eq!(
        fs.raw("/game/Data/Public/MyMod"),
        Some(&SimNode::Link("/repo/Public/MyMod".to_string()))
    );
}

#[test]
fn discovery_drives_import_after_export() {
    let mut fs = SimFs::new();
    game_tree(&mut fs);
    assert_eq!(drive_export(&mut fs, "MyMod", "/game/Data", "/repo", None), Ok(()));
    // an importing caller that knows no identifier inspects the Projects
    // location's parent under the target tree
    let dir = projects_dir(&"/repo".to_string());
    let entries = fs.child_names(&dir);
    let name = discover_project(&entries).expect("one project is there");
    assert_eq!(name, "MyMod");
    assert_eq!(drive_import(&mut fs, &name, "/game/Data", "/repo"), Ok(()));
}
