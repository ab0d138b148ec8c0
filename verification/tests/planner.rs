use link_manager::errors::Error;
use link_manager::plan::{discover_project, plan, projects_dir, resolve};
use link_manager::protocol::{
    classify_site, classify_source, has_foreign_entry, marker_names, placeholder_name, FoundState,
    SiteState,
};

#[test]
fn plan_is_the_fixed_five_element_sequence() {
    let rels = plan(&"MyMod".to_string());
    let expect = vec![
        "MyMod",
        "Public/MyMod",
        "Projects/MyMod",
        "Mods/MyMod",
        "Editor/Mods/MyMod",
    ];
    assert_eq!(rels, expect);
}

#[test]
fn plan_is_deterministic() {
    let a = plan(&"Alpha".to_string());
    let b = plan(&"Alpha".to_string());
    assert_eq!(a, b);
}

#[test]
fn resolve_joins_both_trees() {
    let locs = resolve(
        &"MyMod".to_string(),
        &"/game/Data".to_string(),
        &"/repo".to_string(),
    );
    assert_eq!(locs.len(), 5);
    assert_eq!(locs[0].from, "/game/Data/MyMod");
    assert_eq!(locs[0].to, "/repo/MyMod");
    assert_eq!(locs[0].to_parent, "/repo");
    assert_eq!(locs[1].from, "/game/Data/Public/MyMod");
    assert_eq!(locs[1].to, "/repo/Public/MyMod");
    assert_eq!(locs[1].to_parent, "/repo/Public");
    assert_eq!(locs[2].from, "/game/Data/Projects/MyMod");
    assert_eq!(locs[2].to, "/repo/Projects/MyMod");
    assert_eq!(locs[2].to_parent, "/repo/Projects");
    assert_eq!(locs[3].from, "/game/Data/Mods/MyMod");
    assert_eq!(locs[3].to, "/repo/Mods/MyMod");
    assert_eq!(locs[3].to_parent, "/repo/Mods");
    assert_eq!(locs[4].from, "/game/Data/Editor/Mods/MyMod");
    assert_eq!(locs[4].to, "/repo/Editor/Mods/MyMod");
    assert_eq!(locs[4].to_parent, "/repo/Editor/Mods");
}

#[test]
fn projects_dir_is_the_projects_location_parent() {
    assert_eq!(projects_dir(&"/repo".to_string()), "/repo/Projects");
}

#[test]
fn discovery_picks_the_single_entry() {
    let entries = vec!["MyMod".to_string()];
    assert_eq!(discover_project(&entries), Ok("MyMod".to_string()));
}

#[test]
fn discovery_picks_the_first_of_several() {
    let entries = vec!["First".to_string(), "Second".to_string()];
    assert_eq!(discover_project(&entries), Ok("First".to_string()));
}

#[test]
fn discovery_of_nothing_is_no_project_found() {
    let entries: Vec<String> = Vec::new();
    assert_eq!(discover_project(&entries), Err(Error::NoProjectFound));
}

#[test]
fn source_classification() {
    // a real directory, not a link
    assert_eq!(classify_source(true, false, true), FoundState::RealDir);
    // nothing at all
    assert_eq!(classify_source(false, false, false), FoundState::Absent);
    // a symbolic link to a directory
    assert_eq!(classify_source(true, true, true), FoundState::AlreadyLinked);
    // a dangling symbolic link
    assert_eq!(classify_source(false, true, false), FoundState::AlreadyLinked);
    // a plain file
    assert_eq!(classify_source(false, false, true), FoundState::AlreadyLinked);
}

#[test]
fn site_classification() {
    assert_eq!(classify_site(false, false, false, false), SiteState::Absent);
    // a symbolic link, even a dangling one, is removable
    assert_eq!(classify_site(true, true, false, false), SiteState::Removable);
    // an empty real directory is removable
    assert_eq!(classify_site(true, false, true, true), SiteState::Removable);
    // a non-empty real directory is a conflict
    assert_eq!(classify_site(true, false, true, false), SiteState::Occupied);
    // a plain file is a conflict
    assert_eq!(classify_site(true, false, false, false), SiteState::Occupied);
}

#[test]
fn placeholder_detection() {
    assert!(!has_foreign_entry(&Vec::new()));
    assert!(!has_foreign_entry(&vec![".gitkeep".to_string()]));
    assert!(has_foreign_entry(&vec!["Meta.lsx".to_string()]));
    assert!(has_foreign_entry(&vec![
        ".gitkeep".to_string(),
        "Meta.lsx".to_string()
    ]));
    assert!(has_foreign_entry(&vec![
        "Meta.lsx".to_string(),
        ".gitkeep".to_string()
    ]));
}

#[test]
fn protocol_names() {
    assert_eq!(placeholder_name(), ".gitkeep");
    assert_eq!(marker_names(), vec!["Assets.pak", "Gustav.pak", "DiceSet01.pak"]);
}
