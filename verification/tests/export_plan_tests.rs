use impressy::export_plan::{resolve_destinations, CollisionPolicy, OutputTarget};

fn target(directory: &str, file_name: &str) -> OutputTarget {
    OutputTarget { directory: directory.to_string(), file_name: file_name.to_string() }
}

fn names(plan: &[Option<OutputTarget>]) -> Vec<Option<String>> {
    plan.iter().map(|t| t.as_ref().map(|t| t.file_name.clone())).collect()
}

#[test]
fn preserve_both_numbers_taken_names_from_two() {
    let requested = vec![target("out", "a.png"), target("out", "a.png"), target("out", "b.png")];
    let existing = vec![target("out", "a.png"), target("out", "a-2.png")];
    let plan = resolve_destinations(&requested, &existing, CollisionPolicy::PreserveBoth);
    assert_eq!(
        names(&plan),
        vec![Some("a-3.png".to_string()), Some("a-4.png".to_string()), Some("b.png".to_string())]
    );
}

#[test]
fn skip_leaves_out_taken_targets_only() {
    let requested = vec![target("out", "a.png"), target("out", "b.png"), target("out", "b.png")];
    let existing = vec![target("out", "a.png")];
    let plan = resolve_destinations(&requested, &existing, CollisionPolicy::Skip);
    assert_eq!(names(&plan), vec![None, Some("b.png".to_string()), None]);
}

#[test]
fn replace_overwrites_disk_files_but_not_earlier_outputs() {
    let requested = vec![target("out", "a.png"), target("out", "a.png")];
    let existing = vec![target("out", "a.png")];
    let plan = resolve_destinations(&requested, &existing, CollisionPolicy::Replace);
    assert_eq!(names(&plan), vec![Some("a.png".to_string()), Some("a-2.png".to_string())]);
}

#[test]
fn names_without_extension_or_stem_get_plain_numbers() {
    let requested = vec![target("out", "notes"), target("out", ".png")];
    let existing = vec![target("out", "notes"), target("out", ".png")];
    let plan = resolve_destinations(&requested, &existing, CollisionPolicy::PreserveBoth);
    assert_eq!(names(&plan), vec![Some("notes-2".to_string()), Some(".png-2".to_string())]);
}

#[test]
fn same_name_in_another_directory_is_free() {
    let requested = vec![target("one", "a.png"), target("two", "a.png")];
    let plan = resolve_destinations(&requested, &Vec::new(), CollisionPolicy::PreserveBoth);
    assert_eq!(plan[0].as_ref().unwrap().directory, "one");
    assert_eq!(plan[1].as_ref().unwrap().directory, "two");
    assert_eq!(names(&plan), vec![Some("a.png".to_string()), Some("a.png".to_string())]);
}

#[test]
fn default_policy_preserves_both_files() {
    assert_eq!(CollisionPolicy::default(), CollisionPolicy::PreserveBoth);
}
