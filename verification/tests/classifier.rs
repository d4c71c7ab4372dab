use commit_tool::classifier::{
    classify_tags, count_tags, file_signals, file_tag, file_tags, find_changed_file_types,
    no_staged_files, suggest_type, ClassifyError, FileSignals, Tag,
};

fn paths(items: &[&str]) -> Vec<String> {
    items.iter().map(|s| s.to_string()).collect()
}

#[test]
fn no_files_means_nothing_staged() {
    assert!(no_staged_files(&paths(&[])));
    assert!(no_staged_files(&paths(&[""])));
    assert!(!no_staged_files(&paths(&["a.md"])));
    assert!(!no_staged_files(&paths(&["", ""])));
    assert_eq!(find_changed_file_types(&paths(&[]), &false), Ok((None, 0)));
    assert_eq!(find_changed_file_types(&paths(&[""]), &true), Ok((None, 0)));
}

#[test]
fn two_docs_files_propose_docs() {
    let r = find_changed_file_types(&paths(&["a.md", "b.md"]), &false);
    assert_eq!(r, Ok((Some(Tag::Docs), 1)));
}

#[test]
fn single_feature_on_existing_branch_is_refactor() {
    let r = find_changed_file_types(&paths(&["src/x.rs"]), &false);
    assert_eq!(r, Ok((Some(Tag::Refactor), 1)));
}

#[test]
fn single_feature_on_new_branch_stays_feature() {
    let r = find_changed_file_types(&paths(&["src/x.rs"]), &true);
    assert_eq!(r, Ok((Some(Tag::Feat), 1)));
}

#[test]
fn test_and_feature_on_existing_branch_propose_test() {
    let r = find_changed_file_types(&paths(&["a.test.js", "b.rs"]), &false);
    assert_eq!(r, Ok((Some(Tag::Test), 2)));
}

#[test]
fn test_and_feature_on_new_branch_propose_feature() {
    let r = find_changed_file_types(&paths(&["a.test.js", "b.rs"]), &true);
    assert_eq!(r, Ok((Some(Tag::Feat), 2)));
}

#[test]
fn first_matching_rule_wins() {
    let tag = |p: &str| file_tag(file_signals(p).unwrap());
    assert_eq!(tag(".github/workflows/ci.yml"), Tag::Ci);
    assert_eq!(tag("Dockerfile"), Tag::Ci);
    assert_eq!(tag("deploy/iac/main.tf"), Tag::Ci);
    assert_eq!(tag(".eslintrc.test.js"), Tag::Ci);
    assert_eq!(tag("src/a.spec.ts"), Tag::Test);
    assert_eq!(tag("src/a.jest.ts"), Tag::Test);
    assert_eq!(tag("webpack.config.js"), Tag::Test);
    assert_eq!(tag("jest.unit"), Tag::Test);
    assert_eq!(tag("docs/a.test.md"), Tag::Test);
    assert_eq!(tag("README.md"), Tag::Docs);
    assert_eq!(tag("notes.md.bak"), Tag::Feat);
    assert_eq!(tag("package.json"), Tag::Build);
    assert_eq!(tag("web/package.json"), Tag::Build);
    assert_eq!(tag("package.json.orig"), Tag::Build);
    assert_eq!(tag("web/packageXjson"), Tag::Feat);
    assert_eq!(tag("src/package_json.rs"), Tag::Feat);
    assert_eq!(tag("web/yarn.lock"), Tag::Build);
    assert_eq!(tag("yarnXlock"), Tag::Feat);
    assert_eq!(tag("yarn_lock"), Tag::Feat);
    assert_eq!(tag("yarn.lock"), Tag::Build);
    assert_eq!(tag("yarn.lock.old"), Tag::Feat);
    assert_eq!(tag("src/main.rs"), Tag::Feat);
}

#[test]
fn signals_decide_in_order() {
    let all = FileSignals { ci: true, test: true, docs: true, build: true };
    assert_eq!(file_tag(all), Tag::Ci);
    assert_eq!(file_tag(FileSignals { ci: false, ..all }), Tag::Test);
    assert_eq!(file_tag(FileSignals { ci: false, test: false, ..all }), Tag::Docs);
    assert_eq!(
        file_tag(FileSignals { ci: false, test: false, docs: false, build: true }),
        Tag::Build
    );
    assert_eq!(
        file_tag(FileSignals { ci: false, test: false, docs: false, build: false }),
        Tag::Feat
    );
}

#[test]
fn empty_paths_get_no_tag() {
    let tags = file_tags(&paths(&["", "a.md", "", "b.rs", "Dockerfile"])).unwrap();
    assert_eq!(tags, vec![Tag::Docs, Tag::Feat, Tag::Ci]);
}

#[test]
fn counts_sum_to_number_of_tagged_paths() {
    let files = paths(&["a.md", "", "b.md", "x.test.js", "src/x.rs", ".env", "package.json"]);
    let tags = file_tags(&files).unwrap();
    let counts = count_tags(&tags);
    assert_eq!(tags.len(), 6);
    assert_eq!(counts.docs, 2);
    assert_eq!(counts.test, 1);
    assert_eq!(counts.feat, 1);
    assert_eq!(counts.ci, 1);
    assert_eq!(counts.build, 1);
    let sum = counts.test + counts.docs + counts.build + counts.ci + counts.feat + counts.fix
        + counts.style + counts.refactor + counts.perf + counts.chore + counts.revert;
    assert_eq!(sum, 6);
    assert_eq!(counts.get(Tag::Docs), 2);
    assert_eq!(counts.get(Tag::Revert), 0);
}

#[test]
fn used_types_descend_by_name() {
    let tags = vec![
        Tag::Build, Tag::Chore, Tag::Ci, Tag::Docs, Tag::Feat, Tag::Fix, Tag::Perf,
        Tag::Refactor, Tag::Revert, Tag::Style, Tag::Test, Tag::Docs,
    ];
    let used = count_tags(&tags).used_types();
    let mut names: Vec<&str> = used.iter().map(|t| t.name()).collect();
    assert_eq!(names.len(), 11);
    let listed = names.clone();
    names.sort();
    names.reverse();
    assert_eq!(listed, names);
    assert_eq!(listed[0], "test");
    assert_eq!(listed[10], "build");
}

#[test]
fn suggestion_rules() {
    assert_eq!(suggest_type(&vec![], &true), None);
    assert_eq!(suggest_type(&vec![], &false), None);
    assert_eq!(suggest_type(&vec![Tag::Feat], &false), Some(Tag::Refactor));
    assert_eq!(suggest_type(&vec![Tag::Feat], &true), Some(Tag::Feat));
    assert_eq!(suggest_type(&vec![Tag::Ci], &false), Some(Tag::Ci));
    assert_eq!(suggest_type(&vec![Tag::Test, Tag::Docs], &true), Some(Tag::Feat));
    assert_eq!(suggest_type(&vec![Tag::Test, Tag::Docs], &false), Some(Tag::Test));
    assert_eq!(suggest_type(&vec![Tag::Feat, Tag::Docs], &false), Some(Tag::Refactor));
}

#[test]
fn classification_of_tags() {
    assert_eq!(classify_tags(&vec![], &false), (None, 0));
    assert_eq!(classify_tags(&vec![Tag::Docs, Tag::Docs], &false), (Some(Tag::Docs), 1));
    assert_eq!(classify_tags(&vec![Tag::Feat, Tag::Test], &false), (Some(Tag::Test), 2));
    assert_eq!(classify_tags(&vec![Tag::Docs, Tag::Ci, Tag::Feat], &false), (Some(Tag::Refactor), 3));
}

#[test]
fn classify_error_is_comparable() {
    assert_eq!(ClassifyError::InvalidPattern, ClassifyError::InvalidPattern);
}

#[test]
fn a_path_that_only_resembles_a_manifest_is_a_feature() {
    let r = find_changed_file_types(&paths(&["src/package_json.rs"]), &true);
    assert_eq!(r, Ok((Some(Tag::Feat), 1)));
    let r = find_changed_file_types(&paths(&["src/package_json.rs"]), &false);
    assert_eq!(r, Ok((Some(Tag::Refactor), 1)));
    let r = find_changed_file_types(&paths(&["package.json"]), &true);
    assert_eq!(r, Ok((Some(Tag::Build), 1)));
    let r = find_changed_file_types(&paths(&["package.json", "yarn.lock"]), &false);
    assert_eq!(r, Ok((Some(Tag::Build), 1)));
}
