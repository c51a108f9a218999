use folder_search::search::{MatchEvent, SearchControl, SearchRequest, Traversal, WalkEntry};

struct Node {
    name: &'static str,
    dir: bool,
    children: Vec<Node>,
}

fn d(name: &'static str, children: Vec<Node>) -> Node {
    Node { name, dir: true, children }
}

fn f(name: &'static str) -> Node {
    Node { name, dir: false, children: vec![] }
}

fn walk(t: &mut Traversal, control: &SearchControl, parent: &str, nodes: &[Node], out: &mut Vec<MatchEvent>) -> bool {
    for n in nodes {
        if t.should_stop(control) {
            return false;
        }
        let path = format!("{}/{}", parent, n.name);
        let entry = if n.dir {
            WalkEntry::Dir { name: n.name.to_string(), path: path.clone() }
        } else {
            WalkEntry::File
        };
        let step = t.visit(&entry);
        if let Some(e) = step.event {
            out.push(e);
        }
        if n.dir && !step.prune {
            if !walk(t, control, &path, &n.children, out) {
                return false;
            }
        }
    }
    true
}

fn run(req: &SearchRequest, control: &mut SearchControl, tree: &[Node]) -> Vec<MatchEvent> {
    let mut t = Traversal::start(req, control);
    let mut out = Vec::new();
    walk(&mut t, control, &req.root_path, tree, &mut out);
    if let Some(e) = t.finish() {
        out.push(e);
    }
    out
}

fn req(target: &str, skips: &[&str], recurse: bool, fuzzy: bool, case_sensitive: bool) -> SearchRequest {
    SearchRequest {
        root_path: "/root".to_string(),
        target_name: target.to_string(),
        skip_names: skips.iter().map(|s| s.to_string()).collect(),
        recurse_into_matches: recurse,
        fuzzy,
        case_sensitive,
        report_skipped: true,
    }
}

fn found(p: &str) -> MatchEvent {
    MatchEvent::FolderFound(p.to_string())
}

fn sample_tree() -> Vec<Node> {
    vec![
        d("a", vec![d("target", vec![]), d("skip", vec![d("target", vec![])])]),
        d("b", vec![d("target", vec![])]),
    ]
}

#[test]
fn scenario_skip_and_prune() {
    let mut c = SearchControl::new();
    let ev = run(&req("target", &["skip"], false, false, false), &mut c, &sample_tree());
    assert_eq!(
        ev,
        vec![
            found("/root/a/target"),
            MatchEvent::SkipFolderFound("/root/a/skip".to_string()),
            found("/root/b/target"),
        ]
    );
}

#[test]
fn skipped_target_forces_no_recursion() {
    let tree = vec![d("target", vec![d("target", vec![])])];
    let mut c = SearchControl::new();
    let ev = run(&req("target", &["TARGET"], true, false, false), &mut c, &tree);
    assert_eq!(
        ev,
        vec![
            MatchEvent::SkipFolderFound("/root/target".to_string()),
            MatchEvent::NoFoldersFound("/root".to_string()),
        ]
    );
}

#[test]
fn recursion_into_matches_when_allowed() {
    let tree = vec![d("target", vec![d("target", vec![])])];
    let mut c = SearchControl::new();
    let ev = run(&req("target", &[], true, false, false), &mut c, &tree);
    assert_eq!(ev, vec![found("/root/target"), found("/root/target/target")]);
    let ev2 = run(&req("target", &[], false, false, false), &mut c, &tree);
    assert_eq!(ev2, vec![found("/root/target")]);
}

#[test]
fn same_search_twice_gives_same_events() {
    let mut c = SearchControl::new();
    let r = req("target", &["skip"], false, false, false);
    let first = run(&r, &mut c, &sample_tree());
    let second = run(&r, &mut c, &sample_tree());
    assert_eq!(first, second);
}

#[test]
fn no_folders_found_only_without_matches() {
    let mut c = SearchControl::new();
    let ev = run(&req("nothing", &[], false, false, false), &mut c, &sample_tree());
    assert_eq!(ev, vec![MatchEvent::NoFoldersFound("/root".to_string())]);
    let ev = run(&req("b", &[], false, false, false), &mut c, &sample_tree());
    assert_eq!(ev, vec![found("/root/b")]);
}

#[test]
fn files_are_never_matched() {
    let tree = vec![f("target"), d("x", vec![f("target")])];
    let mut c = SearchControl::new();
    let ev = run(&req("target", &[], false, false, false), &mut c, &tree);
    assert_eq!(ev, vec![MatchEvent::NoFoldersFound("/root".to_string())]);
}

#[test]
fn fuzzy_and_case_rules() {
    let tree = vec![d("MyTarget", vec![]), d("other", vec![])];
    let mut c = SearchControl::new();
    let ev = run(&req("target", &[], false, true, false), &mut c, &tree);
    assert_eq!(ev, vec![found("/root/MyTarget")]);
    let ev = run(&req("target", &[], false, true, true), &mut c, &tree);
    assert_eq!(ev, vec![MatchEvent::NoFoldersFound("/root".to_string())]);
    let ev = run(&req("Target", &[], false, true, true), &mut c, &tree);
    assert_eq!(ev, vec![found("/root/MyTarget")]);
    let ev = run(&req("mytarget", &[], false, false, false), &mut c, &tree);
    assert_eq!(ev, vec![found("/root/MyTarget")]);
}

#[test]
fn unreadable_entries_are_skipped() {
    let mut c = SearchControl::new();
    let r = req("x", &[], false, false, false);
    let mut t = Traversal::start(&r, &mut c);
    let s = t.visit(&WalkEntry::Unreadable);
    assert_eq!(s.event, None);
    assert!(!s.prune);
    let s = t.visit(&WalkEntry::Dir { name: "x".to_string(), path: "/root/x".to_string() });
    assert_eq!(s.event, Some(found("/root/x")));
    assert!(s.prune);
    assert_eq!(t.finish(), None);
}

#[test]
fn stop_during_search_ends_it_early() {
    let children: Vec<Node> = (0..2500).map(|_| d("target", vec![])).collect();
    let tree = vec![d("top", children)];
    let mut c = SearchControl::new();
    let r = req("target", &[], false, false, false);
    let mut t = Traversal::start(&r, &mut c);
    let mut seen = 0usize;
    let mut entries = 0usize;
    for n in tree[0].children.iter() {
        if t.should_stop(&c) {
            break;
        }
        entries += 1;
        let step = t.visit(&WalkEntry::Dir { name: n.name.to_string(), path: "/root/top/target".to_string() });
        if step.event.is_some() {
            seen += 1;
        }
        if entries == 10 {
            c.stop();
        }
    }
    assert_eq!(entries, 1000);
    assert_eq!(seen, 1000);
    assert_eq!(t.finish(), None);
}

#[test]
fn stop_without_search_is_harmless() {
    let mut c = SearchControl::new();
    assert!(c.continue_search());
    c.stop();
    c.stop();
    assert!(!c.continue_search());
    let ev = run(&req("target", &["skip"], false, false, false), &mut c, &sample_tree());
    assert_eq!(ev.len(), 3);
    assert!(c.continue_search());
}

#[test]
fn reset_restores_the_flag() {
    let mut c = SearchControl::new();
    c.stop();
    c.reset();
    assert!(c.continue_search());
}

#[test]
fn skip_notifications_can_be_suppressed() {
    let mut c = SearchControl::new();
    let mut r = req("target", &["skip"], false, false, false);
    r.report_skipped = false;
    let ev = run(&r, &mut c, &sample_tree());
    assert_eq!(ev, vec![found("/root/a/target"), found("/root/b/target")]);
}
