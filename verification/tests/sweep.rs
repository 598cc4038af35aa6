use massive_renamer::rename::{handle_work, Action, Event, Progress, RenameMode, RenameWork};
use std::collections::{BTreeMap, VecDeque};

/// A tree in memory: a path leads to the bytes of a file or to the names of
/// a directory's entries.
enum Node {
    File(Vec<u8>),
    Dir(Vec<String>),
}

struct Sweep {
    tree: BTreeMap<String, Node>,
    visited: Vec<String>,
    renamed: Vec<(String, String)>,
    printed: Vec<String>,
}

fn parent(path: &str) -> &str {
    &path[..path.rfind('/').unwrap()]
}

fn name(path: &str) -> &str {
    &path[path.rfind('/').unwrap() + 1..]
}

impl Sweep {
    fn rename(&mut self, from: &str, to_name: &str) -> String {
        let to = format!("{}/{}", parent(from), to_name);
        let moved: Vec<String> =
            self.tree.keys().filter(|p| *p == from || p.starts_with(&format!("{}/", from))).cloned().collect();
        for old in moved {
            let node = self.tree.remove(&old).unwrap();
            self.tree.insert(format!("{}{}", to, &old[from.len()..]), node);
        }
        if let Some(Node::Dir(names)) = self.tree.get_mut(parent(from)) {
            for entry in names.iter_mut() {
                if entry == name(from) {
                    *entry = String::from(to_name);
                }
            }
        }
        self.renamed.push((String::from(from), to.clone()));
        to
    }

    fn process(&mut self, work: RenameWork, queue: &mut VecDeque<RenameWork>) {
        let mut path = work.path.clone();
        self.visited.push(path.clone());
        let mut progress = Progress::new(work);
        let mut event = Event::Begin;
        loop {
            event = match handle_work(&mut progress, event) {
                Action::FetchName => Event::Name(Some(name(&path).as_bytes().to_vec())),
                Action::Rename(to_name) => {
                    path = self.rename(&path, &to_name);
                    Event::Renamed(path.clone())
                }
                Action::Inspect => Event::Kind(matches!(self.tree.get(&path), Some(Node::File(_)))),
                Action::Read => match self.tree.get(&path) {
                    Some(Node::File(bytes)) => Event::Content(bytes.clone()),
                    _ => Event::OpenFailed(String::from("not a file")),
                },
                Action::Write(bytes) => {
                    self.tree.insert(path.clone(), Node::File(bytes));
                    Event::Written
                }
                Action::List => match self.tree.get(&path) {
                    Some(Node::Dir(names)) => {
                        Event::Children(names.iter().map(|n| format!("{}/{}", path, n)).collect())
                    }
                    _ => Event::ListFailed(String::from("not a directory")),
                },
                Action::Finish(said, units) => {
                    self.printed.extend(said);
                    queue.extend(units);
                    return;
                }
                Action::Abort(why) => panic!("{}", why),
            };
        }
    }

    fn run(tree: BTreeMap<String, Node>, root: &str, find: &str, replace: &str, silence: bool) -> Sweep {
        let mut sweep = Sweep { tree, visited: Vec::new(), renamed: Vec::new(), printed: Vec::new() };
        let mut queue = VecDeque::new();
        queue.push_back(RenameWork::root(
            String::from(root),
            String::from(find),
            String::from(replace),
            false,
            RenameMode::Both,
            silence,
        ));
        while let Some(work) = queue.pop_front() {
            sweep.process(work, &mut queue);
        }
        sweep
    }
}

fn small_tree() -> BTreeMap<String, Node> {
    let mut tree = BTreeMap::new();
    tree.insert(String::from("/old"), Node::Dir(vec![String::from("old_dir")]));
    tree.insert(String::from("/old/old_dir"), Node::Dir(vec![String::from("old.txt")]));
    tree.insert(String::from("/old/old_dir/old.txt"), Node::File(b"old and old".to_vec()));
    tree
}

#[test]
fn every_entry_is_visited_once() {
    let sweep = Sweep::run(small_tree(), "/old", "old", "new", false);
    assert_eq!(sweep.visited, vec!["/old", "/old/old_dir", "/old/new_dir/old.txt"]);
    assert_eq!(sweep.visited.len(), sweep.tree.len());
}

#[test]
fn the_root_keeps_its_name_and_the_rest_is_rewritten() {
    let sweep = Sweep::run(small_tree(), "/old", "old", "new", false);
    assert_eq!(
        sweep.renamed,
        vec![
            (String::from("/old/old_dir"), String::from("/old/new_dir")),
            (String::from("/old/new_dir/old.txt"), String::from("/old/new_dir/new.txt"))
        ]
    );
    let paths: Vec<&String> = sweep.tree.keys().collect();
    assert_eq!(paths, vec!["/old", "/old/new_dir", "/old/new_dir/new.txt"]);
    assert!(matches!(sweep.tree.get("/old/new_dir/new.txt"), Some(Node::File(b)) if b == b"new and new"));
    assert_eq!(
        sweep.printed,
        vec![
            "/old/old_dir:\n   ·Renamed to \"/old/new_dir\".\n",
            "/old/new_dir/old.txt:\n   ·Renamed to \"/old/new_dir/new.txt\".\n   ·Replaced 2 matches.\n"
        ]
    );
}

#[test]
fn a_silent_sweep_rewrites_and_prints_nothing() {
    let loud = Sweep::run(small_tree(), "/old", "old", "new", false);
    let quiet = Sweep::run(small_tree(), "/old", "old", "new", true);
    assert!(quiet.printed.is_empty());
    assert_eq!(quiet.renamed, loud.renamed);
    assert_eq!(quiet.visited, loud.visited);
    assert!(matches!(quiet.tree.get("/old/new_dir/new.txt"), Some(Node::File(b)) if b == b"new and new"));
}

#[test]
fn a_sweep_that_replaces_a_string_by_itself_leaves_the_tree() {
    let sweep = Sweep::run(small_tree(), "/old", "old", "old", false);
    let paths: Vec<&String> = sweep.tree.keys().collect();
    assert_eq!(paths, vec!["/old", "/old/old_dir", "/old/old_dir/old.txt"]);
    assert!(matches!(sweep.tree.get("/old/old_dir/old.txt"), Some(Node::File(b)) if b == b"old and old"));
}

#[test]
fn a_second_sweep_finds_nothing() {
    let first = Sweep::run(small_tree(), "/old", "old", "new", false);
    let second = Sweep::run(first.tree, "/old", "old", "new", false);
    assert!(second.renamed.is_empty());
    assert!(second.printed.is_empty());
    assert_eq!(second.visited.len(), 3);
}
