use mycelia::copy_tree::{CopyEvent, CopyStep, CopyTree, DirEntryInfo};
use mycelia::publish::PublishError;

fn file(path: &str, name: &str) -> Result<DirEntryInfo, String> {
    Ok(DirEntryInfo { path: path.to_string(), file_name: name.to_string(), is_dir: false })
}

fn dir(path: &str, name: &str) -> Result<DirEntryInfo, String> {
    Ok(DirEntryInfo { path: path.to_string(), file_name: name.to_string(), is_dir: true })
}

/// Runs a copy against a fake file system: `listing` gives the entries of a
/// directory, and every other step succeeds. Returns the steps in order.
fn run_copy(listing: impl Fn(&str) -> Vec<Result<DirEntryInfo, String>>) -> (Vec<String>, Result<(), PublishError>) {
    let (mut tree, mut step) = CopyTree::start("/src", "/dest");
    let mut log = vec![];
    loop {
        let event = match step {
            CopyStep::CheckSource(p) => {
                log.push(format!("check {p}"));
                CopyEvent::SourceChecked(true)
            }
            CopyStep::EnsureDestination(d) => {
                log.push(format!("mkdir {d}"));
                CopyEvent::DestinationReady(None)
            }
            CopyStep::ReadDir(p) => {
                log.push(format!("list {p}"));
                CopyEvent::Listed(Ok(listing(&p)))
            }
            CopyStep::CopyFile { src, dest } => {
                log.push(format!("copy {src} {dest}"));
                CopyEvent::FileCopied(None)
            }
            CopyStep::Done(r) => return (log, r),
        };
        step = tree.on_event(event);
    }
}

#[test]
fn copies_a_tree_depth_first() {
    let (log, r) = run_copy(|p| match p {
        "/src" => vec![file("/src/a", "a"), dir("/src/sub", "sub"), file("/src/b", "b")],
        "/src/sub" => vec![file("/src/sub/c", "c")],
        _ => vec![],
    });
    assert!(r.is_ok());
    assert_eq!(
        log,
        vec![
            "check /src", "mkdir /dest", "list /src", "copy /src/a /dest/a", "check /src/sub",
            "mkdir /dest/sub", "list /src/sub", "copy /src/sub/c /dest/sub/c", "copy /src/b /dest/b",
        ]
    );
}

#[test]
fn copying_an_empty_directory() {
    let (log, r) = run_copy(|_| vec![]);
    assert!(r.is_ok());
    assert_eq!(log, vec!["check /src", "mkdir /dest", "list /src"]);
}

#[test]
fn an_unreadable_entry_stops_the_copy() {
    let (log, r) = run_copy(|_| vec![Err("denied".to_string()), file("/src/a", "a")]);
    assert!(matches!(r, Err(PublishError::ReadDirEntry { error }) if error == "denied"));
    assert_eq!(log, vec!["check /src", "mkdir /dest", "list /src"]);
}

#[test]
fn copy_errors() {
    let (mut t, _) = CopyTree::start("/src", "/dest");
    assert!(matches!(t.on_event(CopyEvent::SourceChecked(false)),
        CopyStep::Done(Err(PublishError::SourceNonExistent { src })) if src == "/src"));

    let (mut t, _) = CopyTree::start("/src", "/dest");
    t.on_event(CopyEvent::SourceChecked(true));
    assert!(matches!(t.on_event(CopyEvent::DestinationReady(Some("full".to_string()))),
        CopyStep::Done(Err(PublishError::DestinationCreation { dest, error })) if dest == "/dest" && error == "full"));

    let (mut t, _) = CopyTree::start("/src", "/dest");
    t.on_event(CopyEvent::SourceChecked(true));
    t.on_event(CopyEvent::DestinationReady(None));
    assert!(matches!(t.on_event(CopyEvent::Listed(Err("gone".to_string()))),
        CopyStep::Done(Err(PublishError::ReadDir { src, error })) if src == "/src" && error == "gone"));

    let (mut t, _) = CopyTree::start("/src", "/dest");
    t.on_event(CopyEvent::SourceChecked(true));
    t.on_event(CopyEvent::DestinationReady(None));
    t.on_event(CopyEvent::Listed(Ok(vec![file("/src/a", "a")])));
    assert!(matches!(t.on_event(CopyEvent::FileCopied(Some("io".to_string()))),
        CopyStep::Done(Err(PublishError::CopyFile { entry_path, dest_child, error }))
            if entry_path == "/src/a" && dest_child == "/dest/a" && error == "io"));
}

#[test]
fn every_listed_entry_is_copied_once_in_order() {
    let (log, r) = run_copy(|p| match p {
        "/src" => vec![dir("/src/d1", "d1"), dir("/src/d2", "d2")],
        "/src/d1" => vec![file("/src/d1/x", "x"), file("/src/d1/y", "y")],
        "/src/d2" => vec![file("/src/d2/z", "z")],
        _ => vec![],
    });
    assert!(r.is_ok());
    let copies: Vec<&String> = log.iter().filter(|l| l.starts_with("copy ")).collect();
    assert_eq!(copies, vec!["copy /src/d1/x /dest/d1/x", "copy /src/d1/y /dest/d1/y", "copy /src/d2/z /dest/d2/z"]);
}
