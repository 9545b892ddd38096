//! Which project a workspace belongs to.

use std::collections::HashMap;

use devo_memory::identity::{
    hex_text, normalize_identity_path, project_scope_id, resolve_relative, AskedPath,
    IdentityAnswer, IdentityDirectory, IdentityProgress, IdentityQuestion, IdentityState,
    NativePath, ProjectIdentityError, ProjectIdentitySource,
};

fn unix(path: &[u8]) -> NativePath {
    NativePath::Unix(path.to_vec())
}

fn below(directory: NativePath, name: &str) -> AskedPath {
    AskedPath::Below { directory, name: name.to_string() }
}

fn bytes_of(path: &NativePath) -> Vec<u8> {
    match path {
        NativePath::Unix(bytes) => bytes.clone(),
        other => panic!("expected a path of bytes, got {other:?}"),
    }
}

/// A file system of directories and text files, whose paths are canonical but for
/// `..` steps. Its paths are bytes with `/` as separator.
struct Disk {
    directories: Vec<Vec<u8>>,
    files: HashMap<Vec<u8>, String>,
}

impl Disk {
    fn new(directories: &[&[u8]], files: &[(&[u8], &str)]) -> Disk {
        Disk {
            directories: directories.iter().map(|path| path.to_vec()).collect(),
            files: files.iter().map(|(path, text)| (path.to_vec(), text.to_string())).collect(),
        }
    }

    fn present(&self, path: &[u8]) -> bool {
        self.directories.iter().any(|known| known == path) || self.files.contains_key(path)
    }

    fn asked(&self, path: &AskedPath) -> Vec<u8> {
        match path {
            AskedPath::Native(path) => bytes_of(path),
            AskedPath::Named(name) => name.clone().into_bytes(),
            AskedPath::Below { directory, name } => {
                let mut joined = bytes_of(directory);
                if joined.last() != Some(&b'/') {
                    joined.push(b'/');
                }
                joined.extend_from_slice(name.as_bytes());
                joined
            }
        }
    }

    fn parent(&self, path: &[u8]) -> Option<Vec<u8>> {
        if path == b"/" {
            return None;
        }
        match path.iter().rposition(|byte| *byte == b'/') {
            Some(0) => Some(b"/".to_vec()),
            Some(at) => Some(path[..at].to_vec()),
            None => None,
        }
    }

    fn canonical(&self, path: &[u8]) -> Result<Vec<u8>, String> {
        let mut steps: Vec<&[u8]> = Vec::new();
        for step in path.split(|byte| *byte == b'/').filter(|step| !step.is_empty()) {
            if step == b".." {
                steps.pop();
            } else {
                steps.push(step);
            }
        }
        let mut canonical = Vec::new();
        for step in steps {
            canonical.push(b'/');
            canonical.extend_from_slice(step);
        }
        if self.present(&canonical) {
            Ok(canonical)
        } else {
            Err("not found".to_string())
        }
    }

    fn answer(&self, question: IdentityQuestion) -> IdentityAnswer {
        match question {
            IdentityQuestion::Canonical(path) => {
                IdentityAnswer::Canonical(self.canonical(&self.asked(&path)).map(NativePath::Unix))
            }
            IdentityQuestion::Exists(path) => {
                IdentityAnswer::Truth(self.present(&self.asked(&path)))
            }
            IdentityQuestion::IsDirectory(path) => {
                IdentityAnswer::Truth(self.directories.contains(&self.asked(&path)))
            }
            IdentityQuestion::Text(path) => IdentityAnswer::Text(
                self.files
                    .get(&self.asked(&path))
                    .cloned()
                    .ok_or_else(|| "unreadable".to_string()),
            ),
            IdentityQuestion::IsAbsolute(name) => IdentityAnswer::Truth(name.starts_with('/')),
            IdentityQuestion::Parent(path) => {
                IdentityAnswer::Parent(self.parent(&bytes_of(&path)).map(NativePath::Unix))
            }
        }
    }

    fn resolve(&self, workspace: &[u8]) -> Result<IdentityDirectory, ProjectIdentityError> {
        let mut state = IdentityState::start(unix(workspace));
        loop {
            let reply = self.answer(state.question());
            match state.answer(reply) {
                IdentityProgress::Asking(next) => state = next,
                IdentityProgress::Resolved(directory) => return Ok(directory),
                IdentityProgress::Failed(error) => return Err(error),
            }
        }
    }
}

fn scope_id(directory: IdentityDirectory) -> String {
    project_scope_id(&directory.path)
}

/// A main checkout and linked worktree share the Git common-dir identity.
#[test]
fn linked_worktree_resolves_to_main_git_common_directory() {
    let disk = Disk::new(
        &[b"/tmp/main", b"/tmp/main/.git", b"/tmp/main/.git/worktrees/linked", b"/tmp/linked"],
        &[
            (b"/tmp/main/.git/worktrees/linked/commondir", "../..\n"),
            (b"/tmp/linked/.git", "gitdir: /tmp/main/.git/worktrees/linked\n"),
        ],
    );
    let main = disk.resolve(b"/tmp/main").expect("main identity");
    let linked = disk.resolve(b"/tmp/linked").expect("linked identity");

    assert_eq!(main, linked);
    assert_eq!(main.source, ProjectIdentitySource::GitCommonDirectory);
    assert_eq!(main.path, unix(b"/tmp/main/.git"));
    assert_eq!(scope_id(main).len(), 64);
}

/// Non-Git workspaces use their canonical workspace root as identity input.
#[test]
fn non_git_workspace_uses_canonical_workspace_root() {
    let disk = Disk::new(&[b"/tmp/workspace"], &[]);
    let identity = disk.resolve(b"/tmp/other/../workspace").expect("workspace identity");

    assert_eq!(identity.source, ProjectIdentitySource::WorkspaceRoot);
    assert_eq!(identity.path, unix(b"/tmp/workspace"));
    assert_eq!(scope_id(identity).len(), 64);
}

/// Distinct Windows-native path values never collapse through lossy UTF-8 conversion.
#[test]
fn identity_bytes_distinguish_unpaired_utf16() {
    let left = NativePath::Windows(vec![0xd800]);
    let right = NativePath::Windows(vec![0xd801]);

    assert_ne!(normalize_identity_path(&left), normalize_identity_path(&right));
}

/// On Unix, a literal backslash and a path separator produce distinct scopes.
#[test]
fn identity_distinguishes_backslash_from_path_separator() {
    let disk = Disk::new(&[b"/tmp/a\\b", b"/tmp/a/b"], &[]);
    let backslash = disk.resolve(b"/tmp/a\\b").expect("backslash identity");
    let separator = disk.resolve(b"/tmp/a/b").expect("separator identity");

    assert_ne!(scope_id(backslash), scope_id(separator));
}

/// On Unix, distinct non-UTF-8 names produce distinct scopes.
#[test]
fn identity_distinguishes_non_utf8_paths() {
    let disk = Disk::new(&[b"/tmp/project-\xff", b"/tmp/project-\xfe"], &[]);
    let left = disk.resolve(b"/tmp/project-\xff").expect("left identity");
    let right = disk.resolve(b"/tmp/project-\xfe").expect("right identity");

    assert_ne!(scope_id(left), scope_id(right));
}

#[test]
fn repositories_are_found_further_up() {
    let disk = Disk::new(&[b"/repo/.git", b"/repo/src/deep"], &[]);
    let identity = disk.resolve(b"/repo/src/deep").expect("identity");
    assert_eq!(identity.path, unix(b"/repo/.git"));
    assert_eq!(identity.source, ProjectIdentitySource::GitCommonDirectory);
}

#[test]
fn work_tree_without_common_file_is_its_own_directory() {
    let disk = Disk::new(
        &[b"/work", b"/git/work"],
        &[(b"/work/.git", "gitdir: ../git/work")],
    );
    assert_eq!(disk.resolve(b"/work").expect("identity").path, unix(b"/git/work"));
}

#[test]
fn broken_git_files_are_refused() {
    let disk = Disk::new(&[b"/work"], &[(b"/work/.git", "gitdir:  \n")]);
    let error = disk.resolve(b"/work").expect_err("no directory is named");
    assert_eq!(error, ProjectIdentityError::InvalidGitFile(below(unix(b"/work"), ".git")));
    assert_eq!(
        error.message("/work/.git"),
        "invalid linked-worktree gitdir file: /work/.git"
    );

    let empty = Disk::new(
        &[b"/work", b"/git"],
        &[(b"/work/.git", "gitdir: /git"), (b"/git/commondir", " ")],
    );
    assert_eq!(
        empty.resolve(b"/work"),
        Err(ProjectIdentityError::InvalidGitFile(below(unix(b"/git"), "commondir")))
    );

    let missing = Disk::new(&[], &[]);
    let error = missing.resolve(b"/gone").expect_err("no workspace");
    assert_eq!(error.path(), &AskedPath::Native(unix(b"/gone")));
    assert_eq!(
        error.message("/gone"),
        "failed to resolve project identity path /gone: not found"
    );
}

#[test]
fn absolute_paths_stand_by_themselves() {
    let base = unix(b"/a");
    assert_eq!(
        resolve_relative(base.clone(), "/b".to_string(), true),
        AskedPath::Named("/b".to_string())
    );
    assert_eq!(resolve_relative(base.clone(), "b".to_string(), false), below(base, "b"));
}

fn wide(path: &str) -> NativePath {
    NativePath::Windows(path.encode_utf16().collect())
}

/// What is absolute is for the platform to say: a drive begins a path there.
#[test]
fn linked_work_tree_may_name_a_drive() {
    let shared = wide("\\\\?\\C:\\main\\.git");
    let git_dir = wide("\\\\?\\C:\\main\\.git\\worktrees\\linked");
    let linked = wide("\\\\?\\C:\\linked");
    let answer = |question: IdentityQuestion| match question {
        IdentityQuestion::Canonical(AskedPath::Native(_)) => {
            IdentityAnswer::Canonical(Ok(linked.clone()))
        }
        IdentityQuestion::Canonical(AskedPath::Named(name)) => {
            assert_eq!(name, "C:/main/.git/worktrees/linked");
            IdentityAnswer::Canonical(Ok(git_dir.clone()))
        }
        IdentityQuestion::Canonical(AskedPath::Below { directory, name }) => {
            assert_eq!((directory, name.as_str()), (git_dir.clone(), "../.."));
            IdentityAnswer::Canonical(Ok(shared.clone()))
        }
        IdentityQuestion::Exists(_) => IdentityAnswer::Truth(true),
        IdentityQuestion::IsDirectory(_) => IdentityAnswer::Truth(false),
        IdentityQuestion::Text(path) if path == below(linked.clone(), ".git") => {
            IdentityAnswer::Text(Ok("gitdir: C:/main/.git/worktrees/linked\n".to_string()))
        }
        IdentityQuestion::Text(_) => IdentityAnswer::Text(Ok("../..\n".to_string())),
        IdentityQuestion::IsAbsolute(name) => IdentityAnswer::Truth(name.starts_with("C:/")),
        IdentityQuestion::Parent(_) => IdentityAnswer::Parent(None),
    };
    let mut state = IdentityState::start(wide("C:\\linked"));
    let directory = loop {
        let reply = answer(state.question());
        match state.answer(reply) {
            IdentityProgress::Asking(next) => state = next,
            IdentityProgress::Resolved(directory) => break directory,
            IdentityProgress::Failed(error) => panic!("expected an identity, got {error:?}"),
        }
    };
    assert_eq!(directory.path, shared);
    assert_eq!(directory.source, ProjectIdentitySource::GitCommonDirectory);
}

/// What lies above a directory has a shorter path; anything else ends the search.
#[test]
fn search_goes_upwards_alone() {
    let climbing = IdentityState::Climbing { canonical: unix(b"/a"), root: unix(b"/a") };
    match climbing.answer(IdentityAnswer::Parent(Some(unix(b"/a")))) {
        IdentityProgress::Resolved(directory) => {
            assert_eq!(directory.path, unix(b"/a"));
            assert_eq!(directory.source, ProjectIdentitySource::WorkspaceRoot);
        }
        other => panic!("expected an end, got {other:?}"),
    }
}

#[test]
fn wide_paths_fold_separators_and_letters() {
    assert_eq!(
        normalize_identity_path(&NativePath::Windows(vec![0x43, 0x3a, 0x2f, 0x0153])),
        vec![0x63, 0x00, 0x3a, 0x00, 0x5c, 0x00, 0x53, 0x01]
    );
    assert_eq!(normalize_identity_path(&NativePath::Other("ab".to_string())), b"ab");
}

#[test]
fn scope_ids_are_hashes_in_hexadecimal_form() {
    assert_eq!(hex_text(&vec![0x00, 0x0f, 0xa5]), "000fa5");
    assert_eq!(
        project_scope_id(&NativePath::Unix(b"abc".to_vec())),
        "ba7816bf8f01cfea414140de5dae2223b00361a396177a9cb410ff61f20015ad"
    );
}
