//! Which project a workspace belongs to.
//!
//! The identity of a project is the directory that all work trees of its repository
//! share; a workspace outside any repository is a project of its own. Looking at
//! the file system is left to the caller: [`IdentityState`] asks one question at a
//! time and is told the answer. What a path is depends on the platform: which ones
//! are absolute, which directory one lies in and what lies below a directory are
//! questions as well.

use vstd::prelude::*;
use vstd::string::StrSliceExecFns;
use vstd::utf8::encode_utf8;

use sha2::Digest;

use crate::text::{
    char_range, chars_of, concat, has_prefix, opt_view, starts_with, text_of, trim, trimmed,
};

verus! {

// ---------------------------------------------------------------------------
// Paths.
// ---------------------------------------------------------------------------
/// A path in the form of its platform.
#[derive(Debug, PartialEq, Eq)]
pub enum NativePath {
    /// The bytes of a path.
    Unix(Vec<u8>),
    /// The UTF-16 units of a path, paired or not.
    Windows(Vec<u16>),
    /// The text of a path.
    Other(String),
}

/// The view of [`NativePath`].
#[verifier::ext_equal]
pub enum NativePathView {
    Unix(Seq<u8>),
    Windows(Seq<u16>),
    Other(Seq<char>),
}

impl View for NativePath {
    type V = NativePathView;

    open spec fn view(&self) -> NativePathView {
        match self {
            NativePath::Unix(bytes) => NativePathView::Unix(bytes@),
            NativePath::Windows(units) => NativePathView::Windows(units@),
            NativePath::Other(text) => NativePathView::Other(text@),
        }
    }
}

impl Clone for NativePath {
    fn clone(&self) -> (result: Self)
        ensures
            result@ == self@,
    {
        match self {
            NativePath::Unix(bytes) => NativePath::Unix(copy_bytes(bytes)),
            NativePath::Windows(units) => {
                let copy = units.clone();
                assert(copy@ =~= units@);
                NativePath::Windows(copy)
            },
            NativePath::Other(text) => NativePath::Other(text.clone()),
        }
    }
}

impl NativePathView {
    /// How long the path is.
    pub open spec fn len(self) -> nat {
        match self {
            NativePathView::Unix(bytes) => bytes.len(),
            NativePathView::Windows(units) => units.len(),
            NativePathView::Other(text) => text.len(),
        }
    }
}

/// A path that the file system is asked about. How a path is put together is a
/// matter of the platform, so it is left to whoever answers.
#[derive(Debug, PartialEq, Eq)]
pub enum AskedPath {
    /// A path that was given or told.
    Native(NativePath),
    /// A path that a file names.
    Named(String),
    /// A path below a directory.
    Below { directory: NativePath, name: String },
}

/// The view of [`AskedPath`].
#[verifier::ext_equal]
pub enum AskedPathView {
    Native(NativePathView),
    Named(Seq<char>),
    Below { directory: NativePathView, name: Seq<char> },
}

impl View for AskedPath {
    type V = AskedPathView;

    open spec fn view(&self) -> AskedPathView {
        match self {
            AskedPath::Native(path) => AskedPathView::Native(path@),
            AskedPath::Named(name) => AskedPathView::Named(name@),
            AskedPath::Below { directory, name } => AskedPathView::Below {
                directory: directory@,
                name: name@,
            },
        }
    }
}

impl Clone for AskedPath {
    fn clone(&self) -> (result: Self)
        ensures
            result@ == self@,
    {
        match self {
            AskedPath::Native(path) => AskedPath::Native(path.clone()),
            AskedPath::Named(name) => AskedPath::Named(name.clone()),
            AskedPath::Below { directory, name } => AskedPath::Below {
                directory: directory.clone(),
                name: name.clone(),
            },
        }
    }
}

fn path_len(path: &NativePath) -> (result: usize)
    ensures
        result == path@.len(),
{
    match path {
        NativePath::Unix(bytes) => bytes.len(),
        NativePath::Windows(units) => units.len(),
        NativePath::Other(text) => {
            let chars = chars_of(text.as_str());
            chars.len()
        },
    }
}

/// A path that a file in a directory names: an absolute one stands by itself.
pub open spec fn relative_to(
    base: NativePathView,
    named: Seq<char>,
    is_absolute: bool,
) -> AskedPathView {
    if is_absolute {
        AskedPathView::Named(named)
    } else {
        AskedPathView::Below { directory: base, name: named }
    }
}

/// Resolves a path against a directory, given whether it is absolute.
pub fn resolve_relative(base: NativePath, named: String, is_absolute: bool) -> (result: AskedPath)
    ensures
        result@ == relative_to(base@, named@, is_absolute),
{
    if is_absolute {
        AskedPath::Named(named)
    } else {
        AskedPath::Below { directory: base, name: named }
    }
}

/// What a repository is found by.
pub open spec fn git_entry_of(root: NativePathView) -> AskedPathView {
    AskedPathView::Below { directory: root, name: ".git"@ }
}

fn git_entry(root: &NativePath) -> (result: AskedPath)
    ensures
        result@ == git_entry_of(root@),
{
    AskedPath::Below { directory: root.clone(), name: ".git".to_string() }
}

/// Where a work tree says which directory it shares with others.
pub open spec fn common_file_of(git_dir: NativePathView) -> AskedPathView {
    AskedPathView::Below { directory: git_dir, name: "commondir"@ }
}

fn common_file(git_dir: &NativePath) -> (result: AskedPath)
    ensures
        result@ == common_file_of(git_dir@),
{
    AskedPath::Below { directory: git_dir.clone(), name: "commondir".to_string() }
}

// ---------------------------------------------------------------------------
// Git files.
// ---------------------------------------------------------------------------
/// The path that a git file names, if it names one.
pub open spec fn named_git_dir(text: Seq<char>) -> Option<Seq<char>> {
    let line = trimmed(text);
    if has_prefix(line, "gitdir:"@) && trimmed(line.skip("gitdir:"@.len() as int)).len() > 0 {
        Some(trimmed(line.skip("gitdir:"@.len() as int)))
    } else {
        None
    }
}

fn read_git_file(text: &str) -> (result: Option<String>)
    ensures
        match result {
            Some(path) => named_git_dir(text@) == Some(path@),
            None => named_git_dir(text@) is None,
        },
{
    let chars = chars_of(text);
    let line = trim(&chars);
    let prefix = chars_of("gitdir:");
    if !starts_with(&line, "gitdir:") {
        return None;
    }
    let rest = char_range(&line, prefix.len(), line.len());
    assert(rest@ =~= line@.skip(prefix@.len() as int));
    let path = trim(&rest);
    if path.len() == 0 {
        return None;
    }
    Some(text_of(&path))
}

// ---------------------------------------------------------------------------
// Resolution.
// ---------------------------------------------------------------------------
/// What the identity of a project comes from.
#[derive(Debug, Clone, Copy, PartialEq, Eq, Structural)]
pub enum ProjectIdentitySource {
    GitCommonDirectory,
    WorkspaceRoot,
}

/// Why the identity of a project could not be resolved.
#[derive(Debug, PartialEq, Eq)]
pub enum ProjectIdentityError {
    /// A path could not be read.
    Io { path: AskedPath, reason: String },
    /// A git file names no directory.
    InvalidGitFile(AskedPath),
}

/// The view of [`ProjectIdentityError`].
#[verifier::ext_equal]
pub enum ProjectIdentityErrorView {
    Io { path: AskedPathView, reason: Seq<char> },
    InvalidGitFile(AskedPathView),
}

impl View for ProjectIdentityError {
    type V = ProjectIdentityErrorView;

    open spec fn view(&self) -> ProjectIdentityErrorView {
        match self {
            ProjectIdentityError::Io { path, reason } => ProjectIdentityErrorView::Io {
                path: path@,
                reason: reason@,
            },
            ProjectIdentityError::InvalidGitFile(path) => {
                ProjectIdentityErrorView::InvalidGitFile(path@)
            },
        }
    }
}

impl ProjectIdentityError {
    /// The path that the error is about.
    pub fn path(&self) -> (result: &AskedPath)
        ensures
            result@ == match self@ {
                ProjectIdentityErrorView::Io { path, reason } => path,
                ProjectIdentityErrorView::InvalidGitFile(path) => path,
            },
    {
        match self {
            ProjectIdentityError::Io { path, .. } => path,
            ProjectIdentityError::InvalidGitFile(path) => path,
        }
    }

    /// What the error says to a reader, to whom its path is shown as a text.
    pub fn message(&self, shown_path: &str) -> (result: String)
        ensures
            result@ == match self@ {
                ProjectIdentityErrorView::Io { path, reason } => {
                    "failed to resolve project identity path "@ + shown_path@ + ": "@ + reason
                },
                ProjectIdentityErrorView::InvalidGitFile(path) => {
                    "invalid linked-worktree gitdir file: "@ + shown_path@
                },
            },
    {
        match self {
            ProjectIdentityError::Io { reason, .. } => {
                let mut text = concat("failed to resolve project identity path ", shown_path);
                text.append(": ");
                text.append(reason.as_str());
                text
            },
            ProjectIdentityError::InvalidGitFile(_) => {
                concat("invalid linked-worktree gitdir file: ", shown_path)
            },
        }
    }
}

/// How far the identity of a project is resolved.
#[derive(Debug, PartialEq, Eq)]
#[allow(inconsistent_fields)]
pub enum IdentityState {
    /// The workspace is to be made canonical.
    Workspace { path: NativePath },
    /// A repository is looked for, here and further up.
    Searching { canonical: NativePath, root: NativePath },
    /// There is none here; further up is the directory that this one lies in.
    Climbing { canonical: NativePath, root: NativePath },
    /// A repository was found.
    Found { root: NativePath },
    /// A git file is to be read.
    GitFile { root: NativePath },
    /// A git file names a directory, absolute or not.
    GitName { root: NativePath, named: String },
    /// The directory that a git file names is to be made canonical.
    GitDirectory { path: AskedPath },
    /// A work tree may say which directory it shares.
    CommonFile { git_dir: NativePath },
    /// What it says is to be read.
    CommonText { git_dir: NativePath },
    /// It names a directory, absolute or not.
    CommonName { git_dir: NativePath, named: String },
    /// The shared directory is to be made canonical.
    CommonDirectory { path: AskedPath },
}

/// A question about the file system.
#[derive(Debug, PartialEq, Eq)]
pub enum IdentityQuestion {
    /// What is the canonical form of a path?
    Canonical(AskedPath),
    /// Is there something at a path?
    Exists(AskedPath),
    /// Is a directory there?
    IsDirectory(AskedPath),
    /// What does the file there hold?
    Text(AskedPath),
    /// Is a path that a file names absolute?
    IsAbsolute(String),
    /// Which directory does a path lie in?
    Parent(NativePath),
}

/// The answer to a question about the file system.
#[derive(Debug, PartialEq, Eq)]
pub enum IdentityAnswer {
    /// The canonical path, or why there is none.
    Canonical(Result<NativePath, String>),
    /// Whether it is so.
    Truth(bool),
    /// The text of a file, or why it cannot be read.
    Text(Result<String, String>),
    /// The directory that a path lies in, if it lies in one.
    Parent(Option<NativePath>),
}

/// The directory that is the identity of a project.
#[derive(Debug, PartialEq, Eq)]
pub struct IdentityDirectory {
    pub path: NativePath,
    pub source: ProjectIdentitySource,
}

/// What follows an answer.
#[derive(Debug, PartialEq, Eq)]
pub enum IdentityProgress {
    /// There is another question.
    Asking(IdentityState),
    /// The identity is resolved.
    Resolved(IdentityDirectory),
    /// The identity cannot be resolved.
    Failed(ProjectIdentityError),
}

/// A file system and its platform, as far as they are asked about.
pub struct Files {
    pub canonical: spec_fn(AskedPathView) -> Result<NativePathView, Seq<char>>,
    pub exists: spec_fn(AskedPathView) -> bool,
    pub is_directory: spec_fn(AskedPathView) -> bool,
    pub text: spec_fn(AskedPathView) -> Result<Seq<char>, Seq<char>>,
    pub is_absolute: spec_fn(Seq<char>) -> bool,
    pub parent: spec_fn(NativePathView) -> Option<NativePathView>,
}

/// A directory and what it is, or why there is none.
pub type Resolution = Result<(NativePathView, ProjectIdentitySource), ProjectIdentityErrorView>;

/// A path in canonical form.
pub open spec fn canonical_in(files: Files, path: AskedPathView) -> Result<
    NativePathView,
    ProjectIdentityErrorView,
> {
    match (files.canonical)(path) {
        Ok(canonical) => Ok(canonical),
        Err(reason) => Err(ProjectIdentityErrorView::Io { path, reason }),
    }
}

/// The text of a file.
pub open spec fn text_in(files: Files, path: AskedPathView) -> Result<
    Seq<char>,
    ProjectIdentityErrorView,
> {
    match (files.text)(path) {
        Ok(text) => Ok(text),
        Err(reason) => Err(ProjectIdentityErrorView::Io { path, reason }),
    }
}

/// A path that a file in a directory names.
pub open spec fn named_in(files: Files, base: NativePathView, named: Seq<char>) -> AskedPathView {
    relative_to(base, named, (files.is_absolute)(named))
}

/// The directory of a repository, if it is one.
pub open spec fn git_resolution(
    result: Result<NativePathView, ProjectIdentityErrorView>,
) -> Resolution {
    match result {
        Ok(path) => Ok((path, ProjectIdentitySource::GitCommonDirectory)),
        Err(error) => Err(error),
    }
}

/// The directory that another lies in. What a directory lies in has a shorter path:
/// what has none is not it.
pub open spec fn directory_above(
    told: Option<NativePathView>,
    root: NativePathView,
) -> Option<NativePathView> {
    match told {
        Some(parent) if parent.len() < root.len() => Some(parent),
        _ => None,
    }
}

/// The nearest directory, from one upwards, that holds a repository.
pub open spec fn repository_root(files: Files, root: NativePathView) -> Option<NativePathView>
    decreases root.len(),
{
    if (files.exists)(git_entry_of(root)) {
        Some(root)
    } else {
        match directory_above((files.parent)(root), root) {
            Some(parent) => repository_root(files, parent),
            None => None,
        }
    }
}

/// The directory that the work tree of a git directory shares with others.
pub open spec fn shared_directory(files: Files, git_dir: NativePathView) -> Result<
    NativePathView,
    ProjectIdentityErrorView,
> {
    if !(files.exists)(common_file_of(git_dir)) {
        Ok(git_dir)
    } else {
        match text_in(files, common_file_of(git_dir)) {
            Err(error) => Err(error),
            Ok(text) => if trimmed(text).len() == 0 {
                Err(ProjectIdentityErrorView::InvalidGitFile(common_file_of(git_dir)))
            } else {
                canonical_in(files, named_in(files, git_dir, trimmed(text)))
            },
        }
    }
}

/// The directory that a work tree shares, from the directory that its git file names.
pub open spec fn shared_from(files: Files, path: AskedPathView) -> Result<
    NativePathView,
    ProjectIdentityErrorView,
> {
    match canonical_in(files, path) {
        Err(error) => Err(error),
        Ok(git_dir) => shared_directory(files, git_dir),
    }
}

/// The directory that all work trees of the repository at a root share.
pub open spec fn common_directory(files: Files, root: NativePathView) -> Result<
    NativePathView,
    ProjectIdentityErrorView,
> {
    let entry = git_entry_of(root);
    if (files.is_directory)(entry) {
        canonical_in(files, entry)
    } else {
        match text_in(files, entry) {
            Err(error) => Err(error),
            Ok(text) => match named_git_dir(text) {
                None => Err(ProjectIdentityErrorView::InvalidGitFile(entry)),
                Some(named) => shared_from(files, named_in(files, root, named)),
            },
        }
    }
}

/// The directory that is the identity of the project of a workspace.
pub open spec fn project_directory(files: Files, workspace: NativePathView) -> Resolution {
    match canonical_in(files, AskedPathView::Native(workspace)) {
        Err(error) => Err(error),
        Ok(canonical) => project_at(files, canonical, repository_root(files, canonical)),
    }
}

/// The identity of the project of a canonical workspace, given where its repository
/// is, if it is in one.
pub open spec fn project_at(
    files: Files,
    canonical: NativePathView,
    root: Option<NativePathView>,
) -> Resolution {
    match root {
        Some(root) => git_resolution(common_directory(files, root)),
        None => Ok((canonical, ProjectIdentitySource::WorkspaceRoot)),
    }
}

/// What a state comes to in a file system.
pub open spec fn outcome(files: Files, state: IdentityState) -> Resolution {
    match state {
        IdentityState::Workspace { path } => project_directory(files, path@),
        IdentityState::Searching { canonical, root } => project_at(
            files,
            canonical@,
            repository_root(files, root@),
        ),
        IdentityState::Climbing { canonical, root } => project_at(
            files,
            canonical@,
            match directory_above((files.parent)(root@), root@) {
                Some(parent) => repository_root(files, parent),
                None => None,
            },
        ),
        IdentityState::Found { root } => git_resolution(common_directory(files, root@)),
        IdentityState::GitFile { root } => git_resolution(
            match text_in(files, git_entry_of(root@)) {
                Err(error) => Err(error),
                Ok(text) => match named_git_dir(text) {
                    None => Err(ProjectIdentityErrorView::InvalidGitFile(git_entry_of(root@))),
                    Some(named) => shared_from(files, named_in(files, root@, named)),
                },
            },
        ),
        IdentityState::GitName { root, named } => git_resolution(
            shared_from(files, named_in(files, root@, named@)),
        ),
        IdentityState::GitDirectory { path } => git_resolution(shared_from(files, path@)),
        IdentityState::CommonFile { git_dir } => git_resolution(shared_directory(files, git_dir@)),
        IdentityState::CommonText { git_dir } => git_resolution(
            match text_in(files, common_file_of(git_dir@)) {
                Err(error) => Err(error),
                Ok(text) => if trimmed(text).len() == 0 {
                    Err(ProjectIdentityErrorView::InvalidGitFile(common_file_of(git_dir@)))
                } else {
                    canonical_in(files, named_in(files, git_dir@, trimmed(text)))
                },
            },
        ),
        IdentityState::CommonName { git_dir, named } => git_resolution(
            canonical_in(files, named_in(files, git_dir@, named@)),
        ),
        IdentityState::CommonDirectory { path } => git_resolution(canonical_in(files, path@)),
    }
}

/// What progress comes to in a file system.
pub open spec fn progress_outcome(files: Files, progress: IdentityProgress) -> Resolution {
    match progress {
        IdentityProgress::Asking(state) => outcome(files, state),
        IdentityProgress::Resolved(directory) => Ok((directory.path@, directory.source)),
        IdentityProgress::Failed(error) => Err(error@),
    }
}

/// The view of a question.
#[verifier::ext_equal]
pub enum IdentityQuestionView {
    Canonical(AskedPathView),
    Exists(AskedPathView),
    IsDirectory(AskedPathView),
    Text(AskedPathView),
    IsAbsolute(Seq<char>),
    Parent(NativePathView),
}

impl View for IdentityQuestion {
    type V = IdentityQuestionView;

    open spec fn view(&self) -> IdentityQuestionView {
        match self {
            IdentityQuestion::Canonical(path) => IdentityQuestionView::Canonical(path@),
            IdentityQuestion::Exists(path) => IdentityQuestionView::Exists(path@),
            IdentityQuestion::IsDirectory(path) => IdentityQuestionView::IsDirectory(path@),
            IdentityQuestion::Text(path) => IdentityQuestionView::Text(path@),
            IdentityQuestion::IsAbsolute(name) => IdentityQuestionView::IsAbsolute(name@),
            IdentityQuestion::Parent(path) => IdentityQuestionView::Parent(path@),
        }
    }
}

/// The question of a state.
pub open spec fn question_of(state: IdentityState) -> IdentityQuestionView {
    match state {
        IdentityState::Workspace { path } => IdentityQuestionView::Canonical(
            AskedPathView::Native(path@),
        ),
        IdentityState::Searching { canonical, root } => IdentityQuestionView::Exists(
            git_entry_of(root@),
        ),
        IdentityState::Climbing { canonical, root } => IdentityQuestionView::Parent(root@),
        IdentityState::Found { root } => IdentityQuestionView::IsDirectory(git_entry_of(root@)),
        IdentityState::GitFile { root } => IdentityQuestionView::Text(git_entry_of(root@)),
        IdentityState::GitName { root, named } => IdentityQuestionView::IsAbsolute(named@),
        IdentityState::GitDirectory { path } => IdentityQuestionView::Canonical(path@),
        IdentityState::CommonFile { git_dir } => IdentityQuestionView::Exists(
            common_file_of(git_dir@),
        ),
        IdentityState::CommonText { git_dir } => IdentityQuestionView::Text(
            common_file_of(git_dir@),
        ),
        IdentityState::CommonName { git_dir, named } => IdentityQuestionView::IsAbsolute(named@),
        IdentityState::CommonDirectory { path } => IdentityQuestionView::Canonical(path@),
    }
}

/// Whether an answer to a question is true in a file system.
pub open spec fn is_true_answer(
    files: Files,
    question: IdentityQuestionView,
    answer: IdentityAnswer,
) -> bool {
    match question {
        IdentityQuestionView::Canonical(path) => answer matches IdentityAnswer::Canonical(told)
            && canonical_answer(told) == (files.canonical)(path),
        IdentityQuestionView::Exists(path) => answer matches IdentityAnswer::Truth(told) && told
            == (files.exists)(path),
        IdentityQuestionView::IsDirectory(path) => answer matches IdentityAnswer::Truth(told)
            && told == (files.is_directory)(path),
        IdentityQuestionView::Text(path) => answer matches IdentityAnswer::Text(told)
            && text_answer(told) == (files.text)(path),
        IdentityQuestionView::IsAbsolute(name) => answer matches IdentityAnswer::Truth(told)
            && told == (files.is_absolute)(name),
        IdentityQuestionView::Parent(path) => answer matches IdentityAnswer::Parent(told)
            && opt_view(told) == (files.parent)(path),
    }
}

/// The view of an answer with a path.
pub open spec fn canonical_answer(told: Result<NativePath, String>) -> Result<
    NativePathView,
    Seq<char>,
> {
    match told {
        Ok(path) => Ok(path@),
        Err(reason) => Err(reason@),
    }
}

/// The view of an answer with a text.
pub open spec fn text_answer(told: Result<String, String>) -> Result<Seq<char>, Seq<char>> {
    match told {
        Ok(text) => Ok(text@),
        Err(reason) => Err(reason@),
    }
}

/// Whether an answer fits a question.
pub open spec fn fits(question: IdentityQuestionView, answer: IdentityAnswer) -> bool {
    match question {
        IdentityQuestionView::Canonical(_) => answer is Canonical,
        IdentityQuestionView::Exists(_) => answer is Truth,
        IdentityQuestionView::IsDirectory(_) => answer is Truth,
        IdentityQuestionView::Text(_) => answer is Text,
        IdentityQuestionView::IsAbsolute(_) => answer is Truth,
        IdentityQuestionView::Parent(_) => answer is Parent,
    }
}

/// How many questions may still follow.
pub open spec fn questions_left(state: IdentityState) -> nat {
    match state {
        IdentityState::Workspace { .. } => 0,
        IdentityState::Searching { canonical, root } => 2 * root@.len() + 10,
        IdentityState::Climbing { canonical, root } => 2 * root@.len() + 9,
        IdentityState::Found { .. } => 8,
        IdentityState::GitFile { .. } => 7,
        IdentityState::GitName { .. } => 6,
        IdentityState::GitDirectory { .. } => 5,
        IdentityState::CommonFile { .. } => 4,
        IdentityState::CommonText { .. } => 3,
        IdentityState::CommonName { .. } => 2,
        IdentityState::CommonDirectory { .. } => 1,
    }
}

fn copy_bytes(bytes: &Vec<u8>) -> (result: Vec<u8>)
    ensures
        result@ == bytes@,
{
    let copy = bytes.clone();
    assert(copy@ =~= bytes@);
    copy
}

fn resolved(path: NativePath, source: ProjectIdentitySource) -> (result: IdentityProgress)
    ensures
        result == IdentityProgress::Resolved(IdentityDirectory { path, source }),
{
    IdentityProgress::Resolved(IdentityDirectory { path, source })
}

fn unreadable(path: AskedPath, reason: String) -> (result: IdentityProgress)
    ensures
        result == IdentityProgress::Failed(ProjectIdentityError::Io { path, reason }),
{
    IdentityProgress::Failed(ProjectIdentityError::Io { path, reason })
}

fn above(told: Option<NativePath>, root: &NativePath) -> (result: Option<NativePath>)
    ensures
        opt_view(result) == directory_above(opt_view(told), root@),
{
    match told {
        Some(parent) => {
            if path_len(&parent) < path_len(root) {
                Some(parent)
            } else {
                None
            }
        },
        None => None,
    }
}

impl IdentityState {
    /// Begins with a workspace.
    pub fn start(workspace: NativePath) -> (result: Self)
        ensures
            result == (IdentityState::Workspace { path: workspace }),
    {
        IdentityState::Workspace { path: workspace }
    }

    /// The question that has to be answered next.
    pub fn question(&self) -> (result: IdentityQuestion)
        ensures
            result@ == question_of(*self),
    {
        match self {
            IdentityState::Workspace { path } => IdentityQuestion::Canonical(
                AskedPath::Native(path.clone()),
            ),
            IdentityState::Searching { root, .. } => IdentityQuestion::Exists(git_entry(root)),
            IdentityState::Climbing { root, .. } => IdentityQuestion::Parent(root.clone()),
            IdentityState::Found { root } => IdentityQuestion::IsDirectory(git_entry(root)),
            IdentityState::GitFile { root } => IdentityQuestion::Text(git_entry(root)),
            IdentityState::GitName { named, .. } => IdentityQuestion::IsAbsolute(named.clone()),
            IdentityState::GitDirectory { path } => IdentityQuestion::Canonical(path.clone()),
            IdentityState::CommonFile { git_dir } => IdentityQuestion::Exists(
                common_file(git_dir),
            ),
            IdentityState::CommonText { git_dir } => IdentityQuestion::Text(common_file(git_dir)),
            IdentityState::CommonName { named, .. } => IdentityQuestion::IsAbsolute(
                named.clone(),
            ),
            IdentityState::CommonDirectory { path } => IdentityQuestion::Canonical(path.clone()),
        }
    }

    /// Takes the answer to the question. Whatever file system it is true in, what
    /// the state comes to there does not change.
    pub fn answer(self, answer: IdentityAnswer) -> (result: IdentityProgress)
        requires
            fits(question_of(self), answer),
        ensures
            forall|files: Files| #[trigger]
                is_true_answer(files, question_of(self), answer) ==> progress_outcome(files, result)
                    == outcome(files, self),
            result matches IdentityProgress::Asking(state) ==> !(state is Workspace) && (
            self is Workspace || questions_left(state) < questions_left(self)),
    {
        match (self, answer) {
            (IdentityState::Workspace { path }, IdentityAnswer::Canonical(told)) => match told {
                Ok(canonical) => {
                    let root = canonical.clone();
                    IdentityProgress::Asking(IdentityState::Searching { canonical, root })
                },
                Err(reason) => unreadable(AskedPath::Native(path), reason),
            },
            (IdentityState::Searching { canonical, root }, IdentityAnswer::Truth(told)) => {
                if told {
                    IdentityProgress::Asking(IdentityState::Found { root })
                } else {
                    IdentityProgress::Asking(IdentityState::Climbing { canonical, root })
                }
            },
            (IdentityState::Climbing { canonical, root }, IdentityAnswer::Parent(told)) => {
                match above(told, &root) {
                    Some(parent) => IdentityProgress::Asking(
                        IdentityState::Searching { canonical, root: parent },
                    ),
                    None => resolved(canonical, ProjectIdentitySource::WorkspaceRoot),
                }
            },
            (IdentityState::Found { root }, IdentityAnswer::Truth(told)) => {
                if told {
                    let path = git_entry(&root);
                    IdentityProgress::Asking(IdentityState::CommonDirectory { path })
                } else {
                    IdentityProgress::Asking(IdentityState::GitFile { root })
                }
            },
            (IdentityState::GitFile { root }, IdentityAnswer::Text(told)) => {
                match told {
                    Ok(text) => match read_git_file(text.as_str()) {
                        Some(named) => IdentityProgress::Asking(
                            IdentityState::GitName { root, named },
                        ),
                        None => IdentityProgress::Failed(
                            ProjectIdentityError::InvalidGitFile(git_entry(&root)),
                        ),
                    },
                    Err(reason) => unreadable(git_entry(&root), reason),
                }
            },
            (IdentityState::GitName { root, named }, IdentityAnswer::Truth(told)) => {
                let path = resolve_relative(root, named, told);
                IdentityProgress::Asking(IdentityState::GitDirectory { path })
            },
            (IdentityState::GitDirectory { path }, IdentityAnswer::Canonical(told)) => match told {
                Ok(git_dir) => IdentityProgress::Asking(IdentityState::CommonFile { git_dir }),
                Err(reason) => unreadable(path, reason),
            },
            (IdentityState::CommonFile { git_dir }, IdentityAnswer::Truth(told)) => {
                if told {
                    IdentityProgress::Asking(IdentityState::CommonText { git_dir })
                } else {
                    resolved(git_dir, ProjectIdentitySource::GitCommonDirectory)
                }
            },
            (IdentityState::CommonText { git_dir }, IdentityAnswer::Text(told)) => {
                match told {
                    Ok(text) => {
                        let chars = chars_of(text.as_str());
                        let name = trim(&chars);
                        if name.len() == 0 {
                            return IdentityProgress::Failed(
                                ProjectIdentityError::InvalidGitFile(common_file(&git_dir)),
                            );
                        }
                        let named = text_of(&name);
                        IdentityProgress::Asking(IdentityState::CommonName { git_dir, named })
                    },
                    Err(reason) => unreadable(common_file(&git_dir), reason),
                }
            },
            (IdentityState::CommonName { git_dir, named }, IdentityAnswer::Truth(told)) => {
                let path = resolve_relative(git_dir, named, told);
                IdentityProgress::Asking(IdentityState::CommonDirectory { path })
            },
            (IdentityState::CommonDirectory { path }, IdentityAnswer::Canonical(told)) => {
                match told {
                    Ok(canonical) => resolved(
                        canonical,
                        ProjectIdentitySource::GitCommonDirectory,
                    ),
                    Err(reason) => unreadable(path, reason),
                }
            },
            (other, _) => IdentityProgress::Asking(other),
        }
    }
}

// ---------------------------------------------------------------------------
// Scope IDs.
// ---------------------------------------------------------------------------
/// A unit of a path as it counts: separators and ASCII letters of either form are
/// the same.
pub open spec fn folded_unit(unit: u16) -> u16 {
    if unit == 47 {
        92
    } else if 65 <= unit <= 90 {
        (unit + 32) as u16
    } else {
        unit
    }
}

/// The bytes of units, the lower one of each first.
pub open spec fn unit_bytes(units: Seq<u16>) -> Seq<u8>
    decreases units.len(),
{
    if units.len() == 0 {
        Seq::empty()
    } else {
        unit_bytes(units.drop_last()).push((folded_unit(units.last()) % 256) as u8).push(
            (folded_unit(units.last()) / 256) as u8,
        )
    }
}

/// The bytes by which a path counts as an identity.
pub open spec fn identity_bytes(path: NativePathView) -> Seq<u8> {
    match path {
        NativePathView::Unix(bytes) => bytes,
        NativePathView::Windows(units) => unit_bytes(units),
        NativePathView::Other(text) => encode_utf8(text),
    }
}

/// The bytes by which a path counts as an identity.
pub fn normalize_identity_path(path: &NativePath) -> (result: Vec<u8>)
    ensures
        result@ == identity_bytes(path@),
{
    match path {
        NativePath::Unix(bytes) => copy_bytes(bytes),
        NativePath::Windows(units) => {
            let mut bytes: Vec<u8> = Vec::new();
            let mut i: usize = 0;
            while i < units.len()
                invariant
                    i <= units.len(),
                    bytes@ == unit_bytes(units@.take(i as int)),
                decreases units.len() - i,
            {
                let unit: u16 = units[i];
                let folded: u16 = if unit == 47 {
                    92
                } else if 65 <= unit && unit <= 90 {
                    unit + 32
                } else {
                    unit
                };
                assert(units@.take(i + 1).drop_last() =~= units@.take(i as int));
                bytes.push((folded % 256) as u8);
                bytes.push((folded / 256) as u8);
                i = i + 1;
            }
            assert(units@.take(i as int) =~= units@);
            bytes
        },
        NativePath::Other(text) => text.as_str().as_bytes_vec(),
    }
}

/// The SHA-256 hash of bytes.
pub uninterp spec fn sha256_of(bytes: Seq<u8>) -> Seq<u8>;

/// The SHA-256 hash of bytes, from `Digest::digest` of `sha2::Sha256`. The hash is a
/// function of the bytes and has 32 bytes itself; which ones is left to its name.
#[verifier::external_body]
fn sha256(bytes: &Vec<u8>) -> (result: Vec<u8>)
    ensures
        result@ == sha256_of(bytes@),
        result@.len() == 32,
{
    sha2::Sha256::digest(bytes.as_slice()).to_vec()
}

/// The lower-case digit of a number below sixteen.
pub open spec fn hex_digit(digit: int) -> char {
    if digit < 10 {
        (48 + digit) as char
    } else {
        (87 + digit) as char
    }
}

/// The hexadecimal form of bytes, two digits each.
pub open spec fn hex(bytes: Seq<u8>) -> Seq<char>
    decreases bytes.len(),
{
    if bytes.len() == 0 {
        Seq::empty()
    } else {
        hex(bytes.drop_last()).push(hex_digit(bytes.last() as int / 16)).push(
            hex_digit(bytes.last() as int % 16),
        )
    }
}

fn hex_char(digit: u8) -> (result: char)
    requires
        digit < 16,
    ensures
        result == hex_digit(digit as int),
{
    if digit < 10 {
        (48 + digit) as char
    } else {
        (87 + digit) as char
    }
}

/// Writes bytes in hexadecimal form.
pub fn hex_text(bytes: &Vec<u8>) -> (result: String)
    ensures
        result@ == hex(bytes@),
{
    let mut text: String = String::new();
    let mut i: usize = 0;
    while i < bytes.len()
        invariant
            i <= bytes.len(),
            text@ == hex(bytes@.take(i as int)),
        decreases bytes.len() - i,
    {
        let byte: u8 = bytes[i];
        assert(bytes@.take(i + 1).drop_last() =~= bytes@.take(i as int));
        text.push(hex_char(byte / 16));
        text.push(hex_char(byte % 16));
        i = i + 1;
    }
    assert(bytes@.take(i as int) =~= bytes@);
    text
}

/// The scope ID of a project whose identity is a path.
pub open spec fn scope_id_of(path: NativePathView) -> Seq<char> {
    hex(sha256_of(identity_bytes(path)))
}

/// The scope ID of a project whose identity is a path, and what it was made of.
pub fn project_scope_id(path: &NativePath) -> (result: String)
    ensures
        result@ == scope_id_of(path@),
        result@.len() == 64,
{
    let normalized = normalize_identity_path(path);
    let digest = sha256(&normalized);
    proof {
        law_hex_is_lower_case(digest@);
    }
    hex_text(&digest)
}

// ---------------------------------------------------------------------------
// Laws.
// ---------------------------------------------------------------------------
/// The hexadecimal form has two lower-case digits for each byte.
pub proof fn law_hex_is_lower_case(bytes: Seq<u8>)
    ensures
        hex(bytes).len() == 2 * bytes.len(),
        forall|i: int|
            0 <= i < hex(bytes).len() ==> '0' <= #[trigger] hex(bytes)[i] <= '9' || 'a' <= hex(
                bytes,
            )[i] <= 'f',
    decreases bytes.len(),
{
    if bytes.len() > 0 {
        law_hex_is_lower_case(bytes.drop_last());
    }
}

/// Different bytes have different hexadecimal forms.
pub proof fn law_hex_tells_bytes_apart(left: Seq<u8>, right: Seq<u8>)
    requires
        hex(left) == hex(right),
    ensures
        left == right,
    decreases left.len(),
{
    law_hex_is_lower_case(left);
    law_hex_is_lower_case(right);
    if left.len() > 0 {
        let l = hex(left);
        let r = hex(right);
        let n = l.len();
        assert(l[n - 1] == r[n - 1]);
        assert(l[n - 2] == r[n - 2]);
        assert(hex(left.drop_last()) =~= l.take(n - 2));
        assert(hex(right.drop_last()) =~= r.take(n - 2));
        law_hex_tells_bytes_apart(left.drop_last(), right.drop_last());
        assert(left =~= left.drop_last().push(left.last()));
        assert(right =~= right.drop_last().push(right.last()));
    } else {
        assert(left =~= right);
    }
}

/// Paths of different bytes are different identities on a platform where paths are
/// bytes; nothing is folded there.
pub proof fn law_byte_paths_stay_apart(left: Seq<u8>, right: Seq<u8>)
    requires
        left != right,
    ensures
        identity_bytes(NativePathView::Unix(left)) != identity_bytes(NativePathView::Unix(right)),
{
}

/// Paths of different units are different identities on a platform where paths are
/// UTF-16, paired or not, unless separators and ASCII letters are all they differ
/// in.
pub proof fn law_wide_paths_stay_apart(left: Seq<u16>, right: Seq<u16>)
    requires
        unit_bytes(left) == unit_bytes(right),
    ensures
        left.len() == right.len(),
        forall|i: int|
            0 <= i < left.len() ==> folded_unit(#[trigger] left[i]) == folded_unit(right[i]),
    decreases left.len(),
{
    lemma_unit_bytes_len(left);
    lemma_unit_bytes_len(right);
    if left.len() > 0 {
        let l = unit_bytes(left);
        let r = unit_bytes(right);
        let n = l.len();
        assert(l[n - 1] == r[n - 1]);
        assert(l[n - 2] == r[n - 2]);
        assert(unit_bytes(left.drop_last()) =~= l.take(n - 2));
        assert(unit_bytes(right.drop_last()) =~= r.take(n - 2));
        law_wide_paths_stay_apart(left.drop_last(), right.drop_last());
        assert forall|i: int| 0 <= i < left.len() implies folded_unit(#[trigger] left[i])
            == folded_unit(right[i]) by {
            if i < left.len() - 1 {
                assert(left.drop_last()[i] == left[i]);
                assert(right.drop_last()[i] == right[i]);
            } else {
                let a = folded_unit(left.last());
                let b = folded_unit(right.last());
                assert(a % 256 == b % 256 && a / 256 == b / 256);
            }
        }
    }
}

proof fn lemma_unit_bytes_len(units: Seq<u16>)
    ensures
        unit_bytes(units).len() == 2 * units.len(),
    decreases units.len(),
{
    if units.len() > 0 {
        lemma_unit_bytes_len(units.drop_last());
    }
}

/// A main checkout and a linked work tree of one repository are one project: if the
/// git file of the one leads to the directory of the other, they have the same
/// identity. Either path may be absolute or relative, by whatever rules the platform
/// has.
pub proof fn law_work_trees_share_identity(
    files: Files,
    main: NativePathView,
    linked: NativePathView,
    main_root: NativePathView,
    linked_root: NativePathView,
    git_dir: NativePathView,
    shared: NativePathView,
)
    requires
        (files.canonical)(AskedPathView::Native(main)) == Ok::<NativePathView, Seq<char>>(
            main_root,
        ),
        (files.canonical)(AskedPathView::Native(linked)) == Ok::<NativePathView, Seq<char>>(
            linked_root,
        ),
        (files.exists)(git_entry_of(main_root)),
        (files.is_directory)(git_entry_of(main_root)),
        (files.canonical)(git_entry_of(main_root)) == Ok::<NativePathView, Seq<char>>(shared),
        (files.exists)(git_entry_of(linked_root)),
        !(files.is_directory)(git_entry_of(linked_root)),
        (files.text)(git_entry_of(linked_root)) matches Ok(text) && (named_git_dir(
            text,
        ) matches Some(named) && (files.canonical)(named_in(files, linked_root, named)) == Ok::<
            NativePathView,
            Seq<char>,
        >(git_dir)),
        (files.exists)(common_file_of(git_dir)),
        (files.text)(common_file_of(git_dir)) matches Ok(text) && trimmed(text).len() > 0 && (
        files.canonical)(named_in(files, git_dir, trimmed(text))) == Ok::<
            NativePathView,
            Seq<char>,
        >(shared),
    ensures
        project_directory(files, main) == project_directory(files, linked),
        project_directory(files, main) == Ok::<
            (NativePathView, ProjectIdentitySource),
            ProjectIdentityErrorView,
        >((shared, ProjectIdentitySource::GitCommonDirectory)),
{
}

/// Whether a path is a directory or one that the directory lies in, at any depth.
pub open spec fn is_at_or_above(
    files: Files,
    path: NativePathView,
    directory: NativePathView,
) -> bool
    decreases directory.len(),
{
    path == directory || match directory_above((files.parent)(directory), directory) {
        Some(parent) => is_at_or_above(files, path, parent),
        None => false,
    }
}

/// A workspace in no repository is a project of its own: there is nothing that a
/// repository is found by, neither in its directory nor further up.
pub proof fn law_plain_workspace_is_its_own_project(
    files: Files,
    workspace: NativePathView,
    canonical: NativePathView,
)
    requires
        (files.canonical)(AskedPathView::Native(workspace)) == Ok::<NativePathView, Seq<char>>(
            canonical,
        ),
        forall|path: NativePathView| #[trigger]
            is_at_or_above(files, path, canonical) ==> !(files.exists)(git_entry_of(path)),
    ensures
        project_directory(files, workspace) == Ok::<
            (NativePathView, ProjectIdentitySource),
            ProjectIdentityErrorView,
        >((canonical, ProjectIdentitySource::WorkspaceRoot)),
{
    lemma_no_repository(files, canonical);
}

proof fn lemma_no_repository(files: Files, root: NativePathView)
    requires
        forall|path: NativePathView| #[trigger]
            is_at_or_above(files, path, root) ==> !(files.exists)(git_entry_of(path)),
    ensures
        repository_root(files, root) is None,
    decreases root.len(),
{
    assert(is_at_or_above(files, root, root));
    if let Some(parent) = directory_above((files.parent)(root), root) {
        assert forall|path: NativePathView| #[trigger] is_at_or_above(
            files,
            path,
            parent,
        ) implies !(files.exists)(git_entry_of(path)) by {
            assert(is_at_or_above(files, path, root));
        }
        lemma_no_repository(files, parent);
    }
}

} // verus!
