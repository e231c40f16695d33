//! The file store: what create, upsert and delete decide from what is on disk,
//! and the replies they give.
use vstd::prelude::*;

verus! {

/// What the filesystem holds at a path.
#[derive(PartialEq, Eq, Structural, Clone, Copy, Debug)]
pub enum Entry {
    Missing,
    File,
    Directory,
}

/// The kinds of failure a file operation reports.
#[derive(PartialEq, Eq, Structural, Clone, Copy, Debug)]
pub enum FileError {
    /// The path is malformed or tries to leave the storage directory.
    PathInvalid,
    AlreadyExists,
    NotFound,
    NotAFile,
    /// The filesystem failed underneath.
    IoFailure,
    /// An expiry could not be registered with the scheduler.
    SchedulerDispatchFailure,
}

/// What a successful write did.
#[derive(PartialEq, Eq, Structural, Clone, Copy, Debug)]
pub enum Written {
    Created,
    Updated,
}

/// The filesystem step that failed underneath an operation.
#[derive(PartialEq, Eq, Structural, Clone, Copy, Debug)]
pub enum IoStep {
    CreateDirectories,
    SaveFile,
    DeleteFile,
}

/// The HTTP status of each failure.
pub open spec fn error_status(e: FileError) -> u16 {
    match e {
        FileError::PathInvalid => 400,
        FileError::AlreadyExists => 409,
        FileError::NotFound => 404,
        FileError::NotAFile => 400,
        FileError::IoFailure => 500,
        FileError::SchedulerDispatchFailure => 500,
    }
}

impl FileError {
    /// The HTTP status this failure is reported with.
    pub fn status(&self) -> (r: u16)
        ensures
            r == error_status(*self),
    {
        match self {
            FileError::PathInvalid => 400,
            FileError::AlreadyExists => 409,
            FileError::NotFound => 404,
            FileError::NotAFile => 400,
            FileError::IoFailure => 500,
            FileError::SchedulerDispatchFailure => 500,
        }
    }
}

/// Whether `create` may write at a path holding `e`.
pub open spec fn create_check(e: Entry) -> Result<(), FileError> {
    if e == Entry::Missing {
        Ok(())
    } else {
        Err(FileError::AlreadyExists)
    }
}

/// What `upsert` reports for a path holding `e`.
pub open spec fn upsert_written(e: Entry) -> Written {
    if e == Entry::Missing {
        Written::Created
    } else {
        Written::Updated
    }
}

/// Whether `delete` may remove what a path holds.
pub open spec fn delete_check(e: Entry) -> Result<(), FileError> {
    match e {
        Entry::Missing => Err(FileError::NotFound),
        Entry::Directory => Err(FileError::NotAFile),
        Entry::File => Ok(()),
    }
}

/// `create` refuses a path that already holds something.
pub fn check_create(e: Entry) -> (r: Result<(), FileError>)
    ensures
        r == create_check(e),
{
    if e == Entry::Missing {
        Ok(())
    } else {
        Err(FileError::AlreadyExists)
    }
}

/// `upsert` writes in any case and reports whether the path held something before.
pub fn upsert_outcome(e: Entry) -> (r: Written)
    ensures
        r == upsert_written(e),
{
    if e == Entry::Missing {
        Written::Created
    } else {
        Written::Updated
    }
}

/// `delete` removes files only.
pub fn check_delete(e: Entry) -> (r: Result<(), FileError>)
    ensures
        r == delete_check(e),
{
    match e {
        Entry::Missing => Err(FileError::NotFound),
        Entry::Directory => Err(FileError::NotAFile),
        Entry::File => Ok(()),
    }
}

/// Whether the expiry's delete-if-exists removes anything at a path holding `e`;
/// a missing file is left alone and counts as done.
pub fn expiry_removes(e: Entry) -> (r: bool)
    ensures
        r == (e != Entry::Missing),
{
    e != Entry::Missing
}

/// A path as received from a request, free of `..`.
pub struct ValidatedPath(String);

/// Whether `s` holds two dots in a row anywhere.
pub open spec fn has_dot_dot(s: Seq<char>) -> bool {
    exists|i: int| 0 <= i && i + 1 < s.len() && #[trigger] s[i] == '.' && s[i + 1] == '.'
}

impl View for ValidatedPath {
    type V = Seq<char>;

    closed spec fn view(&self) -> Seq<char> {
        self.0@
    }
}

impl ValidatedPath {
    /// Takes `path` unless it holds `..` anywhere, which is refused as `PathInvalid`.
    pub fn from_path(path: &str) -> (r: Result<ValidatedPath, FileError>)
        ensures
            r is Ok <==> !has_dot_dot(path@),
            r matches Ok(v) ==> v@ == path@,
            r matches Err(e) ==> e == FileError::PathInvalid,
    {
        let n = path.unicode_len();
        let mut i: usize = 0;
        while i < n
            invariant
                n == path@.len(),
                i <= n,
                forall|j: int| 0 <= j < i && j + 1 < n ==> !(#[trigger] path@[j] == '.' && path@[j + 1] == '.'),
            decreases n - i,
        {
            if i + 1 < n && path.get_char(i) == '.' && path.get_char(i + 1) == '.' {
                assert(path@[i as int] == '.' && path@[i + 1] == '.');
                return Err(FileError::PathInvalid);
            }
            i = i + 1;
        }
        Ok(ValidatedPath(String::from_str(path)))
    }

    /// The path as it was received.
    pub fn as_str(&self) -> (r: &str)
        ensures
            r@ == self@,
    {
        self.0.as_str()
    }
}

/// The body of a reply to a file request.
pub struct FileResponse {
    message: String,
}

impl View for FileResponse {
    type V = Seq<char>;

    closed spec fn view(&self) -> Seq<char> {
        self.message@
    }
}

impl FileResponse {
    pub fn new(message: String) -> (r: FileResponse)
        ensures
            r@ == message@,
    {
        FileResponse { message }
    }

    pub fn message(&self) -> (r: &str)
        ensures
            r@ == self@,
    {
        self.message.as_str()
    }
}

/// A status with its body.
pub struct Reply {
    pub status: u16,
    pub body: FileResponse,
}

/// `prefix` followed by `rest`.
fn joined(prefix: &str, rest: &str) -> (r: String)
    ensures
        r@ == prefix@ + rest@,
{
    let mut s = String::from_str(prefix);
    s.append(rest);
    s
}

/// The message of a refusal that concerns `path`.
pub open spec fn refusal_message(e: FileError, path: Seq<char>) -> Seq<char> {
    match e {
        FileError::PathInvalid => "path contains '..'"@,
        FileError::AlreadyExists => "file already exists: "@ + path,
        FileError::NotFound => "file not found: "@ + path,
        FileError::NotAFile => "path is not a file: "@ + path,
        FileError::IoFailure => "input/output failure: "@ + path,
        FileError::SchedulerDispatchFailure => "failed to schedule expiry: "@ + path,
    }
}

/// The reply for a refusal concerning `path`.
pub fn refusal_reply(e: FileError, path: &str) -> (r: Reply)
    ensures
        r.status == error_status(e),
        r.body@ == refusal_message(e, path@),
{
    let message = match e {
        FileError::PathInvalid => String::from_str("path contains '..'"),
        FileError::AlreadyExists => joined("file already exists: ", path),
        FileError::NotFound => joined("file not found: ", path),
        FileError::NotAFile => joined("path is not a file: ", path),
        FileError::IoFailure => joined("input/output failure: ", path),
        FileError::SchedulerDispatchFailure => joined("failed to schedule expiry: ", path),
    };
    Reply { status: e.status(), body: FileResponse::new(message) }
}

/// What the failing step was trying to do, as said in a message.
pub open spec fn step_phrase(step: IoStep) -> Seq<char> {
    match step {
        IoStep::CreateDirectories => "failed to create directories: "@,
        IoStep::SaveFile => "failed to save file: "@,
        IoStep::DeleteFile => "failed to delete file: "@,
    }
}

/// The reply when `step` failed with `cause`: status 500 and a message naming both.
pub fn io_failure_reply(step: IoStep, cause: &str) -> (r: Reply)
    ensures
        r.status == error_status(FileError::IoFailure),
        r.body@ == step_phrase(step) + cause@,
{
    let message = match step {
        IoStep::CreateDirectories => joined("failed to create directories: ", cause),
        IoStep::SaveFile => joined("failed to save file: ", cause),
        IoStep::DeleteFile => joined("failed to delete file: ", cause),
    };
    Reply { status: FileError::IoFailure.status(), body: FileResponse::new(message) }
}

/// The reply after a successful write: 201 for a new file, 200 for a replaced one.
pub fn written_reply(w: Written) -> (r: Reply)
    ensures
        r.status == (if w == Written::Created { 201u16 } else { 200u16 }),
        r.body@ == (if w == Written::Created {
            "file created successfully"@
        } else {
            "file updated successfully"@
        }),
{
    match w {
        Written::Created => Reply {
            status: 201,
            body: FileResponse::new(String::from_str("file created successfully")),
        },
        Written::Updated => Reply {
            status: 200,
            body: FileResponse::new(String::from_str("file updated successfully")),
        },
    }
}

/// The reply after a file was removed.
pub fn deleted_reply() -> (r: Reply)
    ensures
        r.status == 200,
        r.body@ == "file deleted successfully"@,
{
    Reply { status: 200, body: FileResponse::new(String::from_str("file deleted successfully")) }
}

/// The storage directory as the operations see it: what each path holds, and the
/// bytes of each file.
pub struct FsModel {
    pub entries: Map<Seq<char>, Entry>,
    pub contents: Map<Seq<char>, Seq<u8>>,
}

pub open spec fn entry_at(fs: FsModel, p: Seq<char>) -> Entry {
    if fs.entries.contains_key(p) {
        fs.entries[p]
    } else {
        Entry::Missing
    }
}

/// `fs` with a file holding `c` at `p`.
pub open spec fn with_file(fs: FsModel, p: Seq<char>, c: Seq<u8>) -> FsModel {
    FsModel { entries: fs.entries.insert(p, Entry::File), contents: fs.contents.insert(p, c) }
}

/// `fs` with nothing at `p`.
pub open spec fn without(fs: FsModel, p: Seq<char>) -> FsModel {
    FsModel { entries: fs.entries.remove(p), contents: fs.contents.remove(p) }
}

/// `create` of `c` at `p`, when the write itself succeeds.
pub open spec fn create_effect(fs: FsModel, p: Seq<char>, c: Seq<u8>) -> (Result<(), FileError>, FsModel) {
    match create_check(entry_at(fs, p)) {
        Ok(()) => (Ok(()), with_file(fs, p, c)),
        Err(e) => (Err(e), fs),
    }
}

/// `upsert` of `c` at `p`, when the write itself succeeds.
pub open spec fn upsert_effect(fs: FsModel, p: Seq<char>, c: Seq<u8>) -> (Written, FsModel) {
    (upsert_written(entry_at(fs, p)), with_file(fs, p, c))
}

/// `delete` at `p`, when the removal itself succeeds.
pub open spec fn delete_effect(fs: FsModel, p: Seq<char>) -> (Result<(), FileError>, FsModel) {
    match delete_check(entry_at(fs, p)) {
        Ok(()) => (Ok(()), without(fs, p)),
        Err(e) => (Err(e), fs),
    }
}

/// The expiry's delete-if-exists at `p`: a file is removed, a missing one is
/// done already, and removing a directory as a file fails.
pub open spec fn expire_effect(fs: FsModel, p: Seq<char>) -> (Result<(), FileError>, FsModel) {
    match entry_at(fs, p) {
        Entry::Missing => (Ok(()), fs),
        Entry::File => (Ok(()), without(fs, p)),
        Entry::Directory => (Err(FileError::IoFailure), fs),
    }
}

/// A second `create` at the same path is refused with `AlreadyExists`, whatever
/// the first one did, and leaves the store as it was.
pub proof fn lemma_create_twice(fs: FsModel, p: Seq<char>, c1: Seq<u8>, c2: Seq<u8>)
    ensures
        ({
            let first = create_effect(fs, p, c1).1;
            &&& create_effect(first, p, c2).0 == Err::<(), FileError>(FileError::AlreadyExists)
            &&& create_effect(first, p, c2).1 == first
        }),
{
}

/// `create` on a missing path succeeds and leaves exactly `c` there.
pub proof fn lemma_create_writes(fs: FsModel, p: Seq<char>, c: Seq<u8>)
    requires
        entry_at(fs, p) == Entry::Missing,
    ensures
        create_effect(fs, p, c).0 is Ok,
        entry_at(create_effect(fs, p, c).1, p) == Entry::File,
        create_effect(fs, p, c).1.contents[p] == c,
{
}

/// `upsert` reports `Created` on a missing path and `Updated` on a file, and in
/// both cases leaves a file holding exactly the new content.
pub proof fn lemma_upsert(fs: FsModel, p: Seq<char>, c: Seq<u8>)
    requires
        entry_at(fs, p) != Entry::Directory,
    ensures
        upsert_effect(fs, p, c).0 == (if entry_at(fs, p) == Entry::Missing {
            Written::Created
        } else {
            Written::Updated
        }),
        entry_at(upsert_effect(fs, p, c).1, p) == Entry::File,
        upsert_effect(fs, p, c).1.contents[p] == c,
{
}

/// A second `delete` at the same path is refused with `NotFound`.
pub proof fn lemma_delete_twice(fs: FsModel, p: Seq<char>)
    requires
        entry_at(fs, p) == Entry::File,
    ensures
        delete_effect(fs, p).0 is Ok,
        delete_effect(delete_effect(fs, p).1, p).0 == Err::<(), FileError>(FileError::NotFound),
{
}

/// The expiry's delete-if-exists, run twice at a path that is not a directory,
/// succeeds both times and leaves nothing there.
pub proof fn lemma_expire_twice(fs: FsModel, p: Seq<char>)
    requires
        entry_at(fs, p) != Entry::Directory,
    ensures
        expire_effect(fs, p).0 is Ok,
        expire_effect(expire_effect(fs, p).1, p).0 is Ok,
        entry_at(expire_effect(expire_effect(fs, p).1, p).1, p) == Entry::Missing,
{
}

} // verus!
