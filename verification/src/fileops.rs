//! File operations: create, read, update, delete, directory create
//! and delete, and the two composite operations move and copy.
//!
//! Every store call is performed by the driver; this module decides
//! the order of the calls, what each operation returns for every
//! outcome the store can report, and maps every store failure to the
//! operation's error string. Move and copy are not atomic: they are
//! chains of independent store calls, and a failure of a late step is
//! reported even though the earlier steps already committed.

use vstd::prelude::*;
use crate::FileInfo;
use crate::paths::file_name_of;
use crate::listing::{is_file_entry, is_dir_entry};

verus! {

/// A store error `e` behind the context `prefix`.
fn prefixed(prefix: &str, e: &str) -> (r: String)
    ensures
        r@ == prefix@ + e@,
{
    let mut m = prefix.to_owned();
    m.append(e);
    m
}

/// The entry returned for a freshly written file: exact size, name
/// taken from the path, zero timestamps.
pub fn file_entry_for(path: String, size: u64) -> (f: FileInfo)
    ensures
        is_file_entry(f, path@, size),
{
    let name = file_name_of(path.as_str());
    FileInfo {
        name,
        path,
        size,
        created: 0,
        modified: 0,
        is_directory: false,
        permissions: "rw".to_owned(),
    }
}

/// The entry returned for a directory node: size zero.
pub fn dir_entry_for(path: String) -> (f: FileInfo)
    ensures
        is_dir_entry(f, path@, 0),
{
    let name = file_name_of(path.as_str());
    FileInfo {
        name,
        path,
        size: 0,
        created: 0,
        modified: 0,
        is_directory: true,
        permissions: "rw".to_owned(),
    }
}

/// Where a write flow stands. Creating a file is create, write,
/// metadata; updating one is open, write, metadata — three store
/// calls either way, the first deciding whether a missing target is
/// made or an error.
pub enum WriteState {
    /// Next: create the file node.
    Create,
    /// Next: open the existing file; fails if absent.
    Open,
    /// The file is at hand; next: write the full content.
    Write,
    /// The content is written; next: read the metadata back.
    Metadata,
    /// All steps succeeded; the entry reflects the stored size.
    Done { info: FileInfo },
    /// A step failed; the operation stops with its error.
    Failed { error: String },
}

/// A create or update of one file, stepped by the driver.
pub struct WriteFlow {
    pub path: String,
    pub state: WriteState,
}

impl WriteFlow {
    /// A create of `path`: the target is made if missing.
    pub fn for_create(path: String) -> (r: WriteFlow)
        ensures
            r.path == path,
            r.state is Create,
    {
        WriteFlow { path, state: WriteState::Create }
    }

    /// An update of `path`: the target must already exist.
    pub fn for_update(path: String) -> (r: WriteFlow)
        ensures
            r.path == path,
            r.state is Open,
    {
        WriteFlow { path, state: WriteState::Open }
    }

    /// Accepts the outcome of creating the file node.
    pub fn on_create(&mut self, r: Result<(), String>)
        requires
            old(self).state is Create,
        ensures
            final(self).path == old(self).path,
            match r {
                Ok(_) => final(self).state is Write,
                Err(e) => final(self).state matches WriteState::Failed { error } && error@
                    == "Failed to create file: "@ + e@,
            },
    {
        match r {
            Ok(_) => {
                self.state = WriteState::Write;
            },
            Err(e) => {
                self.state = WriteState::Failed {
                    error: prefixed("Failed to create file: ", e.as_str()),
                };
            },
        }
    }

    /// Accepts the outcome of opening the existing file.
    pub fn on_open(&mut self, r: Result<(), String>)
        requires
            old(self).state is Open,
        ensures
            final(self).path == old(self).path,
            match r {
                Ok(_) => final(self).state is Write,
                Err(e) => final(self).state matches WriteState::Failed { error } && error@
                    == "Failed to open file: "@ + e@,
            },
    {
        match r {
            Ok(_) => {
                self.state = WriteState::Write;
            },
            Err(e) => {
                self.state = WriteState::Failed {
                    error: prefixed("Failed to open file: ", e.as_str()),
                };
            },
        }
    }

    /// Accepts the outcome of writing the content.
    pub fn on_write(&mut self, r: Result<(), String>)
        requires
            old(self).state is Write,
        ensures
            final(self).path == old(self).path,
            match r {
                Ok(_) => final(self).state is Metadata,
                Err(e) => final(self).state matches WriteState::Failed { error } && error@
                    == "Failed to write file: "@ + e@,
            },
    {
        match r {
            Ok(_) => {
                self.state = WriteState::Metadata;
            },
            Err(e) => {
                self.state = WriteState::Failed {
                    error: prefixed("Failed to write file: ", e.as_str()),
                };
            },
        }
    }

    /// Accepts the outcome of reading the metadata back; on success
    /// the flow is done with the exact entry for the written file.
    pub fn on_metadata(&mut self, r: Result<u64, String>)
        requires
            old(self).state is Metadata,
        ensures
            final(self).path == old(self).path,
            match r {
                Ok(size) => final(self).state matches WriteState::Done { info } && is_file_entry(
                    info,
                    old(self).path@,
                    size,
                ),
                Err(e) => final(self).state matches WriteState::Failed { error } && error@
                    == "Failed to get metadata: "@ + e@,
            },
    {
        match r {
            Ok(size) => {
                let info = file_entry_for(self.path.clone(), size);
                self.state = WriteState::Done { info };
            },
            Err(e) => {
                self.state = WriteState::Failed {
                    error: prefixed("Failed to get metadata: ", e.as_str()),
                };
            },
        }
    }
}

/// Where a read flow stands: open without creating, then read.
pub enum ReadState {
    /// Next: open the file; fails if absent.
    Open,
    /// The file is at hand; next: read its content.
    Read,
    /// Both steps succeeded.
    Done { content: Vec<u8> },
    /// A step failed; the operation stops with its error.
    Failed { error: String },
}

/// A read of one file, stepped by the driver.
pub struct ReadFlow {
    pub path: String,
    pub state: ReadState,
}

impl ReadFlow {
    /// A read of `path`.
    pub fn new(path: String) -> (r: ReadFlow)
        ensures
            r.path == path,
            r.state is Open,
    {
        ReadFlow { path, state: ReadState::Open }
    }

    /// Accepts the outcome of opening the file.
    pub fn on_open(&mut self, r: Result<(), String>)
        requires
            old(self).state is Open,
        ensures
            final(self).path == old(self).path,
            match r {
                Ok(_) => final(self).state is Read,
                Err(e) => final(self).state matches ReadState::Failed { error } && error@
                    == "Failed to open file: "@ + e@,
            },
    {
        match r {
            Ok(_) => {
                self.state = ReadState::Read;
            },
            Err(e) => {
                self.state = ReadState::Failed {
                    error: prefixed("Failed to open file: ", e.as_str()),
                };
            },
        }
    }

    /// Accepts the outcome of reading the content.
    pub fn on_read(&mut self, r: Result<Vec<u8>, String>)
        requires
            old(self).state is Read,
        ensures
            final(self).path == old(self).path,
            match r {
                Ok(c) => final(self).state matches ReadState::Done { content } && content == c,
                Err(e) => final(self).state matches ReadState::Failed { error } && error@
                    == "Failed to read file: "@ + e@,
            },
    {
        match r {
            Ok(content) => {
                self.state = ReadState::Done { content };
            },
            Err(e) => {
                self.state = ReadState::Failed {
                    error: prefixed("Failed to read file: ", e.as_str()),
                };
            },
        }
    }

    /// The flow's outcome as the operation's result.
    pub fn into_result(self) -> (r: Result<Vec<u8>, String>)
        requires
            self.state is Done || self.state is Failed,
        ensures
            self.state matches ReadState::Done { content } ==> r == Ok::<Vec<u8>, String>(
                content,
            ),
            self.state matches ReadState::Failed { error } ==> r == Err::<Vec<u8>, String>(error),
    {
        match self.state {
            ReadState::Done { content } => Ok(content),
            ReadState::Failed { error } => Err(error),
            _ => {
                proof {
                    assert(false);
                }
                Err(String::new())
            },
        }
    }
}

/// How the store answered a remove-directory request.
pub enum RemoveDirResponse {
    /// The directory and all its descendants are gone.
    Done,
    /// The store reported an error, given here as text.
    StoreError(String),
    /// The store answered with something other than an
    /// acknowledgement or an error.
    Unexpected,
    /// The request could not be delivered at all.
    SendFailed(String),
}

/// The result of deleting one file: `true` on success, the delete
/// error otherwise.
pub fn delete_file_result(outcome: Result<(), String>) -> (r: Result<bool, String>)
    ensures
        match outcome {
            Ok(_) => r == Ok::<bool, String>(true),
            Err(e) => r matches Err(m) && m@ == "Failed to delete file: "@ + e@,
        },
{
    match outcome {
        Ok(_) => Ok(true),
        Err(e) => Err(prefixed("Failed to delete file: ", e.as_str())),
    }
}

/// The result of opening-or-creating a directory node: its zero-size
/// entry on success.
pub fn create_directory_result(path: String, outcome: Result<(), String>) -> (r: Result<
    FileInfo,
    String,
>)
    ensures
        match outcome {
            Ok(_) => r matches Ok(f) && is_dir_entry(f, path@, 0),
            Err(e) => r matches Err(m) && m@ == "Failed to create directory: "@ + e@,
        },
{
    match outcome {
        Ok(_) => Ok(dir_entry_for(path)),
        Err(e) => Err(prefixed("Failed to create directory: ", e.as_str())),
    }
}

/// The result of removing a directory and all its descendants in one
/// store call.
pub fn delete_directory_result(outcome: RemoveDirResponse) -> (r: Result<bool, String>)
    ensures
        match outcome {
            RemoveDirResponse::Done => r == Ok::<bool, String>(true),
            RemoveDirResponse::StoreError(e) => r matches Err(m) && m@
                == "Failed to delete directory: "@ + e@,
            RemoveDirResponse::Unexpected => r matches Err(m) && m@
                == "Unexpected response from VFS"@,
            RemoveDirResponse::SendFailed(e) => r matches Err(m) && m@
                == "Failed to send VFS request: "@ + e@,
        },
{
    match outcome {
        RemoveDirResponse::Done => Ok(true),
        RemoveDirResponse::StoreError(e) => Err(
            prefixed("Failed to delete directory: ", e.as_str()),
        ),
        RemoveDirResponse::Unexpected => Err("Unexpected response from VFS".to_owned()),
        RemoveDirResponse::SendFailed(e) => Err(
            prefixed("Failed to send VFS request: ", e.as_str()),
        ),
    }
}

/// An abstract snapshot of the store: each file path with its bytes.
/// The composite operations are stated against it: a successful
/// create is an insert, a successful delete a removal.
pub open spec fn store_read(m: Map<Seq<char>, Seq<u8>>, p: Seq<char>) -> Option<Seq<u8>> {
    if m.contains_key(p) {
        Some(m[p])
    } else {
        None
    }
}

/// The store after a successful create-and-write of `c` at `p`.
pub open spec fn store_create(
    m: Map<Seq<char>, Seq<u8>>,
    p: Seq<char>,
    c: Seq<u8>,
) -> Map<Seq<char>, Seq<u8>> {
    m.insert(p, c)
}

/// The store after a successful delete of `p`.
pub open spec fn store_delete(m: Map<Seq<char>, Seq<u8>>, p: Seq<char>) -> Map<
    Seq<char>,
    Seq<u8>,
> {
    m.remove(p)
}

/// Copy preserves both ends: after read(src) and create(dst) succeed,
/// the destination holds the source's original content and the source
/// still reads back unchanged.
pub proof fn lemma_copy_preserves_content(
    m: Map<Seq<char>, Seq<u8>>,
    src: Seq<char>,
    dst: Seq<char>,
)
    requires
        m.contains_key(src),
    ensures
        store_read(store_create(m, dst, m[src]), dst) == Some(m[src]),
        store_read(store_create(m, dst, m[src]), src) == Some(m[src]),
{
}

/// Move transfers the content: after all three steps succeed, the
/// destination holds the source's original content and the source is
/// gone.
pub proof fn lemma_move_transfers_content(
    m: Map<Seq<char>, Seq<u8>>,
    src: Seq<char>,
    dst: Seq<char>,
)
    requires
        m.contains_key(src),
        src != dst,
    ensures
        store_read(store_delete(store_create(m, dst, m[src]), src), dst) == Some(m[src]),
        store_read(store_delete(store_create(m, dst, m[src]), src), src) == None::<Seq<u8>>,
{
}

/// The documented non-atomic window of move: once the create step has
/// committed but the delete step has not run (or has failed), both
/// paths read back with identical content.
pub proof fn lemma_move_window(m: Map<Seq<char>, Seq<u8>>, src: Seq<char>, dst: Seq<char>)
    requires
        m.contains_key(src),
        src != dst,
    ensures
        store_read(store_create(m, dst, m[src]), src) == Some(m[src]),
        store_read(store_create(m, dst, m[src]), dst) == Some(m[src]),
{
}

/// Where a move stands. The operation is read(src), then
/// create(dst, content), then delete(src), as three independent store
/// calls.
pub enum MoveState {
    /// Next: read the source.
    ReadSource,
    /// The source was read; next: create the destination with this
    /// content.
    CreateDest { content: Vec<u8> },
    /// The destination was created; next: delete the source.
    DeleteSource { info: FileInfo },
    /// All three steps succeeded.
    Done { info: FileInfo },
    /// A step failed; the operation stops with its error.
    Failed { error: String },
}

/// The move operation, stepped by the driver. Each step takes the
/// finished result of the corresponding one-file operation. If the
/// delete step fails after the create step committed, the file exists
/// at both paths and the delete error is still reported: the window
/// is visible, never hidden.
pub struct MoveFlow {
    pub source: String,
    pub destination: String,
    pub state: MoveState,
}

impl MoveFlow {
    /// A move of `source` to `destination`, ready to read the source.
    pub fn new(source: String, destination: String) -> (r: MoveFlow)
        ensures
            r.source == source,
            r.destination == destination,
            r.state is ReadSource,
    {
        MoveFlow { source, destination, state: MoveState::ReadSource }
    }

    /// Accepts the outcome of reading the source.
    pub fn on_read(&mut self, r: Result<Vec<u8>, String>)
        requires
            old(self).state is ReadSource,
        ensures
            final(self).source == old(self).source,
            final(self).destination == old(self).destination,
            match r {
                Ok(c) => final(self).state matches MoveState::CreateDest { content } && content
                    == c,
                Err(e) => final(self).state matches MoveState::Failed { error } && error == e,
            },
    {
        match r {
            Ok(content) => {
                self.state = MoveState::CreateDest { content };
            },
            Err(error) => {
                self.state = MoveState::Failed { error };
            },
        }
    }

    /// Accepts the outcome of creating the destination.
    pub fn on_create(&mut self, r: Result<FileInfo, String>)
        requires
            old(self).state is CreateDest,
        ensures
            final(self).source == old(self).source,
            final(self).destination == old(self).destination,
            match r {
                Ok(f) => final(self).state matches MoveState::DeleteSource { info } && info == f,
                Err(e) => final(self).state matches MoveState::Failed { error } && error == e,
            },
    {
        match r {
            Ok(info) => {
                self.state = MoveState::DeleteSource { info };
            },
            Err(error) => {
                self.state = MoveState::Failed { error };
            },
        }
    }

    /// Accepts the outcome of deleting the source. A failure here is
    /// reported even though the destination already exists.
    pub fn on_delete(&mut self, r: Result<bool, String>)
        requires
            old(self).state is DeleteSource,
        ensures
            final(self).source == old(self).source,
            final(self).destination == old(self).destination,
            match r {
                Ok(_) => (final(self).state matches MoveState::Done { info } && (old(
                    self,
                ).state matches MoveState::DeleteSource { info: prev } && info == prev)),
                Err(e) => final(self).state matches MoveState::Failed { error } && error == e,
            },
    {
        match r {
            Ok(_) => {
                let mut state = MoveState::ReadSource;
                core::mem::swap(&mut state, &mut self.state);
                match state {
                    MoveState::DeleteSource { info } => {
                        self.state = MoveState::Done { info };
                    },
                    _ => {
                        proof {
                            assert(false);
                        }
                    },
                }
            },
            Err(error) => {
                self.state = MoveState::Failed { error };
            },
        }
    }
}

/// Where a copy stands: read(src), then create(dst, content), with no
/// delete step.
pub enum CopyState {
    /// Next: read the source.
    ReadSource,
    /// The source was read; next: create the destination with this
    /// content.
    CreateDest { content: Vec<u8> },
    /// Both steps succeeded.
    Done { info: FileInfo },
    /// A step failed; the operation stops with its error.
    Failed { error: String },
}

/// The copy operation, stepped by the driver. The source is never
/// touched after the read.
pub struct CopyFlow {
    pub source: String,
    pub destination: String,
    pub state: CopyState,
}

impl CopyFlow {
    /// A copy of `source` to `destination`, ready to read the source.
    pub fn new(source: String, destination: String) -> (r: CopyFlow)
        ensures
            r.source == source,
            r.destination == destination,
            r.state is ReadSource,
    {
        CopyFlow { source, destination, state: CopyState::ReadSource }
    }

    /// Accepts the outcome of reading the source.
    pub fn on_read(&mut self, r: Result<Vec<u8>, String>)
        requires
            old(self).state is ReadSource,
        ensures
            final(self).source == old(self).source,
            final(self).destination == old(self).destination,
            match r {
                Ok(c) => final(self).state matches CopyState::CreateDest { content } && content
                    == c,
                Err(e) => final(self).state matches CopyState::Failed { error } && error == e,
            },
    {
        match r {
            Ok(content) => {
                self.state = CopyState::CreateDest { content };
            },
            Err(error) => {
                self.state = CopyState::Failed { error };
            },
        }
    }

    /// Accepts the outcome of creating the destination.
    pub fn on_create(&mut self, r: Result<FileInfo, String>)
        requires
            old(self).state is CreateDest,
        ensures
            final(self).source == old(self).source,
            final(self).destination == old(self).destination,
            match r {
                Ok(f) => final(self).state matches CopyState::Done { info } && info == f,
                Err(e) => final(self).state matches CopyState::Failed { error } && error == e,
            },
    {
        match r {
            Ok(info) => {
                self.state = CopyState::Done { info };
            },
            Err(error) => {
                self.state = CopyState::Failed { error };
            },
        }
    }
}

} // verus!
