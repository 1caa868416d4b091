//! The directory explorer: flattens a two-level subtree of the store
//! into one ordered listing.
//!
//! The store is an external collaborator, so the traversal is written
//! as an explicitly stepped machine: `step` either asks for one store
//! read (a directory's children, or a file's metadata) or makes
//! internal progress, and the answers come back through `feed_dir_read`
//! and `feed_metadata`. The driver performs the reads; every decision,
//! every emitted entry and the depth bound live here.
//!
//! Size semantics are depth-dependent by design: exact bytes for
//! files, the immediate child count for a first-level directory, and
//! zero for a second-level directory, where the traversal stops.

use vstd::prelude::*;
use crate::FileInfo;
use crate::paths::{last_component_of, file_name_of};

verus! {

/// One child as the store reports it: its absolute path and whether
/// it is a directory.
pub struct RawEntry {
    pub path: String,
    pub is_directory: bool,
}

/// A single store read the traversal wants answered.
pub enum ListQuery {
    /// The immediate children of a directory.
    ReadDir(String),
    /// The byte size of a file.
    Metadata(String),
}

/// What one call of `step` did.
pub enum ListStep {
    /// Answer the query through `feed_dir_read` or `feed_metadata`,
    /// then call `step` again.
    Query(ListQuery),
    /// Internal progress only: call `step` again.
    Progress,
    /// The traversal is complete: take the outcome with `result`.
    Finished,
}

/// Where the traversal stands.
pub enum Phase {
    /// Nothing asked yet.
    Start,
    /// Waiting for the root directory's children.
    AwaitRootDir,
    /// About to examine the child at `child_idx`.
    ChildAt,
    /// Waiting for the metadata of the file child at `child_idx`.
    AwaitChildMeta,
    /// Waiting for the children of the directory child at `child_idx`.
    AwaitChildDir,
    /// About to examine the grandchild at `grand_idx`.
    GrandAt,
    /// Waiting for the metadata of the file grandchild at `grand_idx`.
    AwaitGrandMeta,
    /// Complete; the listing is in `out`.
    DoneOk,
    /// Complete; the failure is in `error`.
    DoneErr,
}

/// A listing entry for a file: exact size, name taken from the path.
pub open spec fn is_file_entry(f: FileInfo, path: Seq<char>, size: u64) -> bool {
    &&& f.name@ == last_component_of(path, '/')
    &&& f.path@ == path
    &&& f.size == size
    &&& f.created == 0
    &&& f.modified == 0
    &&& !f.is_directory
    &&& f.permissions@ == "rw"@
}

/// A listing entry for a directory: `size` is a child count (first
/// level) or zero (second level), never a byte size.
pub open spec fn is_dir_entry(f: FileInfo, path: Seq<char>, size: u64) -> bool {
    &&& f.name@ == last_component_of(path, '/')
    &&& f.path@ == path
    &&& f.size == size
    &&& f.created == 0
    &&& f.modified == 0
    &&& f.is_directory
    &&& f.permissions@ == "rw"@
}

/// The error reported when the root directory cannot be read.
pub open spec fn root_read_error(root: Seq<char>, e: Seq<char>) -> Seq<char> {
    "Failed to read directory '"@ + root + "': "@ + e
}

/// The error reported when a first-level file's metadata cannot be
/// read.
pub open spec fn metadata_error(path: Seq<char>, e: Seq<char>) -> Seq<char> {
    "Failed to get metadata for '"@ + path + "': "@ + e
}

/// The two-level traversal machine.
pub struct Lister {
    pub root: String,
    pub phase: Phase,
    pub children: Vec<RawEntry>,
    pub child_idx: usize,
    pub grandchildren: Vec<RawEntry>,
    pub grand_idx: usize,
    pub out: Vec<FileInfo>,
    pub error: String,
}

impl Lister {
    /// The indices stay inside their vectors and each waiting phase
    /// agrees with the kind of entry it waits on.
    pub open spec fn wf(self) -> bool {
        match self.phase {
            Phase::Start => self.out@.len() == 0,
            Phase::AwaitRootDir => self.out@.len() == 0,
            Phase::ChildAt => self.child_idx <= self.children@.len(),
            Phase::AwaitChildMeta => self.child_idx < self.children@.len()
                && !self.children@[self.child_idx as int].is_directory,
            Phase::AwaitChildDir => self.child_idx < self.children@.len()
                && self.children@[self.child_idx as int].is_directory,
            Phase::GrandAt => self.child_idx < self.children@.len() && self.grand_idx
                <= self.grandchildren@.len(),
            Phase::AwaitGrandMeta => self.child_idx < self.children@.len() && self.grand_idx
                < self.grandchildren@.len()
                && !self.grandchildren@[self.grand_idx as int].is_directory,
            Phase::DoneOk => true,
            Phase::DoneErr => true,
        }
    }

    /// A phase in which `step` is the next call: any phase that is
    /// not waiting on a store answer.
    pub open spec fn needs_step(self) -> bool {
        ||| self.phase is Start
        ||| self.phase is ChildAt
        ||| self.phase is GrandAt
        ||| self.phase is DoneOk
        ||| self.phase is DoneErr
    }

    /// What one `step` call does, by phase:
    /// - `Start`: asks for the root's children.
    /// - `ChildAt` past the last child: finishes with the listing.
    /// - `ChildAt` on a directory child: asks for its children.
    /// - `ChildAt` on a file child: asks for its metadata.
    /// - `GrandAt` past the last grandchild: moves to the next child.
    /// - `GrandAt` on a directory grandchild: emits it with size zero
    ///   and moves on — the traversal never descends further.
    /// - `GrandAt` on a file grandchild: asks for its metadata.
    /// - `DoneOk` and `DoneErr`: reports completion and changes
    ///   nothing.
    pub open spec fn step_spec(pre: Lister, post: Lister, s: ListStep) -> bool {
        &&& post.root == pre.root
        &&& post.children == pre.children
        &&& post.grandchildren == pre.grandchildren
        &&& post.error == pre.error
        &&& match pre.phase {
            Phase::Start => {
                &&& post.phase is AwaitRootDir
                &&& post.child_idx == pre.child_idx
                &&& post.grand_idx == pre.grand_idx
                &&& post.out == pre.out
                &&& s matches ListStep::Query(ListQuery::ReadDir(p)) && p@ == pre.root@
            },
            Phase::ChildAt => {
                if pre.child_idx == pre.children@.len() {
                    &&& post.phase is DoneOk
                    &&& post.child_idx == pre.child_idx
                    &&& post.grand_idx == pre.grand_idx
                    &&& post.out == pre.out
                    &&& s is Finished
                } else if pre.children@[pre.child_idx as int].is_directory {
                    &&& post.phase is AwaitChildDir
                    &&& post.child_idx == pre.child_idx
                    &&& post.grand_idx == pre.grand_idx
                    &&& post.out == pre.out
                    &&& s matches ListStep::Query(ListQuery::ReadDir(p)) && p@ == pre.children@[
                        pre.child_idx as int
                    ].path@
                } else {
                    &&& post.phase is AwaitChildMeta
                    &&& post.child_idx == pre.child_idx
                    &&& post.grand_idx == pre.grand_idx
                    &&& post.out == pre.out
                    &&& s matches ListStep::Query(ListQuery::Metadata(p)) && p@ == pre.children@[
                        pre.child_idx as int
                    ].path@
                }
            },
            Phase::GrandAt => {
                if pre.grand_idx == pre.grandchildren@.len() {
                    &&& post.phase is ChildAt
                    &&& post.child_idx == pre.child_idx + 1
                    &&& post.grand_idx == pre.grand_idx
                    &&& post.out == pre.out
                    &&& s is Progress
                } else if pre.grandchildren@[pre.grand_idx as int].is_directory {
                    &&& post.phase is GrandAt
                    &&& post.child_idx == pre.child_idx
                    &&& post.grand_idx == pre.grand_idx + 1
                    &&& post.out@.len() == pre.out@.len() + 1
                    &&& post.out@.subrange(0, pre.out@.len() as int) == pre.out@
                    &&& is_dir_entry(
                        post.out@.last(),
                        pre.grandchildren@[pre.grand_idx as int].path@,
                        0,
                    )
                    &&& s is Progress
                } else {
                    &&& post.phase is AwaitGrandMeta
                    &&& post.child_idx == pre.child_idx
                    &&& post.grand_idx == pre.grand_idx
                    &&& post.out == pre.out
                    &&& s matches ListStep::Query(ListQuery::Metadata(p)) && p@
                        == pre.grandchildren@[pre.grand_idx as int].path@
                }
            },
            Phase::DoneOk => {
                &&& post == pre
                &&& s is Finished
            },
            Phase::DoneErr => {
                &&& post == pre
                &&& s is Finished
            },
            _ => false,
        }
    }

    /// What answering a directory read does, by phase:
    /// - `AwaitRootDir`: success installs the children; failure is
    ///   fatal with the root-read error.
    /// - `AwaitChildDir`: success emits the directory with its child
    ///   count as size and begins the second level; failure emits it
    ///   with size zero and skips the second level — degradation, not
    ///   an error.
    pub open spec fn dir_read_spec(
        pre: Lister,
        post: Lister,
        r: Result<Vec<RawEntry>, String>,
    ) -> bool {
        &&& post.root == pre.root
        &&& match pre.phase {
            Phase::AwaitRootDir => match r {
                Ok(es) => {
                    &&& post.phase is ChildAt
                    &&& post.children == es
                    &&& post.child_idx == 0
                    &&& post.out == pre.out
                    &&& post.error == pre.error
                },
                Err(e) => {
                    &&& post.phase is DoneErr
                    &&& post.error@ == root_read_error(pre.root@, e@)
                    &&& post.out == pre.out
                },
            },
            Phase::AwaitChildDir => match r {
                Ok(subs) => {
                    &&& post.phase is GrandAt
                    &&& post.children == pre.children
                    &&& post.child_idx == pre.child_idx
                    &&& post.grandchildren == subs
                    &&& post.grand_idx == 0
                    &&& post.out@.len() == pre.out@.len() + 1
                    &&& post.out@.subrange(0, pre.out@.len() as int) == pre.out@
                    &&& is_dir_entry(
                        post.out@.last(),
                        pre.children@[pre.child_idx as int].path@,
                        subs@.len() as u64,
                    )
                    &&& post.error == pre.error
                },
                Err(_) => {
                    &&& post.phase is ChildAt
                    &&& post.children == pre.children
                    &&& post.child_idx == pre.child_idx + 1
                    &&& post.out@.len() == pre.out@.len() + 1
                    &&& post.out@.subrange(0, pre.out@.len() as int) == pre.out@
                    &&& is_dir_entry(
                        post.out@.last(),
                        pre.children@[pre.child_idx as int].path@,
                        0,
                    )
                    &&& post.error == pre.error
                },
            },
            _ => false,
        }
    }

    /// What answering a metadata read does, by phase:
    /// - `AwaitChildMeta`: success emits the file with its exact
    ///   size; failure is fatal with the metadata error.
    /// - `AwaitGrandMeta`: success emits the file with its exact
    ///   size; failure skips the entry silently.
    pub open spec fn metadata_spec(pre: Lister, post: Lister, r: Result<u64, String>) -> bool {
        &&& post.root == pre.root
        &&& post.children == pre.children
        &&& post.grandchildren == pre.grandchildren
        &&& match pre.phase {
            Phase::AwaitChildMeta => match r {
                Ok(size) => {
                    &&& post.phase is ChildAt
                    &&& post.child_idx == pre.child_idx + 1
                    &&& post.grand_idx == pre.grand_idx
                    &&& post.out@.len() == pre.out@.len() + 1
                    &&& post.out@.subrange(0, pre.out@.len() as int) == pre.out@
                    &&& is_file_entry(
                        post.out@.last(),
                        pre.children@[pre.child_idx as int].path@,
                        size,
                    )
                    &&& post.error == pre.error
                },
                Err(e) => {
                    &&& post.phase is DoneErr
                    &&& post.error@ == metadata_error(pre.children@[pre.child_idx as int].path@, e@)
                    &&& post.out == pre.out
                },
            },
            Phase::AwaitGrandMeta => match r {
                Ok(size) => {
                    &&& post.phase is GrandAt
                    &&& post.child_idx == pre.child_idx
                    &&& post.grand_idx == pre.grand_idx + 1
                    &&& post.out@.len() == pre.out@.len() + 1
                    &&& post.out@.subrange(0, pre.out@.len() as int) == pre.out@
                    &&& is_file_entry(
                        post.out@.last(),
                        pre.grandchildren@[pre.grand_idx as int].path@,
                        size,
                    )
                    &&& post.error == pre.error
                },
                Err(_) => {
                    &&& post.phase is GrandAt
                    &&& post.child_idx == pre.child_idx
                    &&& post.grand_idx == pre.grand_idx + 1
                    &&& post.out == pre.out
                    &&& post.error == pre.error
                },
            },
            _ => false,
        }
    }

    /// A fresh traversal rooted at `root`.
    pub fn new(root: String) -> (r: Lister)
        ensures
            r.wf(),
            r.phase is Start,
            r.root == root,
            r.out@.len() == 0,
    {
        Lister {
            root,
            phase: Phase::Start,
            children: Vec::new(),
            child_idx: 0,
            grandchildren: Vec::new(),
            grand_idx: 0,
            out: Vec::new(),
            error: String::new(),
        }
    }

    /// Advances the traversal by one decision.
    pub fn step(&mut self) -> (s: ListStep)
        requires
            old(self).wf(),
            old(self).needs_step(),
        ensures
            final(self).wf(),
            Lister::step_spec(*old(self), *final(self), s),
    {
        match self.phase {
            Phase::Start => {
                self.phase = Phase::AwaitRootDir;
                ListStep::Query(ListQuery::ReadDir(self.root.clone()))
            },
            Phase::DoneOk => ListStep::Finished,
            Phase::DoneErr => ListStep::Finished,
            Phase::ChildAt => {
                if self.child_idx == self.children.len() {
                    self.phase = Phase::DoneOk;
                    ListStep::Finished
                } else if self.children[self.child_idx].is_directory {
                    self.phase = Phase::AwaitChildDir;
                    ListStep::Query(ListQuery::ReadDir(self.children[self.child_idx].path.clone()))
                } else {
                    self.phase = Phase::AwaitChildMeta;
                    ListStep::Query(ListQuery::Metadata(self.children[self.child_idx].path.clone()))
                }
            },
            _ => {
                // needs_step leaves only GrandAt.
                if self.grand_idx == self.grandchildren.len() {
                    assert(self.child_idx < self.children.len());
                    self.child_idx = self.child_idx + 1;
                    self.phase = Phase::ChildAt;
                    ListStep::Progress
                } else if self.grandchildren[self.grand_idx].is_directory {
                    let path = self.grandchildren[self.grand_idx].path.clone();
                    let name = file_name_of(path.as_str());
                    let entry = FileInfo {
                        name,
                        path,
                        size: 0,
                        created: 0,
                        modified: 0,
                        is_directory: true,
                        permissions: "rw".to_owned(),
                    };
                    let ghost before = self.out@;
                    self.out.push(entry);
                    proof {
                        assert(self.out@.subrange(0, before.len() as int) =~= before);
                    }
                    self.grand_idx = self.grand_idx + 1;
                    ListStep::Progress
                } else {
                    self.phase = Phase::AwaitGrandMeta;
                    ListStep::Query(
                        ListQuery::Metadata(self.grandchildren[self.grand_idx].path.clone()),
                    )
                }
            },
        }
    }

    /// Accepts the answer to a pending directory read.
    pub fn feed_dir_read(&mut self, r: Result<Vec<RawEntry>, String>)
        requires
            old(self).wf(),
            old(self).phase is AwaitRootDir || old(self).phase is AwaitChildDir,
        ensures
            final(self).wf(),
            Lister::dir_read_spec(*old(self), *final(self), r),
    {
        match self.phase {
            Phase::AwaitRootDir => {
                match r {
                    Ok(es) => {
                        self.children = es;
                        self.child_idx = 0;
                        self.phase = Phase::ChildAt;
                    },
                    Err(e) => {
                        let mut msg = "Failed to read directory '".to_owned();
                        msg.append(self.root.as_str());
                        msg.append("': ");
                        msg.append(e.as_str());
                        self.error = msg;
                        self.phase = Phase::DoneErr;
                    },
                }
            },
            _ => {
                // the precondition leaves only AwaitChildDir.
                let path = self.children[self.child_idx].path.clone();
                let name = file_name_of(path.as_str());
                match r {
                    Ok(subs) => {
                        let count = subs.len() as u64;
                        let entry = FileInfo {
                            name,
                            path,
                            size: count,
                            created: 0,
                            modified: 0,
                            is_directory: true,
                            permissions: "rw".to_owned(),
                        };
                        let ghost before = self.out@;
                        self.out.push(entry);
                        proof {
                            assert(self.out@.subrange(0, before.len() as int) =~= before);
                        }
                        self.grandchildren = subs;
                        self.grand_idx = 0;
                        self.phase = Phase::GrandAt;
                    },
                    Err(_) => {
                        let entry = FileInfo {
                            name,
                            path,
                            size: 0,
                            created: 0,
                            modified: 0,
                            is_directory: true,
                            permissions: "rw".to_owned(),
                        };
                        let ghost before = self.out@;
                        self.out.push(entry);
                        proof {
                            assert(self.out@.subrange(0, before.len() as int) =~= before);
                        }
                        assert(self.child_idx < self.children.len());
                        self.child_idx = self.child_idx + 1;
                        self.phase = Phase::ChildAt;
                    },
                }
            },
        }
    }

    /// Accepts the answer to a pending metadata read.
    pub fn feed_metadata(&mut self, r: Result<u64, String>)
        requires
            old(self).wf(),
            old(self).phase is AwaitChildMeta || old(self).phase is AwaitGrandMeta,
        ensures
            final(self).wf(),
            Lister::metadata_spec(*old(self), *final(self), r),
    {
        match self.phase {
            Phase::AwaitChildMeta => {
                match r {
                    Ok(size) => {
                        let path = self.children[self.child_idx].path.clone();
                        let name = file_name_of(path.as_str());
                        let entry = FileInfo {
                            name,
                            path,
                            size,
                            created: 0,
                            modified: 0,
                            is_directory: false,
                            permissions: "rw".to_owned(),
                        };
                        let ghost before = self.out@;
                        self.out.push(entry);
                        proof {
                            assert(self.out@.subrange(0, before.len() as int) =~= before);
                        }
                        assert(self.child_idx < self.children.len());
                        self.child_idx = self.child_idx + 1;
                        self.phase = Phase::ChildAt;
                    },
                    Err(e) => {
                        let mut msg = "Failed to get metadata for '".to_owned();
                        msg.append(self.children[self.child_idx].path.as_str());
                        msg.append("': ");
                        msg.append(e.as_str());
                        self.error = msg;
                        self.phase = Phase::DoneErr;
                    },
                }
            },
            _ => {
                // the precondition leaves only AwaitGrandMeta.
                match r {
                    Ok(size) => {
                        let path = self.grandchildren[self.grand_idx].path.clone();
                        let name = file_name_of(path.as_str());
                        let entry = FileInfo {
                            name,
                            path,
                            size,
                            created: 0,
                            modified: 0,
                            is_directory: false,
                            permissions: "rw".to_owned(),
                        };
                        let ghost before = self.out@;
                        self.out.push(entry);
                        proof {
                            assert(self.out@.subrange(0, before.len() as int) =~= before);
                        }
                        assert(self.grand_idx < self.grandchildren.len());
                        self.grand_idx = self.grand_idx + 1;
                        self.phase = Phase::GrandAt;
                    },
                    Err(_) => {
                        assert(self.grand_idx < self.grandchildren.len());
                        self.grand_idx = self.grand_idx + 1;
                        self.phase = Phase::GrandAt;
                    },
                }
            },
        }
    }

    /// Whether the traversal is complete.
    pub fn is_finished(&self) -> (r: bool)
        ensures
            r == (self.phase is DoneOk || self.phase is DoneErr),
    {
        match self.phase {
            Phase::DoneOk => true,
            Phase::DoneErr => true,
            _ => false,
        }
    }

    /// The outcome: the flattened listing, or the fatal error.
    pub fn result(self) -> (r: Result<Vec<FileInfo>, String>)
        requires
            self.phase is DoneOk || self.phase is DoneErr,
        ensures
            self.phase is DoneOk ==> r == Ok::<Vec<FileInfo>, String>(self.out),
            self.phase is DoneErr ==> r == Err::<Vec<FileInfo>, String>(self.error),
    {
        match self.phase {
            Phase::DoneOk => Ok(self.out),
            _ => Err(self.error),
        }
    }
}

/// Listing an empty directory yields the empty listing, not an
/// error: from the start, after the root answers with no children,
/// the very next step finishes with nothing emitted.
pub proof fn lemma_empty_listing(
    l0: Lister,
    l1: Lister,
    l2: Lister,
    l3: Lister,
    s1: ListStep,
    s3: ListStep,
    es: Vec<RawEntry>,
)
    requires
        l0.wf(),
        l0.phase is Start,
        Lister::step_spec(l0, l1, s1),
        Lister::dir_read_spec(l1, l2, Ok(es)),
        es@.len() == 0,
        Lister::step_spec(l2, l3, s3),
    ensures
        l3.phase is DoneOk,
        l3.out@.len() == 0,
        s3 is Finished,
{
}

/// The depth bound: whenever a step asks for a directory's children,
/// that directory is the listing root or an immediate child of it —
/// entries deeper in the tree are never read.
pub proof fn lemma_bounded_expansion(pre: Lister, post: Lister, s: ListStep)
    requires
        pre.wf(),
        Lister::step_spec(pre, post, s),
    ensures
        s matches ListStep::Query(ListQuery::ReadDir(p)) ==> p@ == pre.root@ || exists|k: int|
            0 <= k < pre.children@.len() && (#[trigger] pre.children@[k]).is_directory
                && pre.children@[k].path@ == p@,
{
    match s {
        ListStep::Query(ListQuery::ReadDir(p)) => {
            if pre.phase is ChildAt {
                assert(0 <= pre.child_idx < pre.children@.len()
                    && pre.children@[pre.child_idx as int].is_directory
                    && pre.children@[pre.child_idx as int].path@ == p@);
            }
        },
        _ => {},
    }
}

} // verus!
