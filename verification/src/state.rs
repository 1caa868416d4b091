//! The service state: the share registry and the current working
//! directory, with the share and navigation methods of the service
//! surface. Nothing here is persisted: every share and the working
//! directory live only as long as the process.

use vstd::prelude::*;
use crate::AuthScheme;
use crate::gateway::{plan_serve, spec_serve, ServePlan};
use crate::paths::normalized_root;
use crate::share::{
    link_of, share_id_of, spec_contains, spec_lookup, spec_share, spec_unshare, ShareRegistry,
};

verus! {

/// The per-process state shared by every request handler.
pub struct FileExplorerState {
    pub shared_files: ShareRegistry,
    pub cwd: String,
}

impl FileExplorerState {
    /// The registry keeps each path at most once.
    pub open spec fn wf(self) -> bool {
        self.shared_files.wf()
    }

    /// A fresh state: nothing shared, working directory at the root.
    pub fn new() -> (r: FileExplorerState)
        ensures
            r.wf(),
            r.shared_files.view() == Seq::<(Seq<char>, AuthScheme)>::empty(),
            r.cwd@ == "/"@,
    {
        FileExplorerState { shared_files: ShareRegistry::new(), cwd: "/".to_owned() }
    }

    /// Adopts the home drive the environment set up: its path on
    /// success, the root as the fallback when none could be made.
    pub fn init(&mut self, home_drive: Result<String, String>)
        requires
            old(self).wf(),
        ensures
            final(self).wf(),
            final(self).shared_files == old(self).shared_files,
            match home_drive {
                Ok(home) => final(self).cwd == home,
                Err(_) => final(self).cwd@ == "/"@,
            },
    {
        match home_drive {
            Ok(home) => {
                self.cwd = home;
            },
            Err(_) => {
                self.cwd = "/".to_owned();
            },
        }
    }

    /// Shares `path` under `auth`, replacing any earlier policy, and
    /// returns the share link embedding the path's id.
    pub fn share_file(&mut self, path: String, auth: AuthScheme) -> (r: Result<String, String>)
        requires
            old(self).wf(),
        ensures
            final(self).wf(),
            final(self).cwd == old(self).cwd,
            final(self).shared_files.view() == spec_share(
                old(self).shared_files.view(),
                path@,
                auth,
            ),
            r matches Ok(link) && link@ == link_of(share_id_of(path@)),
    {
        let link = self.shared_files.share(&path, auth);
        Ok(link)
    }

    /// Removes the share for `path`, reporting whether one existed.
    pub fn unshare_file(&mut self, path: String) -> (r: Result<bool, String>)
        requires
            old(self).wf(),
        ensures
            final(self).wf(),
            final(self).cwd == old(self).cwd,
            final(self).shared_files.view() == spec_unshare(old(self).shared_files.view(), path@),
            r matches Ok(removed) && removed == spec_contains(
                old(self).shared_files.view(),
                path@,
            ),
    {
        let removed = self.shared_files.unshare(&path);
        Ok(removed)
    }

    /// The share link for `path`, iff it is currently shared.
    pub fn get_share_link(&self, path: String) -> (r: Result<Option<String>, String>)
        ensures
            r matches Ok(link) && (link is Some <==> spec_contains(
                self.shared_files.view(),
                path@,
            )),
            r matches Ok(link) && (link matches Some(l) ==> spec_lookup(
                self.shared_files.view(),
                path@,
            ) == Some(l@)),
    {
        Ok(self.shared_files.get_share_link(&path))
    }

    /// Decides an inbound share request: the path to serve with its
    /// response headers, or the error to report.
    pub fn serve_shared_file(&self, request_path: Option<String>) -> (r: Result<
        ServePlan,
        String,
    >)
        ensures
            ({
                let rq = match request_path {
                    Some(q) => Some(q@),
                    None => None,
                };
                match r {
                    Ok(plan) => spec_serve(self.shared_files.view(), rq) == Ok::<
                        (Seq<char>, Seq<char>, Seq<char>),
                        Seq<char>,
                    >((plan.path@, plan.content_type@, plan.content_disposition@)),
                    Err(e) => spec_serve(self.shared_files.view(), rq) == Err::<
                        (Seq<char>, Seq<char>, Seq<char>),
                        Seq<char>,
                    >(e@),
                }
            }),
    {
        plan_serve(&self.shared_files, request_path)
    }

    /// The current working directory.
    pub fn get_current_directory(&self) -> (r: Result<String, String>)
        ensures
            r matches Ok(p) && p == self.cwd,
    {
        Ok(self.cwd.clone())
    }

    /// Sets the working directory and echoes it back.
    pub fn set_current_directory(&mut self, path: String) -> (r: Result<String, String>)
        requires
            old(self).wf(),
        ensures
            final(self).wf(),
            final(self).shared_files == old(self).shared_files,
            final(self).cwd == path,
            r matches Ok(p) && p == path,
    {
        self.cwd = path.clone();
        Ok(path)
    }

    /// The store path a listing request means: the empty path and
    /// `"/"` both denote the store root.
    pub fn listing_root(&self, path: String) -> (r: String)
        ensures
            r@ == crate::paths::normalized_root_of(path@),
    {
        normalized_root(&path)
    }
}

} // verus!
