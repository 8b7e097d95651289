//! Maps a package specifier to its folder under a configured package root.
use crate::error::{Error, ErrorView};
use crate::location::{directory_url, joined_url, url_file_path, join_url, url_from_directory_path, url_to_file_path};
use vstd::prelude::*;

verus! {

/// The resolution mode the engine asks in; it does not change the folder found.
#[derive(Debug, Clone, Copy, PartialEq, Eq, Structural)]
pub enum NodeResolutionMode {
    Execution,
    Types,
}

/// A package resolver rooted at one directory location. It grants read access
/// to every file: sandboxing is left to the engine's own permission layer.
#[derive(Debug, Clone)]
pub struct BasicNpmResolver {
    pub node_modules_url: String,
}

/// The folder of `specifier` under `root`: the specifier joined onto the root
/// location, then read as a local path.
pub open spec fn package_folder(root: Seq<char>, specifier: Seq<char>) -> Result<Seq<char>, ErrorView> {
    match joined_url(root, specifier) {
        None => Err(ErrorView::ParseLocation(specifier)),
        Some(u) => match url_file_path(u) {
            Some(p) => Ok(p),
            None => Err(ErrorView::ParseLocation(u)),
        },
    }
}

pub open spec fn text_result_view(r: Result<String, Error>) -> Result<Seq<char>, ErrorView> {
    match r {
        Ok(s) => Ok(s@),
        Err(e) => Err(e@),
    }
}

impl BasicNpmResolver {
    /// Creates a resolver rooted at the directory `path`, which must be absolute.
    pub fn new_from_str(path: &str) -> (r: Result<BasicNpmResolver, Error>)
        ensures
            directory_url(path@) matches Some(u) ==> (r matches Ok(res) && res.node_modules_url@ == u),
            directory_url(path@) is None ==> (r matches Err(e) && e@ == ErrorView::ParseLocation(
                path@,
            )),
    {
        match url_from_directory_path(path) {
            Some(u) => Ok(BasicNpmResolver { node_modules_url: u }),
            None => Err(Error::FailedToParseFilePathToUrl(String::from_str(path))),
        }
    }

    /// Reading any file is allowed.
    pub fn ensure_read_permission(&self, path: &str) -> (r: Result<(), Error>)
        ensures
            r is Ok,
    {
        Ok(())
    }

    /// The folder of the package named by `specifier`, whoever refers to it.
    pub fn resolve_package_folder_from_package(
        &self,
        specifier: &str,
        referrer: &str,
        mode: NodeResolutionMode,
    ) -> (r: Result<String, Error>)
        ensures
            text_result_view(r) == package_folder(self.node_modules_url@, specifier@),
    {
        match join_url(self.node_modules_url.as_str(), specifier) {
            None => Err(Error::FailedToParseFilePathToUrl(String::from_str(specifier))),
            Some(u) => match url_to_file_path(u.as_str()) {
                Some(p) => Ok(p),
                None => Err(Error::FailedToParseFilePathToUrl(u)),
            },
        }
    }

    /// Whether a location lies under the package root: its text starts with the root's text.
    pub fn in_npm_package(&self, specifier: &str) -> (r: bool)
        ensures
            r == self.node_modules_url@.is_prefix_of(specifier@),
    {
        let root = self.node_modules_url.as_str();
        let n = root.unicode_len();
        if n > specifier.unicode_len() {
            return false;
        }
        let mut i: usize = 0;
        while i < n
            invariant
                0 <= i <= n,
                n == root@.len(),
                n <= specifier@.len(),
                root@ == self.node_modules_url@,
                forall|k: int| 0 <= k < i ==> root@[k] == specifier@[k],
            decreases n - i,
        {
            if root.get_char(i) != specifier.get_char(i) {
                return false;
            }
            i = i + 1;
        }
        true
    }
}


/// A location whose text extends the root's text belongs to the root; one that
/// differs from the root's text within its length, such as a sibling folder,
/// does not.
pub proof fn lemma_root_membership(root: Seq<char>, rest: Seq<char>, other: Seq<char>, k: int)
    requires
        0 <= k < root.len(),
        k < other.len() ==> other[k] != root[k],
    ensures
        root.is_prefix_of(root + rest),
        !root.is_prefix_of(other),
{
    assert((root + rest).subrange(0, root.len() as int) =~= root);
    if root.is_prefix_of(other) {
        assert(other[k] == other.subrange(0, root.len() as int)[k]);
    }
}

} // verus!
