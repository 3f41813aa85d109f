//! Model path resolution.
//!
//! A user-supplied model reference may be absolute, relative to the current
//! working directory, or relative to a platform-provided models folder. The
//! resolver tries those three candidates in that fixed order and returns
//! the first that is known to exist — for the two relative tiers, in its
//! joined form; when none exists it returns the original reference
//! unchanged. Resolution is total and side-effect-free: it never touches
//! the disk itself, so the caller probes the file system and hands the
//! findings in as an [`ExistingPaths`] view.

use vstd::prelude::*;
use crate::strutil::string_eq;

verus! {

/// A path is absolute when it starts with the path separator.
pub open spec fn is_absolute_path(s: Seq<char>) -> bool {
    s.len() >= 1 && s[0] == '/'
}

/// A relative reference joined under a folder: the folder, one separator
/// (unless the folder already ends with one or is empty), then the name.
pub open spec fn joined_path(folder: Seq<char>, name: Seq<char>) -> Seq<char> {
    if folder.len() == 0 {
        name
    } else if folder.last() == '/' {
        folder + name
    } else {
        folder + seq!['/'] + name
    }
}

/// Whether one exec path reference is absolute.
pub fn path_is_absolute(s: &String) -> (r: bool)
    ensures
        r == is_absolute_path(s@),
{
    if s.as_str().unicode_len() == 0 {
        return false;
    }
    s.as_str().get_char(0) == '/'
}

/// Joins a relative name under a folder.
pub fn join_path(folder: &String, name: &String) -> (r: String)
    ensures
        r@ == joined_path(folder@, name@),
{
    let n = folder.as_str().unicode_len();
    if n == 0 {
        return name.clone();
    }
    let mut out = folder.clone();
    if folder.as_str().get_char(n - 1) != '/' {
        proof {
            reveal_strlit("/");
        }
        out.append("/");
        proof {
            assert(out@ =~= folder@ + seq!['/']);
        }
    }
    out.append(name.as_str());
    proof {
        if folder@.last() == '/' {
            assert(out@ =~= folder@ + name@);
        } else {
            assert(out@ =~= folder@ + seq!['/'] + name@);
        }
    }
    out
}

/// The file-system facts the resolver consults: the set of candidate paths
/// that were probed and found to exist on disk.
pub struct ExistingPaths {
    pub paths: Vec<String>,
}

impl ExistingPaths {
    /// A path is covered by this view when it is one of the recorded paths.
    pub open spec fn spec_contains(&self, p: Seq<char>) -> bool {
        exists|i: int| 0 <= i < self.paths@.len() && self.paths@[i]@ == p
    }

    /// A view with no existing paths.
    pub fn none() -> (r: ExistingPaths)
        ensures
            forall|p: Seq<char>| !r.spec_contains(p),
    {
        ExistingPaths { paths: Vec::new() }
    }

    /// Records one more path as existing.
    pub fn record(&mut self, p: String)
        ensures
            final(self).spec_contains(p@),
            forall|q: Seq<char>|
                final(self).spec_contains(q) <==> old(self).spec_contains(q) || q == p@,
    {
        let ghost prior = self.paths@;
        self.paths.push(p);
        proof {
            assert(forall|q: Seq<char>| #[trigger] final(self).spec_contains(q)
                <==> old(self).spec_contains(q) || q == final(self).paths@.last()@) by {
                assert(forall|i: int| 0 <= i < prior.len()
                    ==> final(self).paths@[i] == prior[i]);
            }
        }
    }

    /// Whether the given path was recorded as existing.
    pub fn contains(&self, p: &String) -> (r: bool)
        ensures
            r == self.spec_contains(p@),
    {
        let mut i: usize = 0;
        while i < self.paths.len()
            invariant
                0 <= i <= self.paths@.len(),
                forall|j: int| 0 <= j < i ==> self.paths@[j]@ != p@,
            decreases self.paths@.len() - i,
        {
            if string_eq(&self.paths[i], p) {
                return true;
            }
            i += 1;
        }
        false
    }
}

/// What resolution yields: the first candidate of the fixed search order
/// that is known to exist — joined under the working directory, then
/// joined under the models folder — or the reference itself when none
/// does. An absolute reference short-circuits the search without any
/// existence check.
pub open spec fn resolved_path(
    reference: Seq<char>,
    cwd: Seq<char>,
    models_folder: Seq<char>,
    existing: ExistingPaths,
) -> Seq<char> {
    if is_absolute_path(reference) {
        reference
    } else if existing.spec_contains(joined_path(cwd, reference)) {
        joined_path(cwd, reference)
    } else if existing.spec_contains(joined_path(models_folder, reference)) {
        joined_path(models_folder, reference)
    } else {
        reference
    }
}

/// Resolves a model reference through the fixed search order: an absolute
/// reference is returned unchanged without any existence check; a relative
/// reference that exists under the current working directory resolves to
/// that joined path; a reference that exists joined under the models
/// folder resolves to that joined path; otherwise the original reference
/// comes back unchanged, and the unusable path is detected later, at
/// invocation.
pub fn prepare_model_path(
    reference: &String,
    cwd: &String,
    models_folder: &String,
    existing: &ExistingPaths,
) -> (r: String)
    ensures
        r@ == resolved_path(reference@, cwd@, models_folder@, *existing),
{
    if path_is_absolute(reference) {
        return reference.clone();
    }
    let relative_to_cwd = join_path(cwd, reference);
    if existing.contains(&relative_to_cwd) {
        return relative_to_cwd;
    }
    let relative_to_models_folder = join_path(models_folder, reference);
    if existing.contains(&relative_to_models_folder) {
        return relative_to_models_folder;
    }
    reference.clone()
}

} // verus!
