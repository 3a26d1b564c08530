//! The search for a binary in the file system.
use crate::cmd::{Cmd, CmdView};
use crate::os::{
    extension, join, no_separator, path_extension, path_join, path_with_extension,
    with_extension,
};
use std::path::PathBuf;
use vstd::prelude::*;

verus! {

/// A search under way: the paths that may name the binary and have not been looked at yet.
pub struct Search {
    candidates: Vec<PathBuf>,
    next: usize,
}

impl View for Search {
    type V = Seq<PathBuf>;

    closed spec fn view(&self) -> Seq<PathBuf> {
        self.candidates@.skip(self.next as int)
    }
}

impl Search {
    #[verifier::type_invariant]
    closed spec fn within_bounds(self) -> bool {
        self.next <= self.candidates@.len()
    }
}

/// Whether a binary is also looked for under its path with the extension that binaries have
/// on this platform: where they have one, and the path has none.
pub open spec fn tries_extension(
    exe_extension: Seq<char>,
    extension: Option<PathBuf>,
) -> bool {
    exe_extension.len() > 0 && extension is None
}

/// The paths at which the binary `bin` is looked for, in order.
pub open spec fn candidates_at(bin: PathBuf, exe_extension: Seq<char>) -> Seq<PathBuf> {
    if tries_extension(exe_extension, path_extension(bin)) {
        seq![bin, path_with_extension(bin, exe_extension)]
    } else {
        seq![bin]
    }
}

/// The directories of `PATH`: none where it is not set.
pub open spec fn dirs_of(path: Option<Vec<PathBuf>>) -> Seq<PathBuf> {
    match path {
        Some(dirs) => dirs@,
        None => Seq::empty(),
    }
}

/// The paths at which the binary of the name `bin_name` is looked for in the directories,
/// in order.
pub open spec fn candidates_in(
    dirs: Seq<PathBuf>,
    bin_name: Seq<char>,
    exe_extension: Seq<char>,
) -> Seq<PathBuf>
    decreases dirs.len(),
{
    if dirs.len() == 0 {
        Seq::empty()
    } else {
        candidates_in(dirs.drop_last(), bin_name, exe_extension) + candidates_at(
            path_join(dirs.last(), bin_name),
            exe_extension,
        )
    }
}

/// The path that a search looks at next, which has `candidates` left.
pub open spec fn probed(candidates: Seq<PathBuf>) -> Option<PathBuf> {
    if candidates.len() > 0 {
        Some(candidates[0])
    } else {
        None
    }
}

/// What becomes of a search, which has `candidates` left, once it is known whether there is
/// a file at the path that it looks at.
pub open spec fn answered(candidates: Seq<PathBuf>, is_file: bool) -> Result<
    CmdView,
    Seq<PathBuf>,
> {
    if candidates.len() == 0 {
        Err(candidates)
    } else if is_file {
        Ok(CmdView::new(candidates[0]))
    } else {
        Err(candidates.skip(1))
    }
}

/// Whether a binary is also looked for under its path with the extension that binaries have
/// on this platform. `extension` is the one that the path has.
pub fn wants_extension(exe_extension: &str, extension: &Option<PathBuf>) -> (yes: bool)
    ensures
        yes == tries_extension(exe_extension@, *extension),
        yes <==> exe_extension@.len() > 0 && extension is None,
{
    !exe_extension.is_empty() && extension.is_none()
}

/// Appends the paths at which the binary `bin` is looked for.
fn push_candidates(candidates: &mut Vec<PathBuf>, bin: PathBuf, exe_extension: &str)
    requires
        no_separator(exe_extension@),
    ensures
        final(candidates)@ == old(candidates)@ + candidates_at(bin, exe_extension@),
{
    let found: Option<PathBuf> = extension(&bin);
    if wants_extension(exe_extension, &found) {
        let other: PathBuf = with_extension(&bin, exe_extension);
        candidates.push(bin);
        candidates.push(other);
    } else {
        candidates.push(bin);
    }
}

impl Cmd {
    /// Looks for a file at `bin_path`, and, where binaries have an extension
    /// (`exe_extension`, which is empty elsewhere) and the path has none, at that path with
    /// the extension. `PATH` is not taken into account.
    pub fn try_at(bin_path: PathBuf, exe_extension: &str) -> (search: Search)
        requires
            no_separator(exe_extension@),
        ensures
            search@ == candidates_at(bin_path, exe_extension@),
    {
        let mut candidates: Vec<PathBuf> = Vec::new();
        push_candidates(&mut candidates, bin_path, exe_extension);
        assert(candidates@.skip(0) =~= candidates_at(bin_path, exe_extension@));
        Search { candidates, next: 0 }
    }

    /// Looks for a file of the name `bin_name` in `dirs`, the directories of `PATH`, as
    /// [`Cmd::try_at`] does in each of them. Where `PATH` is not set, there are none to look
    /// in.
    pub fn lookup_in_path(
        bin_name: &str,
        dirs: &Option<Vec<PathBuf>>,
        exe_extension: &str,
    ) -> (search: Search)
        requires
            no_separator(exe_extension@),
        ensures
            search@ == candidates_in(dirs_of(*dirs), bin_name@, exe_extension@),
            dirs is None ==> search@ == Seq::<PathBuf>::empty(),
            dirs matches Some(all) ==> search@ == candidates_in(all@, bin_name@, exe_extension@),
    {
        let mut candidates: Vec<PathBuf> = Vec::new();
        let dirs: &Vec<PathBuf> = match dirs {
            Some(dirs) => dirs,
            None => return Search { candidates, next: 0 },
        };
        let mut i: usize = 0;
        while i < dirs.len()
            invariant
                i <= dirs.len(),
                no_separator(exe_extension@),
                candidates@ == candidates_in(
                    dirs@.take(i as int),
                    bin_name@,
                    exe_extension@,
                ),
            decreases dirs.len() - i,
        {
            proof {
                assert(dirs@.take(i + 1).drop_last() == dirs@.take(i as int));
                assert(dirs@.take(i + 1).last() == dirs@[i as int]);
            }
            push_candidates(&mut candidates, join(&dirs[i], bin_name), exe_extension);
            i = i + 1;
        }
        assert(dirs@.take(i as int) == dirs@);
        assert(candidates@.skip(0) =~= candidates@);
        Search { candidates, next: 0 }
    }
}

impl Search {
    /// The path to look at next, or `None` where nothing was found at any.
    pub fn probe(&self) -> (path: Option<PathBuf>)
        ensures
            path == probed(self@),
            path == if self@.len() > 0 {
                Some(self@[0])
            } else {
                None
            },
    {
        proof {
            use_type_invariant(self);
        }
        if self.next < self.candidates.len() {
            Some(self.candidates[self.next].clone())
        } else {
            None
        }
    }

    /// Goes on from whether there is a file at the path to look at: a command for that path
    /// if there is, and the rest of the search if not.
    pub fn answer(self, is_file: bool) -> (found: Result<Cmd, Search>)
        ensures
            match found {
                Ok(cmd) => answered(self@, is_file) == Ok::<CmdView, Seq<PathBuf>>(cmd@),
                Err(search) => answered(self@, is_file) == Err::<CmdView, Seq<PathBuf>>(search@),
            },
            match found {
                Ok(cmd) => is_file && self@.len() > 0 && cmd@ == CmdView::new(self@[0]),
                Err(search) => !(is_file && self@.len() > 0) && search@ == if self@.len() > 0 {
                    self@.skip(1)
                } else {
                    self@
                },
            },
    {
        proof {
            use_type_invariant(&self);
        }
        if self.next < self.candidates.len() {
            if is_file {
                Ok(Cmd::new(self.candidates[self.next].clone()))
            } else {
                let rest: Search = Search { candidates: self.candidates, next: self.next + 1 };
                assert(rest@ =~= self@.skip(1));
                Err(rest)
            }
        } else {
            Err(self)
        }
    }
}

} // verus!
