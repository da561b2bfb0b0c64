//! A model of the destination repository's pending tree.
//!
//! The synchronizer works against this model: the set of tracked files of
//! one ephemeral working copy, each an output-relative path with its
//! content. The surrounding program loads the model from a fresh clone's
//! index and writes the changed files back before committing.

use vstd::prelude::*;

use crate::paths;

verus! {

/// One tracked file of the destination repository.
pub struct TrackedFile {
    /// The repository-relative path of the file, as segments.
    pub path: Vec<String>,
    /// The file's content, as text.
    pub content: String,
}

/// The pending tree of one working copy of the destination repository.
pub struct RepoState {
    /// The tracked files, in listing order.
    pub files: Vec<TrackedFile>,
}

/// The model of a tracked-file listing: each file's path segments and
/// content.
pub open spec fn tracked_views(files: Seq<TrackedFile>) -> Seq<(Seq<Seq<char>>, Seq<char>)> {
    files.map_values(|f: TrackedFile| (paths::path_view(f.path@), f.content@))
}

/// The listing without every file lying under the directory prefix.
pub open spec fn spec_remove_under(
    files: Seq<(Seq<Seq<char>>, Seq<char>)>,
    prefix: Seq<Seq<char>>,
) -> Seq<(Seq<Seq<char>>, Seq<char>)> {
    files.filter(|f: (Seq<Seq<char>>, Seq<char>)| !prefix.is_prefix_of(f.0))
}

/// The listing without any file at exactly the given path.
pub open spec fn spec_drop_path(
    files: Seq<(Seq<Seq<char>>, Seq<char>)>,
    path: Seq<Seq<char>>,
) -> Seq<(Seq<Seq<char>>, Seq<char>)> {
    files.filter(|f: (Seq<Seq<char>>, Seq<char>)| f.0 != path)
}

/// The listing after a file is written: any prior file at the path leaves
/// the listing and the new file is appended.
pub open spec fn spec_put(
    files: Seq<(Seq<Seq<char>>, Seq<char>)>,
    path: Seq<Seq<char>>,
    content: Seq<char>,
) -> Seq<(Seq<Seq<char>>, Seq<char>)> {
    spec_drop_path(files, path).push((path, content))
}

/// The listing after a run of rendered files is written in order, each
/// overwriting any prior file at its path.
pub open spec fn spec_apply(
    files: Seq<(Seq<Seq<char>>, Seq<char>)>,
    rendered: Seq<(Seq<Seq<char>>, Seq<char>)>,
) -> Seq<(Seq<Seq<char>>, Seq<char>)>
    decreases rendered.len(),
{
    if rendered.len() == 0 {
        files
    } else {
        spec_apply(spec_put(files, rendered[0].0, rendered[0].1), rendered.drop_first())
    }
}

/// Whether a tracked path lies strictly below a child of `dir`: the path
/// starts with `dir`, then a child name, then at least one more segment.
pub open spec fn is_strict_child(p: Seq<Seq<char>>, dir: Seq<Seq<char>>) -> bool {
    dir.is_prefix_of(p) && p.len() > dir.len() + 1
}

/// The immediate subdirectory names of `dir` in the listing: each name in
/// order of its first appearance, once.
pub open spec fn spec_subdirs(
    files: Seq<(Seq<Seq<char>>, Seq<char>)>,
    dir: Seq<Seq<char>>,
) -> Seq<Seq<char>>
    decreases files.len(),
{
    if files.len() == 0 {
        Seq::empty()
    } else {
        let rest = spec_subdirs(files.drop_last(), dir);
        let p = files.last().0;
        if is_strict_child(p, dir) && !rest.contains(p[dir.len() as int]) {
            rest.push(p[dir.len() as int])
        } else {
            rest
        }
    }
}

impl RepoState {
    /// The model of the pending tree.
    pub open spec fn view_files(&self) -> Seq<(Seq<Seq<char>>, Seq<char>)> {
        tracked_views(self.files@)
    }

    /// An empty pending tree.
    pub fn new() -> (r: RepoState)
        ensures
            r.view_files() == Seq::<(Seq<Seq<char>>, Seq<char>)>::empty(),
    {
        let r = RepoState { files: Vec::new() };
        proof {
            assert(r.view_files() =~= Seq::<(Seq<Seq<char>>, Seq<char>)>::empty());
        }
        r
    }

    /// Removes from the pending tree every tracked file under the given
    /// directory prefix, as clearing a directory out of the change index
    /// does.
    pub fn remove_under(&mut self, prefix: &Vec<String>)
        ensures
            final(self).view_files() == spec_remove_under(
                old(self).view_files(),
                paths::path_view(prefix@),
            ),
    {
        let ghost orig = tracked_views(old(self).files@);
        let ghost pre = paths::path_view(prefix@);
        let ghost pred = |f: (Seq<Seq<char>>, Seq<char>)| !pre.is_prefix_of(f.0);
        let mut kept: Vec<TrackedFile> = Vec::new();
        let mut i: usize = 0;
        proof {
            reveal(Seq::filter);
            assert(orig.take(0) =~= Seq::<(Seq<Seq<char>>, Seq<char>)>::empty());
            assert(tracked_views(kept@) =~= orig.take(0).filter(pred));
        }
        while i < self.files.len()
            invariant
                i <= self.files@.len(),
                orig == tracked_views(self.files@),
                pre == paths::path_view(prefix@),
                pred == (|f: (Seq<Seq<char>>, Seq<char>)| !pre.is_prefix_of(f.0)),
                tracked_views(kept@) == orig.take(i as int).filter(pred),
            decreases self.files@.len() - i,
        {
            proof {
                reveal(Seq::filter);
                assert(orig.take(i as int + 1).drop_last() =~= orig.take(i as int));
                assert(orig.take(i as int + 1).last() == orig[i as int]);
                assert(orig[i as int] == (
                    paths::path_view(self.files@[i as int].path@),
                    self.files@[i as int].content@,
                ));
            }
            let file = &self.files[i];
            let ghost kept_before = kept@;
            if !paths::path_has_prefix(&file.path, prefix) {
                let copy = TrackedFile {
                    path: paths::clone_path(&file.path),
                    content: file.content.clone(),
                };
                kept.push(copy);
                proof {
                    assert(tracked_views(kept@) =~= tracked_views(kept_before).push(
                        orig[i as int],
                    ));
                }
            }
            proof {
                reveal(Seq::filter);
                assert(tracked_views(kept@) =~= orig.take(i as int + 1).filter(pred));
            }
            i = i + 1;
        }
        proof {
            assert(orig.take(orig.len() as int) =~= orig);
        }
        self.files = kept;
    }

    /// Writes a file into the pending tree, overwriting any existing file
    /// at that path.
    pub fn put_file(&mut self, path: Vec<String>, content: String)
        ensures
            final(self).view_files() == spec_put(
                old(self).view_files(),
                paths::path_view(path@),
                content@,
            ),
    {
        let ghost orig = tracked_views(old(self).files@);
        let ghost target = paths::path_view(path@);
        let mut kept: Vec<TrackedFile> = Vec::new();
        let mut i: usize = 0;
        proof {
            reveal(Seq::filter);
            assert(orig.take(0) =~= Seq::<(Seq<Seq<char>>, Seq<char>)>::empty());
            assert(tracked_views(kept@) =~= spec_drop_path(orig.take(0), target));
        }
        while i < self.files.len()
            invariant
                i <= self.files@.len(),
                orig == tracked_views(self.files@),
                target == paths::path_view(path@),
                tracked_views(kept@) == spec_drop_path(orig.take(i as int), target),
            decreases self.files@.len() - i,
        {
            proof {
                reveal(Seq::filter);
                assert(orig.take(i as int + 1).drop_last() =~= orig.take(i as int));
                assert(orig.take(i as int + 1).last() == orig[i as int]);
                assert(orig[i as int] == (
                    paths::path_view(self.files@[i as int].path@),
                    self.files@[i as int].content@,
                ));
            }
            let file = &self.files[i];
            let ghost kept_before = kept@;
            if !paths::paths_equal(&file.path, &path) {
                let copy = TrackedFile {
                    path: paths::clone_path(&file.path),
                    content: file.content.clone(),
                };
                kept.push(copy);
                proof {
                    assert(tracked_views(kept@) =~= tracked_views(kept_before).push(
                        orig[i as int],
                    ));
                }
            }
            proof {
                reveal(Seq::filter);
                assert(tracked_views(kept@) =~= spec_drop_path(orig.take(i as int + 1), target));
            }
            i = i + 1;
        }
        proof {
            assert(orig.take(orig.len() as int) =~= orig);
        }
        let ghost kept_final = kept@;
        let ghost content_v = content@;
        kept.push(TrackedFile { path, content });
        self.files = kept;
        proof {
            assert(orig.take(orig.len() as int) =~= orig);
            assert(tracked_views(self.files@) =~= tracked_views(kept_final).push(
                (target, content_v),
            ));
            assert(self.view_files() =~= spec_put(orig, target, content_v));
        }
    }

    /// Lists the immediate subdirectory names of a directory of the
    /// pending tree, each once, in order of first appearance.
    pub fn subdirs_of(&self, dir: &Vec<String>) -> (r: Vec<String>)
        ensures
            paths::path_view(r@) == spec_subdirs(self.view_files(), paths::path_view(dir@)),
    {
        let ghost views = self.view_files();
        let ghost dir_v = paths::path_view(dir@);
        let mut out: Vec<String> = Vec::new();
        let mut i: usize = 0;
        proof {
            assert(views.take(0) =~= Seq::<(Seq<Seq<char>>, Seq<char>)>::empty());
            assert(paths::path_view(out@) =~= spec_subdirs(views.take(0), dir_v));
        }
        while i < self.files.len()
            invariant
                i <= self.files@.len(),
                views == self.view_files(),
                dir_v == paths::path_view(dir@),
                paths::path_view(out@) == spec_subdirs(views.take(i as int), dir_v),
            decreases self.files@.len() - i,
        {
            proof {
                assert(views.take(i as int + 1).drop_last() =~= views.take(i as int));
                assert(views.take(i as int + 1).last() == views[i as int]);
            }
            let file = &self.files[i];
            let ghost out_before = out@;
            if paths::path_has_prefix(&file.path, dir) && file.path.len() > dir.len()
                && file.path.len() - dir.len() > 1 {
                let name = &file.path[dir.len()];
                proof {
                    assert(name@ == views[i as int].0[dir_v.len() as int]);
                }
                if !contains_segment(&out, name) {
                    out.push(name.clone());
                    proof {
                        assert(paths::path_view(out@) =~= paths::path_view(out_before).push(
                            name@,
                        ));
                    }
                }
            }
            proof {
                assert(paths::path_view(out@) =~= spec_subdirs(views.take(i as int + 1), dir_v));
            }
            i = i + 1;
        }
        proof {
            assert(views.take(views.len() as int) =~= views);
        }
        out
    }

    /// Returns the content of the file at a path of the pending tree, if
    /// one is tracked there; the last written file at the path wins.
    pub fn file_content<'a>(&'a self, path: &Vec<String>) -> (r: Option<&'a String>)
        ensures
            match r {
                Some(c) => exists|i: int|
                    0 <= i < self.view_files().len() && self.view_files()[i] == (
                    paths::path_view(path@),
                    c@,
                    ),
                None => forall|i: int|
                    0 <= i < self.view_files().len() ==> self.view_files()[i].0 != paths::path_view(
                        path@,
                    ),
            },
    {
        let ghost views = self.view_files();
        let mut i: usize = self.files.len();
        while i > 0
            invariant
                i <= self.files@.len(),
                views == self.view_files(),
                forall|j: int| i <= j < views.len() ==> views[j].0 != paths::path_view(path@),
            decreases i,
        {
            let file = &self.files[i - 1];
            if paths::paths_equal(&file.path, path) {
                proof {
                    assert(views[i as int - 1] == (paths::path_view(path@), file.content@));
                }
                return Some(&file.content);
            }
            i = i - 1;
        }
        None
    }
}

/// Whether a segment list carries a given segment.
pub fn contains_segment(v: &Vec<String>, s: &String) -> (r: bool)
    ensures
        r == paths::path_view(v@).contains(s@),
{
    let mut i: usize = 0;
    while i < v.len()
        invariant
            i <= v@.len(),
            forall|j: int| 0 <= j < i ==> v@[j]@ != s@,
        decreases v@.len() - i,
    {
        if v[i] == *s {
            proof {
                assert(paths::path_view(v@)[i as int] == s@);
            }
            return true;
        }
        i = i + 1;
    }
    proof {
        assert(forall|j: int| 0 <= j < paths::path_view(v@).len() ==> paths::path_view(v@)[j]
            != s@);
    }
    false
}

} // verus!
