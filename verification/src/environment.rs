//! The shell's persistent state: home directory, working directory with its
//! display truncation, and the previously visited directory.

use vstd::prelude::*;
use vstd::string::StrSliceExecFns;
use vstd::string::StringExecFns;

verus! {

/// Accumulating scan behind `segments`: walks the path from position `i`
/// with `cur` the piece gathered since the last separator and `acc` the
/// segments already complete.
pub open spec fn seg_scan(s: Seq<char>, i: int, cur: Seq<char>, acc: Seq<Seq<char>>) -> Seq<
    Seq<char>,
>
    decreases s.len() - i,
{
    if i < 0 || i >= s.len() {
        if cur.len() > 0 {
            acc.push(cur)
        } else {
            acc
        }
    } else if s[i] == '/' {
        if cur.len() > 0 {
            seg_scan(s, i + 1, Seq::empty(), acc.push(cur))
        } else {
            seg_scan(s, i + 1, Seq::empty(), acc)
        }
    } else {
        seg_scan(s, i + 1, cur.push(s[i]), acc)
    }
}

/// The nonempty pieces of a path between `/` separators.
pub open spec fn segments(s: Seq<char>) -> Seq<Seq<char>> {
    seg_scan(s, 0, Seq::empty(), Seq::empty())
}

/// The segments joined with `/` between them, with no leading separator.
pub open spec fn join_slash(segs: Seq<Seq<char>>) -> Seq<char>
    decreases segs.len(),
{
    if segs.len() == 0 {
        Seq::empty()
    } else if segs.len() == 1 {
        segs[0]
    } else {
        join_slash(segs.drop_last()) + seq!['/'] + segs.last()
    }
}

/// Splits a path into its nonempty `/`-separated segments.
pub fn split_slash(s: &str) -> (r: Vec<String>)
    ensures
        r.deep_view() == segments(s@),
{
    let n = s.unicode_len();
    let mut acc: Vec<String> = Vec::new();
    let mut start: usize = 0;
    let mut i: usize = 0;
    proof {
        assert(acc.deep_view() =~= Seq::<Seq<char>>::empty());
        assert(s@.subrange(0, 0) =~= Seq::<char>::empty());
    }
    while i < n
        invariant
            start <= i <= n,
            n == s@.len(),
            seg_scan(s@, i as int, s@.subrange(start as int, i as int), acc.deep_view())
                == segments(s@),
        decreases n - i,
    {
        let ghost pre_acc = acc.deep_view();
        let ghost cur = s@.subrange(start as int, i as int);
        let c = s.get_char(i);
        if c == '/' {
            if i > start {
                let piece = s.substring_char(start, i).to_owned();
                acc.push(piece);
                proof {
                    assert(acc.deep_view() =~= pre_acc.push(cur));
                }
            }
            start = i + 1;
            proof {
                assert(s@.subrange(start as int, i + 1) =~= Seq::<char>::empty());
            }
        } else {
            proof {
                assert(s@.subrange(start as int, i + 1) =~= cur.push(s@[i as int]));
            }
        }
        i = i + 1;
    }
    if start < n {
        let ghost pre_acc = acc.deep_view();
        let ghost cur = s@.subrange(start as int, n as int);
        let piece = s.substring_char(start, n).to_owned();
        acc.push(piece);
        proof {
            assert(acc.deep_view() =~= pre_acc.push(cur));
        }
    }
    acc
}

/// Joins the given segments with `/` between them.
pub fn join_with_slash(v: &Vec<String>) -> (r: String)
    ensures
        r@ == join_slash(v.deep_view()),
{
    let mut out = String::new();
    let mut i: usize = 0;
    proof {
        assert(v.deep_view().take(0) =~= Seq::<Seq<char>>::empty());
    }
    while i < v.len()
        invariant
            i <= v.len(),
            out@ == join_slash(v.deep_view().take(i as int)),
        decreases v.len() - i,
    {
        if i > 0 {
            out.append("/");
            proof {
                reveal_strlit("/");
                assert("/"@ =~= seq!['/']);
            }
        }
        out.append(v[i].as_str());
        proof {
            assert(v.deep_view().take(i + 1).drop_last() =~= v.deep_view().take(i as int));
            assert(v.deep_view().take(i + 1).last() == v.deep_view()[i as int]);
        }
        i = i + 1;
    }
    proof {
        assert(v.deep_view().take(v.len() as int) =~= v.deep_view());
    }
    out
}

/// The working directory as shown to the user. `absolute` is the full path;
/// `truncation`, when set to `k`, limits the rendering to the path's last
/// `k` segments.
pub struct Path {
    pub absolute: String,
    pub truncation: Option<usize>,
}

/// What `Path::render` returns: the full path when truncation is off or the
/// path has no more segments than the depth allows, else the last `depth`
/// segments joined with `/`.
pub open spec fn rendered(p: Path) -> Seq<char> {
    match p.truncation {
        Option::None => p.absolute@,
        Option::Some(k) => {
            let segs = segments(p.absolute@);
            if segs.len() <= k {
                p.absolute@
            } else {
                join_slash(segs.skip(segs.len() - k))
            }
        },
    }
}

impl Path {
    /// A path shown in full, without truncation.
    pub fn new(absolute: String) -> (r: Self)
        ensures
            r.absolute == absolute,
            r.truncation == Option::<usize>::None,
    {
        Path { absolute, truncation: Option::None }
    }

    /// Limits the rendering to the last `depth` segments.
    pub fn set_truncation(&mut self, depth: usize)
        ensures
            final(self).absolute == old(self).absolute,
            final(self).truncation == Option::Some(depth),
    {
        self.truncation = Option::Some(depth);
    }

    /// Restores the full-path rendering.
    pub fn disable_truncation(&mut self)
        ensures
            final(self).absolute == old(self).absolute,
            final(self).truncation == Option::<usize>::None,
    {
        self.truncation = Option::None;
    }

    /// The path as presented to the user, truncation applied.
    pub fn render(&self) -> (r: String)
        ensures
            r@ == rendered(*self),
    {
        match self.truncation {
            Option::None => self.absolute.clone(),
            Option::Some(k) => {
                let segs = split_slash(self.absolute.as_str());
                if segs.len() <= k {
                    self.absolute.clone()
                } else {
                    let cut = segs.len() - k;
                    let mut tail: Vec<String> = Vec::new();
                    let mut i: usize = cut;
                    proof {
                        assert(tail.deep_view() =~= segs.deep_view().subrange(
                            cut as int,
                            cut as int,
                        ));
                    }
                    while i < segs.len()
                        invariant
                            cut <= i <= segs.len(),
                            tail.deep_view() == segs.deep_view().subrange(cut as int, i as int),
                        decreases segs.len() - i,
                    {
                        let ghost pre = tail.deep_view();
                        tail.push(segs[i].clone());
                        proof {
                            assert(tail.deep_view() =~= pre.push(segs.deep_view()[i as int]));
                            assert(tail.deep_view() =~= segs.deep_view().subrange(
                                cut as int,
                                i + 1,
                            ));
                        }
                        i = i + 1;
                    }
                    proof {
                        assert(segs.deep_view().subrange(cut as int, segs.len() as int)
                            =~= segs.deep_view().skip(cut as int));
                    }
                    join_with_slash(&tail)
                }
            },
        }
    }
}

/// The shell's environment: the home directory, the working directory and
/// the directory in effect before the most recent successful change.
pub struct Environment {
    pub home: String,
    pub working_directory: Path,
    pub previous_working_directory: Option<String>,
}

/// How a validated directory change transforms the environment: the working
/// directory becomes the resolved path, the old working directory is
/// recorded as the previous one, and home and truncation are kept.
pub open spec fn set_path_rel(pre: Environment, post: Environment, resolved: Seq<char>) -> bool {
    &&& post.home == pre.home
    &&& post.working_directory.absolute@ == resolved
    &&& post.working_directory.truncation == pre.working_directory.truncation
    &&& post.previous_working_directory matches Option::Some(q) && q@
        == pre.working_directory.absolute@
}

impl Environment {
    /// A fresh environment with no previous directory and no truncation.
    pub fn new(home: String, working_directory: String) -> (r: Self)
        ensures
            r.home == home,
            r.working_directory.absolute == working_directory,
            r.working_directory.truncation == Option::<usize>::None,
            r.previous_working_directory == Option::<String>::None,
    {
        Environment {
            home,
            working_directory: Path::new(working_directory),
            previous_working_directory: Option::None,
        }
    }

    /// The home directory.
    pub fn home(&self) -> (r: &String)
        ensures
            r == &self.home,
    {
        &self.home
    }

    /// Moves to an already validated absolute directory, recording the
    /// working directory it replaces.
    pub fn set_path(&mut self, resolved: String)
        ensures
            set_path_rel(*old(self), *final(self), resolved@),
    {
        let prev = self.working_directory.absolute.clone();
        self.previous_working_directory = Option::Some(prev);
        self.working_directory.absolute = resolved;
    }
}

/// The owning shell: the state that outlives any single command.
pub struct Shell {
    pub environment: Environment,
}

impl Shell {
    pub fn new(environment: Environment) -> (r: Self)
        ensures
            r.environment == environment,
    {
        Shell { environment }
    }
}

} // verus!
