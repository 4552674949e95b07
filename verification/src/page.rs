//! The page intent model: what the user asked to see, as pure data, and the
//! parsing of the positional arguments that describe a diff or a file with
//! an optional line. Resolving a revision to a hash is the git
//! collaborator's work; the functions here only read the argument text.

use crate::error::Error;
use crate::strutil::{
    all_digits, char_digit, find_char, find_char_at, find_seq, find_sub, lemma_find_char_from,
    lemma_find_seq_from, lemma_parse_dec_bound, spec_parse_dec, spec_pow10, spec_segments,
    split_segments, str_eq,
};
use vstd::prelude::*;
use vstd::string::StrSliceExecFns;
use vstd::string::StringExecFns;

verus! {

/// How two commits are compared: `..` directly, `...` from their merge
/// base.
#[derive(Debug, Clone, Copy, PartialEq, Eq)]
pub enum DiffOp {
    TwoDots,
    ThreeDots,
}

/// The text each diff operator renders to.
pub open spec fn spec_diff_op(op: DiffOp) -> Seq<char> {
    match op {
        DiffOp::TwoDots => ".."@,
        DiffOp::ThreeDots => "..."@,
    }
}

/// The text of one diff operator.
pub fn diff_op_str(op: DiffOp) -> (r: &'static str)
    ensures
        r@ == spec_diff_op(op),
{
    match op {
        DiffOp::TwoDots => "..",
        DiffOp::ThreeDots => "...",
    }
}

/// A single line, or an inclusive range of lines, inside a file.
#[derive(Debug, Clone, Copy, PartialEq, Eq)]
pub enum Line {
    At(usize),
    Range(usize, usize),
}

/// What page the user asked to see.
#[derive(Debug, Clone, PartialEq, Eq)]
pub enum Page {
    Open,
    Branch { name: String },
    Commit { hash: String },
    Diff { lhs: String, rhs: String, op: DiffOp },
    FileOrDir { relative_path: String, hash: String, line: Option<Line> },
}

/// The outcome of reading a diff argument.
pub enum SpecDiffParse {
    Diff { lhs: Seq<char>, rhs: Seq<char>, op: DiffOp },
    NoDots,
    EmptyHand,
}

/// How a diff argument is read: the first `..` splits it, a third dot makes
/// the operator `...`, and both hands must be non-empty.
pub open spec fn spec_parse_diff(s: Seq<char>) -> SpecDiffParse {
    match find_seq(s, ".."@) {
        None => SpecDiffParse::NoDots,
        Some(i) => {
            let three = i + 2 < s.len() && s[i + 2] == '.';
            let lhs = s.take(i);
            let rhs = if three {
                s.skip(i + 3)
            } else {
                s.skip(i + 2)
            };
            if lhs.len() == 0 || rhs.len() == 0 {
                SpecDiffParse::EmptyHand
            } else {
                SpecDiffParse::Diff {
                    lhs,
                    rhs,
                    op: if three {
                        DiffOp::ThreeDots
                    } else {
                        DiffOp::TwoDots
                    },
                }
            }
        },
    }
}

/// Reads a diff argument such as `HEAD~3..HEAD` or `master...topic` into
/// its two hands and its operator. The hands are revisions, still to be
/// resolved to hashes.
pub fn parse_diff_arg(s: &str) -> (r: Result<(String, String, DiffOp), Error>)
    ensures
        match spec_parse_diff(s@) {
            SpecDiffParse::Diff { lhs, rhs, op } => r matches Ok(d) && d.0@ == lhs && d.1@ == rhs
                && d.2 == op,
            SpecDiffParse::NoDots => r == Err::<(String, String, DiffOp), Error>(
                Error::DiffDotsNotFound,
            ),
            SpecDiffParse::EmptyHand => r matches Err(e) && e matches Error::DiffHandIsEmpty {
                input,
            } && input@ == s@,
        },
{
    let m = s.unicode_len();
    proof {
        lemma_find_seq_from(s@, ".."@, 0);
    }
    match find_sub(s, "..") {
        None => Err(Error::DiffDotsNotFound),
        Some(i) => {
            proof {
                reveal_strlit("..");
            }
            let three = i + 2 < m && s.get_char(i + 2) == '.';
            let lhs = s.substring_char(0, i);
            let rhs = if three {
                s.substring_char(i + 3, m)
            } else {
                s.substring_char(i + 2, m)
            };
            if lhs.unicode_len() == 0 || rhs.unicode_len() == 0 {
                Err(Error::DiffHandIsEmpty { input: String::from_str(s) })
            } else {
                let op = if three {
                    DiffOp::ThreeDots
                } else {
                    DiffOp::TwoDots
                };
                Ok((String::from_str(lhs), String::from_str(rhs), op))
            }
        },
    }
}

/// A line number in an argument: one to nine digits.
pub open spec fn is_line_number(s: Seq<char>) -> bool {
    1 <= s.len() <= 9 && all_digits(s)
}

/// Reads a line number of one to nine digits.
fn parse_line_number(s: &str) -> (r: Option<usize>)
    ensures
        match r {
            Some(v) => is_line_number(s@) && v == spec_parse_dec(s@),
            None => !is_line_number(s@),
        },
{
    let m = s.unicode_len();
    if m == 0 || m > 9 {
        return None;
    }
    let mut val: u32 = 0;
    let mut i: usize = 0;
    while i < m
        invariant
            i <= m,
            1 <= m <= 9,
            m == s@.len(),
            all_digits(s@.take(i as int)),
            val == spec_parse_dec(s@.take(i as int)),
            val < spec_pow10(i as nat),
        decreases m - i,
    {
        proof {
            reveal_with_fuel(spec_pow10, 10);
            assert(s@.take(i + 1).drop_last() =~= s@.take(i as int));
            assert(s@.take(i + 1).last() == s@[i as int]);
        }
        match char_digit(s.get_char(i)) {
            Some(d) => {
                val = val * 10 + d;
            },
            None => {
                return None;
            },
        }
        proof {
            assert(all_digits(s@.take(i + 1))) by {
                assert(forall|j: int|
                    0 <= j < i ==> s@.take(i + 1)[j] == s@.take(i as int)[j]);
            }
        }
        i += 1;
    }
    proof {
        assert(s@.take(m as int) =~= s@);
        reveal_with_fuel(spec_pow10, 10);
        lemma_parse_dec_bound(s@);
    }
    Some(val as usize)
}

/// How the fragment after `#` is read: `L<n>` is a single line,
/// `L<n>-<m>` or `L<n>-L<m>` a range, anything else no line at all.
pub open spec fn spec_parse_line_spec(f: Seq<char>) -> Option<Line> {
    if f.len() == 0 || f[0] != 'L' {
        None
    } else {
        let rest = f.skip(1);
        match find_char(rest, '-') {
            None => if is_line_number(rest) {
                Some(Line::At(spec_parse_dec(rest) as usize))
            } else {
                None
            },
            Some(j) => {
                let first = rest.take(j);
                let after = rest.skip(j + 1);
                let second = if after.len() > 0 && after[0] == 'L' {
                    after.skip(1)
                } else {
                    after
                };
                if is_line_number(first) && is_line_number(second) {
                    Some(
                        Line::Range(
                            spec_parse_dec(first) as usize,
                            spec_parse_dec(second) as usize,
                        ),
                    )
                } else {
                    None
                }
            },
        }
    }
}

/// Reads the line fragment of a file argument.
fn parse_line_spec(f: &str) -> (r: Option<Line>)
    ensures
        r == spec_parse_line_spec(f@),
{
    let m = f.unicode_len();
    if m == 0 || f.get_char(0) != 'L' {
        return None;
    }
    let rest = f.substring_char(1, m);
    proof {
        assert(rest@ =~= f@.skip(1));
        lemma_find_char_from(rest@, '-', 0);
    }
    let n = rest.unicode_len();
    match find_char_at(rest, '-', 0) {
        None => {
            match parse_line_number(rest) {
                Some(v) => Some(Line::At(v)),
                None => None,
            }
        },
        Some(j) => {
            let first = rest.substring_char(0, j);
            let after = rest.substring_char(j + 1, n);
            proof {
                assert(first@ =~= rest@.take(j as int));
                assert(after@ =~= rest@.skip(j + 1));
            }
            let an = after.unicode_len();
            let second = if an > 0 && after.get_char(0) == 'L' {
                let sec = after.substring_char(1, an);
                proof {
                    assert(sec@ =~= after@.skip(1));
                }
                sec
            } else {
                after
            };
            match parse_line_number(first) {
                Some(v1) => match parse_line_number(second) {
                    Some(v2) => Some(Line::Range(v1, v2)),
                    None => None,
                },
                None => None,
            }
        },
    }
}

/// How a file argument is read: a fragment after `#` that parses as a line
/// spec is split off; otherwise the whole argument is the path.
pub open spec fn spec_parse_file(s: Seq<char>) -> (Seq<char>, Option<Line>) {
    match find_char(s, '#') {
        None => (s, None),
        Some(i) => {
            match spec_parse_line_spec(s.skip(i + 1)) {
                Some(l) => (s.take(i), Some(l)),
                None => (s, None),
            }
        },
    }
}

/// Reads a file argument such as `some/file.txt#L123` into the path and the
/// optional line.
pub fn parse_file_arg(s: &str) -> (r: (String, Option<Line>))
    ensures
        r.0@ == spec_parse_file(s@).0,
        r.1 == spec_parse_file(s@).1,
{
    let m = s.unicode_len();
    proof {
        lemma_find_char_from(s@, '#', 0);
    }
    match find_char_at(s, '#', 0) {
        None => (String::from_str(s), None),
        Some(i) => {
            let frag = s.substring_char(i + 1, m);
            proof {
                assert(frag@ =~= s@.skip(i + 1));
            }
            match parse_line_spec(frag) {
                Some(l) => (String::from_str(s.substring_char(0, i)), Some(l)),
                None => (String::from_str(s), None),
            }
        },
    }
}

/// Where the reading of one positional argument stands: which attempt is
/// waiting for a revision to be resolved.
#[derive(Debug, Clone, PartialEq, Eq)]
pub enum PageStage {
    /// The argument reads as a diff; the left-hand revision is being
    /// resolved.
    DiffLhs { lhs_rev: String, rhs_rev: String, op: DiffOp },
    /// The left hand resolved; the right-hand revision is being resolved.
    DiffRhs { lhs_hash: String, rhs_rev: String, op: DiffOp },
    /// The whole argument is being tried as a revision.
    Commitish,
    /// The argument is a file path; the branch's revision is being
    /// resolved for it.
    FileRev { relative_path: String, line: Option<Line> },
    /// A page or an error was settled.
    Settled,
}

/// Reads one positional argument into a page, in the order the attempts
/// are owed: first as a diff between two revisions, then as a single
/// revision, last as a file path under the branch's revision. Resolving a
/// revision to a hash is the git collaborator's work: the resolver names
/// the revision it waits on, the caller resolves it (`Git::hash`) and
/// hands the result back; every decision between the lookups is made here.
#[derive(Debug, Clone)]
pub struct PageResolver {
    pub arg: String,
    pub branch: Option<String>,
    pub repo_root: String,
    pub stage: PageStage,
}

impl PageResolver {
    /// A fresh resolver for the positional argument `arg`: an argument
    /// that reads as a diff starts with its left-hand revision, any other
    /// is first tried as a revision itself. `branch` is the branch whose
    /// state a file page shows, `repo_root` the repository root a failing
    /// file path is reported against.
    pub fn new(arg: &str, branch: &Option<String>, repo_root: &str) -> (r: PageResolver)
        ensures
            r.arg@ == arg@,
            r.branch == branch,
            r.repo_root@ == repo_root@,
            match spec_parse_diff(arg@) {
                SpecDiffParse::Diff { lhs, rhs, op } => r.stage matches PageStage::DiffLhs {
                    lhs_rev,
                    rhs_rev,
                    op: o,
                } && lhs_rev@ == lhs && rhs_rev@ == rhs && o == op,
                _ => r.stage is Commitish,
            },
    {
        let stage = match parse_diff_arg(arg) {
            Ok(d) => PageStage::DiffLhs { lhs_rev: d.0, rhs_rev: d.1, op: d.2 },
            Err(_) => PageStage::Commitish,
        };
        let branch = match branch {
            Some(b) => Some(b.clone()),
            None => None,
        };
        PageResolver {
            arg: String::from_str(arg),
            branch,
            repo_root: String::from_str(repo_root),
            stage,
        }
    }

    /// The revision the resolver waits on, `None` once a page or an error
    /// was settled.
    pub fn current_rev(&self) -> (r: Option<String>)
        ensures
            match self.stage {
                PageStage::DiffLhs { lhs_rev, .. } => r matches Some(rev) && rev@ == lhs_rev@,
                PageStage::DiffRhs { rhs_rev, .. } => r matches Some(rev) && rev@ == rhs_rev@,
                PageStage::Commitish => r matches Some(rev) && rev@ == self.arg@,
                PageStage::FileRev { .. } => r matches Some(rev) && rev@ == match self.branch {
                    Some(b) => b@,
                    None => "HEAD"@,
                },
                PageStage::Settled => r is None,
            },
    {
        match &self.stage {
            PageStage::DiffLhs { lhs_rev, .. } => Some(lhs_rev.clone()),
            PageStage::DiffRhs { rhs_rev, .. } => Some(rhs_rev.clone()),
            PageStage::Commitish => Some(self.arg.clone()),
            PageStage::FileRev { .. } => match &self.branch {
                Some(b) => Some(b.clone()),
                None => Some(String::from_str("HEAD")),
            },
            PageStage::Settled => None,
        }
    }

    /// Takes the hash the waited-on revision resolved to — or the failure
    /// of that lookup — and steps the attempt order: a failing revision
    /// ends a diff attempt with its error, turns the commit attempt into
    /// the file attempt, and ends the file attempt with its error; a file
    /// path that leaves the repository settles that error instead.
    pub fn advance(&mut self, outcome: Result<String, Error>) -> (r: Option<Result<Page, Error>>)
        requires
            !(old(self).stage is Settled),
        ensures
            final(self).arg == old(self).arg,
            final(self).branch == old(self).branch,
            final(self).repo_root == old(self).repo_root,
            match old(self).stage {
                PageStage::DiffLhs { lhs_rev, rhs_rev, op } => match outcome {
                    Ok(h) => r is None && (final(self).stage matches PageStage::DiffRhs {
                        lhs_hash,
                        rhs_rev: rr,
                        op: o,
                    } && lhs_hash == h && rr == rhs_rev && o == op),
                    Err(e) => r == Some(Err::<Page, Error>(e)) && final(self).stage is Settled,
                },
                PageStage::DiffRhs { lhs_hash, rhs_rev, op } => match outcome {
                    Ok(h) => r == Some(
                        Ok::<Page, Error>(Page::Diff { lhs: lhs_hash, rhs: h, op }),
                    ) && final(self).stage is Settled,
                    Err(e) => r == Some(Err::<Page, Error>(e)) && final(self).stage is Settled,
                },
                PageStage::Commitish => match outcome {
                    Ok(h) => r == Some(Ok::<Page, Error>(Page::Commit { hash: h }))
                        && final(self).stage is Settled,
                    Err(_) => {
                        let (path, line) = spec_parse_file(old(self).arg@);
                        if spec_path_escapes(path) {
                            &&& r matches Some(res)
                            &&& res matches Err(e)
                            &&& e matches Error::FileDirNotInRepo { repo_root, path: p }
                            &&& repo_root@ == old(self).repo_root@
                            &&& p@ == path
                            &&& final(self).stage is Settled
                        } else {
                            &&& r is None
                            &&& final(self).stage matches PageStage::FileRev {
                                relative_path,
                                line: l,
                            }
                            &&& relative_path@ == path
                            &&& l == line
                        }
                    },
                },
                PageStage::FileRev { relative_path, line } => match outcome {
                    Ok(h) => r == Some(
                        Ok::<Page, Error>(Page::FileOrDir { relative_path, hash: h, line }),
                    ) && final(self).stage is Settled,
                    Err(e) => r == Some(Err::<Page, Error>(e)) && final(self).stage is Settled,
                },
                PageStage::Settled => false,
            },
    {
        let (next, result): (PageStage, Option<Result<Page, Error>>) = match (&self.stage, outcome)
        {
            (PageStage::DiffLhs { lhs_rev: _, rhs_rev, op }, Ok(h)) => (
                PageStage::DiffRhs { lhs_hash: h, rhs_rev: rhs_rev.clone(), op: *op },
                None,
            ),
            (PageStage::DiffLhs { .. }, Err(e)) => (PageStage::Settled, Some(Err(e))),
            (PageStage::DiffRhs { lhs_hash, rhs_rev: _, op }, Ok(h)) => (
                PageStage::Settled,
                Some(Ok(Page::Diff { lhs: lhs_hash.clone(), rhs: h, op: *op })),
            ),
            (PageStage::DiffRhs { .. }, Err(e)) => (PageStage::Settled, Some(Err(e))),
            (PageStage::Commitish, Ok(h)) => (
                PageStage::Settled,
                Some(Ok(Page::Commit { hash: h })),
            ),
            (PageStage::Commitish, Err(_)) => {
                let (relative_path, line) = parse_file_arg(self.arg.as_str());
                if path_stays_inside(relative_path.as_str()) {
                    (PageStage::FileRev { relative_path, line }, None)
                } else {
                    (
                        PageStage::Settled,
                        Some(
                            Err(
                                Error::FileDirNotInRepo {
                                    repo_root: self.repo_root.clone(),
                                    path: relative_path,
                                },
                            ),
                        ),
                    )
                }
            },
            (PageStage::FileRev { relative_path, line }, Ok(h)) => (
                PageStage::Settled,
                Some(
                    Ok(Page::FileOrDir { relative_path: relative_path.clone(), hash: h, line: *line }),
                ),
            ),
            (PageStage::FileRev { .. }, Err(e)) => (PageStage::Settled, Some(Err(e))),
            (PageStage::Settled, _) => {
                proof {
                    assert(false);
                }
                (PageStage::Settled, None)
            },
        };
        self.stage = next;
        result
    }
}

/// True when `p` points outside the repository: an absolute path, or one
/// with a `..` segment.
pub open spec fn spec_path_escapes(p: Seq<char>) -> bool {
    (p.len() > 0 && p[0] == '/') || exists|i: int|
        0 <= i < spec_segments(p).len() && spec_segments(p)[i] == ".."@
}

/// Whether the relative path `p` stays inside the repository root.
pub fn path_stays_inside(p: &str) -> (r: bool)
    ensures
        r == !spec_path_escapes(p@),
{
    let m = p.unicode_len();
    if m > 0 && p.get_char(0) == '/' {
        return false;
    }
    let segs = split_segments(p);
    let n = segs.len();
    let mut i: usize = 0;
    while i < n
        invariant
            i <= n,
            n == segs@.len(),
            segs.deep_view() == spec_segments(p@),
            forall|j: int| 0 <= j < i ==> segs.deep_view()[j] != ".."@,
        decreases n - i,
    {
        if str_eq(segs[i].as_str(), "..") {
            proof {
                assert(spec_segments(p@)[i as int] == ".."@);
            }
            return false;
        }
        i += 1;
    }
    true
}

} // verus!
