//! A small line search utility.
//!
//! [`search`] returns the lines of a text that contain a query string;
//! [`search_case_insensitive`] does the same after case folding both sides.
//! [`Config`] carries the parsed command line of the surrounding program.
//! Reading the file to search and printing the matches stay with the caller;
//! the functions here work on the text alone.

use vstd::prelude::*;
use vstd::string::StrSliceExecFns;

verus! {

/// A line with its line terminator removed: a single trailing carriage
/// return is dropped, mirroring how `lines` treats a `"\r\n"` ending.
pub open spec fn strip_cr(l: Seq<char>) -> Seq<char> {
    if l.len() > 0 && l[l.len() - 1] == '\r' {
        l.drop_last()
    } else {
        l
    }
}

/// The lines of `s` from position `i` on, with `cur` the part of the
/// current line read so far: a newline ends the current line, and a last
/// line without a newline is kept.
pub open spec fn split_lines_from(s: Seq<char>, i: int, cur: Seq<char>) -> Seq<Seq<char>>
    decreases s.len() - i when 0 <= i <= s.len()
{
    if i >= s.len() {
        if cur.len() > 0 {
            seq![cur]
        } else {
            Seq::empty()
        }
    } else if s[i] == '\n' {
        seq![strip_cr(cur)] + split_lines_from(s, i + 1, Seq::empty())
    } else {
        split_lines_from(s, i + 1, cur.push(s[i]))
    }
}

/// The lines of a text, split at newlines, with `"\r\n"` endings treated
/// as line endings and the final line ending optional — the splitting that
/// `str::lines` performs.
pub open spec fn split_lines(s: Seq<char>) -> Seq<Seq<char>> {
    split_lines_from(s, 0, Seq::empty())
}

/// `needle` occurs in `hay` starting at position `i`.
pub open spec fn match_at(hay: Seq<char>, needle: Seq<char>, i: int) -> bool {
    0 <= i && i + needle.len() <= hay.len() && hay.subrange(i, i + needle.len()) == needle
}

/// `needle` occurs somewhere in `hay`. The empty needle occurs in every
/// text.
pub open spec fn has_substring(hay: Seq<char>, needle: Seq<char>) -> bool {
    exists|i: int| match_at(hay, needle, i)
}

/// Whether `needle` occurs at position `off` of `hay`, by comparing
/// character by character.
fn matches_at(hay: &str, needle: &str, off: usize) -> (r: bool)
    requires
        off + needle@.len() <= hay@.len(),
        hay@.len() <= usize::MAX,
    ensures
        r == (hay@.subrange(off as int, off + needle@.len()) == needle@),
{
    let n = needle.unicode_len();
    let mut j: usize = 0;
    while j < n
        invariant
            j <= n,
            n == needle@.len(),
            off + n <= hay@.len(),
            hay@.len() <= usize::MAX,
            forall|k: int| 0 <= k < j ==> hay@[off + k] == needle@[k],
        decreases n - j,
    {
        if hay.get_char(off + j) != needle.get_char(j) {
            proof {
                assert(hay@.subrange(off as int, off + needle@.len())[j as int] == hay@[off
                    + j]);
            }
            return false;
        }
        j += 1;
    }
    proof {
        assert(hay@.subrange(off as int, off + needle@.len()) =~= needle@);
    }
    true
}

/// Whether `needle` occurs anywhere in `hay`.
pub fn contains_str(hay: &str, needle: &str) -> (r: bool)
    ensures
        r == has_substring(hay@, needle@),
{
    let hn = hay.unicode_len();
    let nn = needle.unicode_len();
    if nn > hn {
        proof {
            assert(forall|i: int| !match_at(hay@, needle@, i));
        }
        return false;
    }
    if nn == 0 {
        proof {
            assert(hay@.subrange(0, 0) =~= needle@);
            assert(match_at(hay@, needle@, 0));
        }
        return true;
    }
    let mut i: usize = 0;
    while i <= hn - nn
        invariant
            hn == hay@.len(),
            nn == needle@.len(),
            0 < nn <= hn,
            i <= hn - nn + 1,
            forall|k: int| 0 <= k < i ==> !match_at(hay@, needle@, k),
        decreases hn - i,
    {
        if matches_at(hay, needle, i) {
            proof {
                assert(match_at(hay@, needle@, i as int));
            }
            return true;
        }
        i += 1;
    }
    proof {
        assert(forall|k: int| match_at(hay@, needle@, k) ==> 0 <= k < i);
    }
    false
}

/// The lines of `contents`, as subslices, in order.
fn lines<'a>(contents: &'a str) -> (r: Vec<&'a str>)
    ensures
        r.deep_view() == split_lines(contents@),
{
    let n = contents.unicode_len();
    let mut r: Vec<&'a str> = Vec::new();
    let mut start: usize = 0;
    let mut i: usize = 0;
    proof {
        assert(contents@.subrange(0, 0) =~= Seq::<char>::empty());
        assert(r.deep_view() + split_lines_from(contents@, 0, Seq::<char>::empty())
            =~= split_lines_from(contents@, 0, Seq::<char>::empty()));
    }
    while i < n
        invariant
            start <= i <= n,
            n == contents@.len(),
            split_lines(contents@) == r.deep_view() + split_lines_from(
                contents@,
                i as int,
                contents@.subrange(start as int, i as int),
            ),
        decreases n - i,
    {
        let ghost cur = contents@.subrange(start as int, i as int);
        let c = contents.get_char(i);
        if c == '\n' {
            let line = if i > start && contents.get_char(i - 1) == '\r' {
                contents.substring_char(start, i - 1)
            } else {
                contents.substring_char(start, i)
            };
            let ghost sofar = r.deep_view();
            proof {
                assert(line@ =~= strip_cr(cur));
            }
            r.push(line);
            start = i + 1;
            proof {
                assert(r.deep_view() =~= sofar + seq![strip_cr(cur)]);
                assert(split_lines_from(contents@, i as int, cur) == seq![strip_cr(cur)]
                    + split_lines_from(contents@, i + 1, Seq::<char>::empty()));
                assert(contents@.subrange(start as int, i + 1) =~= Seq::<char>::empty());
            }
        } else {
            proof {
                assert(contents@.subrange(start as int, i + 1) =~= cur.push(contents@[i as int]));
            }
        }
        i += 1;
    }
    let ghost cur = contents@.subrange(start as int, n as int);
    if start < n {
        let line = contents.substring_char(start, n);
        let ghost sofar = r.deep_view();
        proof {
            assert(line@ =~= cur);
        }
        r.push(line);
        proof {
            assert(r.deep_view() =~= sofar + seq![cur]);
        }
    } else {
        proof {
            assert(cur.len() == 0);
            assert(r.deep_view() + split_lines_from(contents@, n as int, cur) =~= r.deep_view());
        }
    }
    r
}

/// Filtering the first `k + 1` elements keeps the filtered first `k` and
/// appends the element at `k` exactly when it satisfies the predicate.
proof fn lemma_filter_take_step(s: Seq<Seq<char>>, p: spec_fn(Seq<char>) -> bool, k: int)
    requires
        0 <= k < s.len(),
    ensures
        s.take(k + 1).filter(p) == if p(s[k]) {
            s.take(k).filter(p).push(s[k])
        } else {
            s.take(k).filter(p)
        },
{
    reveal_with_fuel(Seq::<_>::filter, 2);
    let t = s.take(k + 1);
    assert(t.drop_last() =~= s.take(k));
    assert(t.last() == s[k]);
}

/// The case folding performed by `str::to_lowercase`; it depends on the
/// characters of the input alone.
pub uninterp spec fn lower_of(s: Seq<char>) -> Seq<char>;

/// Relies on `str::to_lowercase` for Unicode-aware case folding.
#[verifier::external_body]
fn lowercase(s: &str) -> (r: String)
    ensures
        r@ == lower_of(s@),
{
    s.to_lowercase()
}

/// The lines of `contents` that contain `query`, in order.
pub fn search<'a>(query: &str, contents: &'a str) -> (r: Vec<&'a str>)
    ensures
        r.deep_view() == split_lines(contents@).filter(
            |l: Seq<char>| has_substring(l, query@),
        ),
{
    let ghost p = |l: Seq<char>| has_substring(l, query@);
    let ghost all = split_lines(contents@);
    let ls = lines(contents);
    let mut out: Vec<&'a str> = Vec::new();
    let mut k: usize = 0;
    proof {
        assert(all.take(0).filter(p) =~= Seq::<Seq<char>>::empty().filter(p));
        assert(out.deep_view() =~= all.take(0).filter(p));
    }
    while k < ls.len()
        invariant
            ls.deep_view() == all,
            all == split_lines(contents@),
            p == (|l: Seq<char>| has_substring(l, query@)),
            k <= ls.len(),
            out.deep_view() == all.take(k as int).filter(p),
        decreases ls.len() - k,
    {
        let line = ls[k];
        proof {
            assert(line@ == all[k as int]);
            lemma_filter_take_step(all, p, k as int);
        }
        let ghost sofar = out.deep_view();
        if contains_str(line, query) {
            out.push(line);
            proof {
                assert(out.deep_view() =~= sofar.push(line@));
            }
        }
        k += 1;
    }
    proof {
        assert(all.take(ls.len() as int) =~= all);
    }
    out
}

/// The lines of `contents` that contain `query` after both are case
/// folded, in order. The lines are returned as they stand in `contents`,
/// not folded.
pub fn search_case_insensitive<'a>(query: &str, contents: &'a str) -> (r: Vec<&'a str>)
    ensures
        r.deep_view() == split_lines(contents@).filter(
            |l: Seq<char>| has_substring(lower_of(l), lower_of(query@)),
        ),
{
    let ghost p = |l: Seq<char>| has_substring(lower_of(l), lower_of(query@));
    let ghost all = split_lines(contents@);
    let lower_query = lowercase(query);
    let ls = lines(contents);
    let mut out: Vec<&'a str> = Vec::new();
    let mut k: usize = 0;
    proof {
        assert(all.take(0).filter(p) =~= Seq::<Seq<char>>::empty().filter(p));
        assert(out.deep_view() =~= all.take(0).filter(p));
    }
    while k < ls.len()
        invariant
            ls.deep_view() == all,
            all == split_lines(contents@),
            p == (|l: Seq<char>| has_substring(lower_of(l), lower_of(query@))),
            lower_query@ == lower_of(query@),
            k <= ls.len(),
            out.deep_view() == all.take(k as int).filter(p),
        decreases ls.len() - k,
    {
        let line = ls[k];
        proof {
            assert(line@ == all[k as int]);
            lemma_filter_take_step(all, p, k as int);
        }
        let lower_line = lowercase(line);
        let ghost sofar = out.deep_view();
        if contains_str(lower_line.as_str(), lower_query.as_str()) {
            out.push(line);
            proof {
                assert(out.deep_view() =~= sofar.push(line@));
            }
        }
        k += 1;
    }
    proof {
        assert(all.take(ls.len() as int) =~= all);
    }
    out
}

/// The parsed command line of the search program: what to look for, where,
/// and whether case matters.
#[derive(Debug)]
pub struct Config {
    pub query: String,
    pub filename: String,
    pub case_sensitive: bool,
}

impl Config {
    /// Builds a `Config` from the argument list of the program. The first
    /// argument is the program name and is skipped; the next two are the
    /// query and the file name, and anything further is ignored. The search
    /// starts out case sensitive; the caller may override the flag, for
    /// instance from an environment variable.
    pub fn new(args: Vec<String>) -> (r: Result<Config, &'static str>)
        ensures
            args@.len() >= 3 ==> (r matches Ok(c) && c.query@ == args@[1]@ && c.filename@
                == args@[2]@ && c.case_sensitive),
            args@.len() < 2 ==> (r matches Err(m) && m@ == "Didn't get a query string"@),
            args@.len() == 2 ==> (r matches Err(m) && m@ == "Didn't get a file name"@),
    {
        if args.len() < 2 {
            return Err("Didn't get a query string");
        }
        if args.len() < 3 {
            return Err("Didn't get a file name");
        }
        let query = args[1].clone();
        let filename = args[2].clone();
        Ok(Config { query, filename, case_sensitive: true })
    }
}

/// The search that the configuration asks for: case sensitive or case
/// insensitive, over the lines of `contents`. The caller reads the file
/// beforehand and prints the returned lines afterwards.
pub fn run<'a>(config: &Config, contents: &'a str) -> (r: Vec<&'a str>)
    ensures
        config.case_sensitive ==> r.deep_view() == split_lines(contents@).filter(
            |l: Seq<char>| has_substring(l, config.query@),
        ),
        !config.case_sensitive ==> r.deep_view() == split_lines(contents@).filter(
            |l: Seq<char>| has_substring(lower_of(l), lower_of(config.query@)),
        ),
{
    if config.case_sensitive {
        search(config.query.as_str(), contents)
    } else {
        search_case_insensitive(config.query.as_str(), contents)
    }
}

} // verus!
