//! Terminal and filesystem access, abstracted behind a trait.
//!
//! The library never touches the terminal or the disk itself: every such step
//! goes through an implementation of [`InputOutputHelper`] supplied by the
//! embedder. Each call is recorded in the implementation's ghost event log, so
//! the orchestration contracts can state which files were read or written,
//! which directories were created or removed, and in which order.

use vstd::prelude::*;

verus! {

/// The ghost log of terminal and filesystem calls.
pub type IoEventLog = Seq<IoOp>;

/// One call into the terminal or the filesystem, with its outcome.
pub enum IoOp {
    /// A line printed on standard output.
    OutLine(Seq<char>),
    /// Text printed on standard output without a line feed.
    OutText(Seq<char>),
    /// A line printed on standard error.
    ErrLine(Seq<char>),
    /// A line read from standard input.
    LineRead(Seq<char>),
    /// A file written: path, contents, and whether the write succeeded.
    WriteFile(Seq<char>, Seq<char>, bool),
    /// An existence query: path and its answer.
    QueryExists(Seq<char>, bool),
    /// A file read: path, and its contents when the read succeeded.
    ReadFile(Seq<char>, Option<Seq<char>>),
    /// A directory listing: directory, pattern, and the matching paths.
    ListDir(Seq<char>, Seq<char>, Option<Seq<Seq<char>>>),
    /// A directory tree created: path and whether it succeeded.
    MakeDir(Seq<char>, bool),
    /// A directory tree removed: path and whether it succeeded.
    RemoveDir(Seq<char>, bool),
    /// A file hardlinked or copied: source, target, success.
    CopyFile(Seq<char>, Seq<char>, bool),
}

/// Terminal and filesystem access.
///
/// The embedder implements this trait (the shipped implementation performs
/// real I/O; the tests supply an in-memory one). Verified code relies only on
/// what the contracts below state: each method appends exactly one event that
/// records its arguments and its outcome. What an operation returns is decided
/// by the outside world, so no contract promises success.
pub trait InputOutputHelper {
    /// The calls made through this helper so far, oldest first.
    spec fn events(&self) -> Seq<IoOp>;

    /// Print a line with line feed.
    fn println(&mut self, expr: &str)
        ensures
            final(self).events() == old(self).events().push(IoOp::OutLine(expr@)),
    ;

    /// Print a string.
    fn print(&mut self, expr: &str)
        ensures
            final(self).events() == old(self).events().push(IoOp::OutText(expr@)),
    ;

    /// Print a line with line feed on stderr.
    fn eprintln(&mut self, expr: &str)
        ensures
            final(self).events() == old(self).events().push(IoOp::ErrLine(expr@)),
    ;

    /// Read a line.
    fn read_line(&mut self) -> (r: String)
        ensures
            final(self).events() == old(self).events().push(IoOp::LineRead(r@)),
    ;

    /// Write a file.
    fn file_write(&mut self, path: &str, contents: &str) -> (r: Result<(), String>)
        ensures
            final(self).events() == old(self).events().push(
                IoOp::WriteFile(path@, contents@, r is Ok),
            ),
    ;

    /// Check if a file exists.
    fn file_exits(&mut self, filename: &str) -> (r: bool)
        ensures
            final(self).events() == old(self).events().push(IoOp::QueryExists(filename@, r)),
    ;

    /// Read a file into a string.
    fn file_read_at_string(&mut self, filename: &str) -> (r: Result<String, String>)
        ensures
            final(self).events() == old(self).events().push(
                IoOp::ReadFile(
                    filename@,
                    match r {
                        Ok(data) => Some(data@),
                        Err(_) => None,
                    },
                ),
            ),
    ;

    /// List the files of a folder that match a pattern.
    fn dir_list_file(&mut self, dir: &str, pattern: &str) -> (r: Result<Vec<String>, String>)
        ensures
            final(self).events() == old(self).events().push(
                IoOp::ListDir(
                    dir@,
                    pattern@,
                    match r {
                        Ok(files) => Some(files.deep_view()),
                        Err(_) => None,
                    },
                ),
            ),
    ;

    /// Create a directory and its parents.
    fn create_dir_all(&mut self, dir: &str) -> (r: Result<(), String>)
        ensures
            final(self).events() == old(self).events().push(IoOp::MakeDir(dir@, r is Ok)),
    ;

    /// Remove a directory tree.
    fn remove_dir_all(&mut self, dir: &str) -> (r: Result<(), String>)
        ensures
            final(self).events() == old(self).events().push(IoOp::RemoveDir(dir@, r is Ok)),
    ;

    /// Create a hard link, or copy the file when linking fails.
    fn hardlink_or_copy_file(&mut self, from: &str, to: &str) -> (r: Result<(), String>)
        ensures
            final(self).events() == old(self).events().push(IoOp::CopyFile(from@, to@, r is Ok)),
    ;
}

/// Relies on dirs::home_dir: the current user's home directory, if any.
/// The answer comes from the environment, so nothing is promised of it.
#[verifier::external_body]
pub(crate) fn home_dir_string() -> Option<String> {
    match dirs::home_dir() {
        Some(p) => match p.to_str() {
            Some(s) => Some(s.to_string()),
            None => None,
        },
        None => None,
    }
}

/// `x` with a leading `~/` replaced by the home directory, when one is known.
pub open spec fn spec_convert_path(home: Option<Seq<char>>, x: Seq<char>) -> Seq<char> {
    if crate::strutil::spec_starts_with(x, seq!['~', '/']) && home is Some {
        home->0 + x.skip(1)
    } else {
        x
    }
}

/// Replaces a leading `~/` in `x` by the given home directory.
pub fn convert_path_with(home: &Option<String>, x: &str) -> (r: String)
    ensures
        r@ == spec_convert_path(
            match home {
                Some(h) => Some(h@),
                None => None,
            },
            x@,
        ),
{
    proof {
        reveal_strlit("~/");
    }
    if crate::strutil::str_starts_with(x, "~/") {
        if let Some(h) = home {
            let n = x.unicode_len();
            let rest = x.substring_char(1, n);
            let r = crate::strutil::scat2(h.as_str(), rest);
            proof {
                assert("~/"@ =~= seq!['~', '/']);
                assert(rest@ =~= x@.skip(1));
            }
            return r;
        }
    }
    let mut r = String::new();
    r.append(x);
    proof {
        assert("~/"@ =~= seq!['~', '/']);
        assert(r@ =~= x@);
    }
    r
}

/// Replaces a leading `~/` in `x` by the home directory of the environment.
pub fn convert_path(x: &str) -> (r: String)
    ensures
        exists|h: Option<Seq<char>>| r@ == spec_convert_path(h, x@),
{
    let home = home_dir_string();
    let r = convert_path_with(&home, x);
    proof {
        let hv = match home {
            Some(h) => Some(h@),
            None => None,
        };
        assert(r@ == spec_convert_path(hv, x@));
    }
    r
}

/// Whether an event writes a line to standard output.
pub open spec fn is_out_line(op: IoOp) -> bool {
    op is OutLine
}

/// The lines printed on standard output within `evs`, in order.
pub open spec fn out_lines(evs: Seq<IoOp>) -> Seq<Seq<char>> {
    evs.filter(|op: IoOp| is_out_line(op)).map_values(
        |op: IoOp|
            match op {
                IoOp::OutLine(s) => s,
                _ => Seq::empty(),
            },
    )
}

/// Printing one line appends it to the projection of printed lines.
pub proof fn lemma_out_lines_push_line(evs: Seq<IoOp>, s: Seq<char>)
    ensures
        out_lines(evs.push(IoOp::OutLine(s))) == out_lines(evs).push(s),
{
    reveal(Seq::filter);
    let p = |op: IoOp| is_out_line(op);
    let e = evs.push(IoOp::OutLine(s));
    assert(e.drop_last() =~= evs);
    assert(e.filter(p) =~= evs.filter(p).push(IoOp::OutLine(s)));
    assert(out_lines(e) =~= out_lines(evs).push(s));
}

/// An event that prints no line leaves the projection of printed lines as it was.
pub proof fn lemma_out_lines_push_other(evs: Seq<IoOp>, op: IoOp)
    requires
        !is_out_line(op),
    ensures
        out_lines(evs.push(op)) == out_lines(evs),
{
    reveal(Seq::filter);
    let p = |q: IoOp| is_out_line(q);
    let e = evs.push(op);
    assert(e.drop_last() =~= evs);
    assert(e.filter(p) =~= evs.filter(p));
    assert(out_lines(e) =~= out_lines(evs));
}

/// Appending a run of events multiplies out along the projection.
pub proof fn lemma_out_lines_unchanged_range(a: Seq<IoOp>, b: Seq<IoOp>)
    requires
        a.len() <= b.len(),
        b.take(a.len() as int) == a,
        forall|i: int| a.len() <= i < b.len() ==> !is_out_line(#[trigger] b[i]),
    ensures
        out_lines(b) == out_lines(a),
    decreases b.len() - a.len(),
{
    if b.len() > a.len() {
        let c = b.drop_last();
        assert(c.take(a.len() as int) =~= a);
        lemma_out_lines_unchanged_range(a, c);
        assert(b =~= c.push(b.last()));
        lemma_out_lines_push_other(c, b.last());
    } else {
        assert(b =~= a);
    }
}

} // verus!

use vstd::prelude::*;

verus! {

/// Whether an event reads a file.
pub open spec fn is_file_read(op: IoOp) -> bool {
    op is ReadFile
}

/// The paths of the file reads within `evs`, in order.
pub open spec fn read_paths(evs: Seq<IoOp>) -> Seq<Seq<char>> {
    evs.filter(|op: IoOp| is_file_read(op)).map_values(
        |op: IoOp|
            match op {
                IoOp::ReadFile(p, _) => p,
                _ => Seq::empty(),
            },
    )
}

/// Reading a file appends its path to the projection of read paths.
pub proof fn lemma_read_paths_push_read(evs: Seq<IoOp>, p: Seq<char>, c: Option<Seq<char>>)
    ensures
        read_paths(evs.push(IoOp::ReadFile(p, c))) == read_paths(evs).push(p),
{
    reveal(Seq::filter);
    let pr = |op: IoOp| is_file_read(op);
    let e = evs.push(IoOp::ReadFile(p, c));
    assert(e.drop_last() =~= evs);
    assert(e.filter(pr) =~= evs.filter(pr).push(IoOp::ReadFile(p, c)));
    assert(read_paths(e) =~= read_paths(evs).push(p));
}

/// An event that reads no file leaves the projection of read paths as it was.
pub proof fn lemma_read_paths_push_other(evs: Seq<IoOp>, op: IoOp)
    requires
        !is_file_read(op),
    ensures
        read_paths(evs.push(op)) == read_paths(evs),
{
    reveal(Seq::filter);
    let pr = |q: IoOp| is_file_read(q);
    let e = evs.push(op);
    assert(e.drop_last() =~= evs);
    assert(e.filter(pr) =~= evs.filter(pr));
    assert(read_paths(e) =~= read_paths(evs));
}

} // verus!

use crate::strutil::seq_extends;

verus! {

/// Whether `e` extends `o` without printing any line on standard output.
pub open spec fn no_out_lines_added(o: Seq<IoOp>, e: Seq<IoOp>) -> bool {
    seq_extends(o, e) && forall|i: int| o.len() <= i < e.len() ==> !is_out_line(#[trigger] e[i])
}

pub proof fn lemma_no_out_refl(a: Seq<IoOp>)
    ensures
        no_out_lines_added(a, a),
{
    crate::strutil::lemma_seq_extends_refl(a);
}

pub proof fn lemma_no_out_push(o: Seq<IoOp>, e: Seq<IoOp>, x: IoOp)
    requires
        no_out_lines_added(o, e),
        !is_out_line(x),
    ensures
        no_out_lines_added(o, e.push(x)),
{
    crate::strutil::lemma_seq_extends_push(o, e, x);
}

pub proof fn lemma_no_out_trans(a: Seq<IoOp>, b: Seq<IoOp>, c: Seq<IoOp>)
    requires
        no_out_lines_added(a, b),
        no_out_lines_added(b, c),
    ensures
        no_out_lines_added(a, c),
{
    crate::strutil::lemma_seq_extends_trans(a, b, c);
    assert forall|i: int| a.len() <= i < c.len() implies !is_out_line(#[trigger] c[i]) by {
        if i < b.len() {
            assert(c.take(b.len() as int)[i] == c[i]);
            assert(b[i] == c[i]);
        }
    }
}

/// A run that prints no line leaves the projection of printed lines as it was.
pub proof fn lemma_no_out_keeps_out_lines(o: Seq<IoOp>, e: Seq<IoOp>)
    requires
        no_out_lines_added(o, e),
    ensures
        out_lines(e) == out_lines(o),
{
    lemma_out_lines_unchanged_range(o, e);
}

} // verus!

verus! {

/// The contents answered by the file reads within `evs`, in order,
/// aligned with [`read_paths`].
pub open spec fn read_contents(evs: Seq<IoOp>) -> Seq<Option<Seq<char>>> {
    evs.filter(|op: IoOp| is_file_read(op)).map_values(
        |op: IoOp|
            match op {
                IoOp::ReadFile(_, c) => c,
                _ => None,
            },
    )
}

/// Reading a file appends its answer to the projection of read contents.
pub proof fn lemma_read_contents_push_read(evs: Seq<IoOp>, p: Seq<char>, c: Option<Seq<char>>)
    ensures
        read_contents(evs.push(IoOp::ReadFile(p, c))) == read_contents(evs).push(c),
{
    reveal(Seq::filter);
    let pr = |op: IoOp| is_file_read(op);
    let e = evs.push(IoOp::ReadFile(p, c));
    assert(e.drop_last() =~= evs);
    assert(e.filter(pr) =~= evs.filter(pr).push(IoOp::ReadFile(p, c)));
    assert(read_contents(e) =~= read_contents(evs).push(c));
}

/// An event that reads no file leaves the projection of read contents as it
/// was.
pub proof fn lemma_read_contents_push_other(evs: Seq<IoOp>, op: IoOp)
    requires
        !is_file_read(op),
    ensures
        read_contents(evs.push(op)) == read_contents(evs),
{
    reveal(Seq::filter);
    let pr = |q: IoOp| is_file_read(q);
    let e = evs.push(op);
    assert(e.drop_last() =~= evs);
    assert(e.filter(pr) =~= evs.filter(pr));
    assert(read_contents(e) =~= read_contents(evs));
}

} // verus!
