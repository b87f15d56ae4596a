//! SPARQL statements: a prefix block followed by the statement body.

use vstd::prelude::*;
use vstd::string::*;
use crate::error::Error;
use crate::prefixes::{render, Prefixes};
use crate::text::{trim, trim_end, trim_end_spec, trim_spec};

verus! {

/// The text sent over the wire: the prefix block, a line break, and the
/// trimmed body.
pub open spec fn statement_text(prefixes: Seq<(Seq<char>, Seq<char>)>, body: Seq<char>) -> Seq<char> {
    render(prefixes) + "\n"@ + trim_spec(body)
}

/// A SPARQL statement with its prefixes declared in front of it.
#[derive(Debug)]
pub struct Statement {
    prefixes: Prefixes,
    text: String,
}

impl View for Statement {
    type V = Seq<char>;

    closed spec fn view(&self) -> Seq<char> {
        self.text@
    }
}

impl Statement {
    /// The prefixes declared in front of the body.
    pub closed spec fn prefixes_spec(&self) -> Seq<(Seq<char>, Seq<char>)> {
        self.prefixes@
    }

    /// Composes a statement from its prefixes and its body.
    pub fn new(prefixes: &Prefixes, statement: &str) -> (r: Result<Statement, Error>)
        requires
            prefixes.wf(),
        ensures
            r matches Ok(s) && s@ == statement_text(prefixes@, statement@) && s.prefixes_spec()
                == prefixes@,
    {
        let text = prefixes.to_string().concat("\n").concat(trim(statement).as_str());
        Ok(Statement { prefixes: prefixes.clone_prefixes(), text })
    }

    /// The full text of the statement.
    pub fn as_str(&self) -> (r: &str)
        ensures
            r@ == self@,
    {
        self.text.as_str()
    }

    /// The text with `#` comments removed, for diagnostics.
    pub fn no_comments(&self) -> (r: String)
        ensures
            r@ == no_comments_spec(self@),
    {
        no_comments(self.text.as_str())
    }
}

/// `i` holds a `#` that starts a comment: one not followed by `>`, which
/// would close an IRI such as `<http://example.org/ns#>`.
pub open spec fn is_comment_mark(s: Seq<char>, i: int) -> bool {
    0 <= i < s.len() && s[i] == '#' && !(i + 1 < s.len() && s[i + 1] == '>')
}

/// The text holds no line break.
pub open spec fn no_line_break(s: Seq<char>) -> bool {
    forall|j: int| 0 <= j < s.len() ==> s[j] != '\n'
}

/// What the comment pattern `(.*)(?!#>)#.*$` captures in a line, as the
/// regex engine reports it.
pub uninterp spec fn comment_capture(line: Seq<char>) -> Option<Seq<char>>;

/// The comment pattern: the text in front of a `#` that is not followed by `>`.
pub const COMMENT_PATTERN: &'static str = "(.*)(?!#>)#.*$";

/// Relies on `fancy_regex::Regex::new` and `Regex::captures` with the
/// comment pattern, whose first group is returned. A match captures the text
/// in front of the last comment mark, since `.*` is greedy and `.` matches
/// every character of a line; a line without a mark has no match. The engine
/// may give up on a line (its backtrack limit), which is reported as no match.
#[verifier::external_body]
fn capture_before_comment(pattern: &str, line: &str) -> (r: Option<String>)
    requires
        pattern@ == COMMENT_PATTERN@,
        no_line_break(line@),
    ensures
        r matches Some(p) ==> Some(p@) == comment_capture(line@),
        r is None ==> comment_capture(line@) is None,
        r matches Some(p) ==> exists|i: int|
            is_comment_mark(line@, i) && p@ == line@.take(i) && forall|j: int|
                i < j < line@.len() ==> !#[trigger] is_comment_mark(line@, j),
        (forall|i: int| !#[trigger] is_comment_mark(line@, i)) ==> r is None,
{
    match fancy_regex::Regex::new(pattern) {
        Ok(re) => match re.captures(line) {
            Ok(Some(caps)) => caps.get(1).map(|m| m.as_str().to_string()),
            _ => None,
        },
        Err(_) => None,
    }
}

/// A line with its comments removed: the text in front of a comment mark,
/// trimmed at the end, until no mark is found.
pub open spec fn strip_line_spec(line: Seq<char>) -> Seq<char>
    decreases line.len(),
{
    match comment_capture(line) {
        Some(p) => if trim_end_spec(p).len() < line.len() {
            strip_line_spec(trim_end_spec(p))
        } else {
            trim_end_spec(p)
        },
        None => trim_end_spec(line),
    }
}

proof fn lemma_trim_end_prefix(s: Seq<char>)
    ensures
        trim_end_spec(s).len() <= s.len(),
        trim_end_spec(s) =~= s.take(trim_end_spec(s).len() as int),
    decreases s.len(),
{
    if s.len() > 0 && crate::text::is_ws(s.last()) {
        lemma_trim_end_prefix(s.drop_last());
        assert(s.drop_last().take(trim_end_spec(s).len() as int) =~= s.take(
            trim_end_spec(s).len() as int,
        ));
    }
}

fn strip_line(line: &str) -> (r: String)
    requires
        no_line_break(line@),
    ensures
        r@ == strip_line_spec(line@),
{
    let mut current = line.to_string();
    loop
        invariant
            strip_line_spec(current@) == strip_line_spec(line@),
            no_line_break(current@),
        decreases current@.len(),
    {
        match capture_before_comment(COMMENT_PATTERN, current.as_str()) {
            Some(p) => {
                let t = trim_end(p.as_str());
                proof {
                    lemma_trim_end_prefix(p@);
                    assert forall|j: int| 0 <= j < t@.len() implies t@[j] != '\n' by {
                        assert(t@[j] == p@[j]);
                        let i = choose|i: int|
                            is_comment_mark(current@, i) && p@ == current@.take(i) && forall|
                                j: int,
                            | i < j < current@.len() ==> !#[trigger] is_comment_mark(current@, j);
                        assert(p@[j] == current@[j]);
                    }
                }
                current = t;
            },
            None => {
                return trim_end(current.as_str());
            },
        }
    }
}

/// The position of the first line break, or the length when there is none.
pub open spec fn first_newline(s: Seq<char>) -> int
    decreases s.len(),
{
    if s.len() == 0 {
        0
    } else if s[0] == '\n' {
        0
    } else {
        1 + first_newline(s.subrange(1, s.len() as int))
    }
}

/// The lines of a text: split at line breaks, with no empty line after a
/// final break.
pub open spec fn split_lines(s: Seq<char>) -> Seq<Seq<char>>
    decreases s.len(),
{
    if s.len() == 0 {
        Seq::empty()
    } else {
        let k = first_newline(s);
        if 0 <= k < s.len() {
            seq![s.take(k)] + split_lines(s.subrange(k + 1, s.len() as int))
        } else {
            seq![s]
        }
    }
}

/// Each line without its comments, followed by a line break.
pub open spec fn render_stripped(lines: Seq<Seq<char>>) -> Seq<char>
    decreases lines.len(),
{
    if lines.len() == 0 {
        Seq::empty()
    } else {
        strip_line_spec(lines[0]) + "\n"@ + render_stripped(lines.subrange(1, lines.len() as int))
    }
}

/// A text with the comments of every line removed.
pub open spec fn no_comments_spec(s: Seq<char>) -> Seq<char> {
    render_stripped(split_lines(s))
}

proof fn lemma_first_newline(s: Seq<char>, k: int)
    requires
        0 <= k <= s.len(),
        forall|j: int| 0 <= j < k ==> s[j] != '\n',
        k == s.len() || s[k] == '\n',
    ensures
        first_newline(s) == k,
    decreases k,
{
    if s.len() > 0 && s[0] != '\n' {
        let t = s.subrange(1, s.len() as int);
        assert forall|j: int| 0 <= j < k - 1 implies t[j] != '\n' by {
            assert(t[j] == s[j + 1]);
        }
        lemma_first_newline(t, k - 1);
    }
}

/// Removes `#` comments from every line of `string`, keeping a `#` that
/// closes an IRI, and trims the lines at the end.
pub fn no_comments(string: &str) -> (r: String)
    ensures
        r@ == no_comments_spec(string@),
{
    let n = string.unicode_len();
    let mut out = String::new();
    let mut start: usize = 0;
    assert(string@.subrange(0, n as int) =~= string@);
    while start < n
        invariant
            n == string@.len(),
            start <= n,
            out@ + render_stripped(split_lines(string@.subrange(start as int, n as int)))
                == no_comments_spec(string@),
        decreases n - start,
    {
        let mut k: usize = start;
        while k < n && string.get_char(k) != '\n'
            invariant
                n == string@.len(),
                start <= k <= n,
                forall|j: int| start <= j < k ==> string@[j] != '\n',
            decreases n - k,
        {
            k = k + 1;
        }
        let ghost rest = string@.subrange(start as int, n as int);
        proof {
            lemma_first_newline(rest, k - start);
            assert(rest.take(k - start) =~= string@.subrange(start as int, k as int));
            if k < n {
                assert(rest.subrange(k - start + 1, rest.len() as int) =~= string@.subrange(
                    k + 1,
                    n as int,
                ));
            }
        }
        let piece = string.substring_char(start, k);
        assert(no_line_break(piece@));
        let line = strip_line(piece);
        let ghost before = out@;
        out.append(line.as_str());
        out.append("\n");
        proof {
            let ls = split_lines(rest);
            let tail = if k < n {
                split_lines(string@.subrange(k + 1, n as int))
            } else {
                Seq::empty()
            };
            assert(ls =~= seq![string@.subrange(start as int, k as int)] + tail);
            assert(ls.subrange(1, ls.len() as int) =~= tail);
            assert(render_stripped(ls) == line@ + "\n"@ + render_stripped(tail));
            assert(out@ == before + line@ + "\n"@);
            if k == n {
                assert(string@.subrange(n as int, n as int) =~= Seq::<char>::empty());
            }
            assert(before + (line@ + "\n"@ + render_stripped(tail)) =~= out@ + render_stripped(tail));
        }
        if k < n {
            start = k + 1;
        } else {
            start = n;
        }
    }
    assert(string@.subrange(n as int, n as int) =~= Seq::<char>::empty());
    assert(out@ + Seq::<char>::empty() =~= out@);
    out
}

} // verus!
