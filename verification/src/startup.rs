//! The message reported when the server did not become ready, with the tail
//! of its startup log.

use vstd::prelude::*;

verus! {

/// How many lines of the startup log a failure report quotes at most.
pub const LOG_TAIL_LINES: usize = 12;

/// The positions of the line feeds in `s`, in increasing order.
pub open spec fn newline_positions(s: Seq<char>) -> Seq<int>
    decreases s.len(),
{
    if s.len() == 0 {
        seq![]
    } else if s.last() == '\n' {
        newline_positions(s.drop_last()).push(s.len() - 1)
    } else {
        newline_positions(s.drop_last())
    }
}

/// A line that ended in a line feed loses a carriage return before it.
pub open spec fn strip_cr(line: Seq<char>) -> Seq<char> {
    if line.len() > 0 && line.last() == '\r' {
        line.drop_last()
    } else {
        line
    }
}

/// How many lines `s` holds: a line feed ends a line, and a last line
/// without one counts too.
pub open spec fn line_count(s: Seq<char>) -> nat {
    if s.len() == 0 {
        0
    } else if s.last() == '\n' {
        newline_positions(s).len()
    } else {
        newline_positions(s).len() + 1
    }
}

/// Where line `k` of `s` starts.
pub open spec fn line_start(s: Seq<char>, k: int) -> int {
    if k == 0 {
        0
    } else {
        newline_positions(s)[k - 1] + 1
    }
}

/// Line `k` of `s`, without its line ending (`\n` or `\r\n`).
pub open spec fn line_at(s: Seq<char>, k: int) -> Seq<char> {
    let p = newline_positions(s);
    if k < p.len() {
        strip_cr(s.subrange(line_start(s, k), p[k]))
    } else {
        s.subrange(line_start(s, k), s.len() as int)
    }
}

/// The lines of `s`, as `str::lines` yields them.
pub open spec fn text_lines(s: Seq<char>) -> Seq<Seq<char>> {
    Seq::new(line_count(s), |k: int| line_at(s, k))
}

/// The lines joined, with `sep` between two of them.
pub open spec fn join_lines(lines: Seq<Seq<char>>, sep: Seq<char>) -> Seq<char>
    decreases lines.len(),
{
    if lines.len() == 0 {
        seq![]
    } else if lines.len() == 1 {
        lines[0]
    } else {
        join_lines(lines.drop_last(), sep) + sep + lines.last()
    }
}

/// The last (at most [`LOG_TAIL_LINES`]) lines of `s`, in their order.
pub open spec fn tail_lines(s: Seq<char>) -> Seq<Seq<char>> {
    let lines = text_lines(s);
    if lines.len() <= LOG_TAIL_LINES {
        lines
    } else {
        lines.skip(lines.len() - LOG_TAIL_LINES)
    }
}

/// The quoted tail of a log: its last lines joined by line feeds, if that
/// text is not empty.
pub open spec fn log_tail_text(s: Seq<char>) -> Option<Seq<char>> {
    let t = join_lines(tail_lines(s), seq!['\n']);
    if t.len() == 0 {
        None
    } else {
        Some(t)
    }
}

proof fn lemma_newline_positions(s: Seq<char>)
    ensures
        forall|k: int|
            0 <= k < newline_positions(s).len() ==> 0 <= #[trigger] newline_positions(s)[k] < s.len()
                && s[newline_positions(s)[k]] == '\n',
        forall|j: int, k: int|
            0 <= j < k < newline_positions(s).len() ==> newline_positions(s)[j]
                < newline_positions(s)[k],
        s.len() > 0 && s.last() == '\n' ==> newline_positions(s).len() > 0
            && newline_positions(s).last() == s.len() - 1,
        newline_positions(s).len() <= s.len(),
        s.len() > 0 && s.last() != '\n' ==> newline_positions(s).len() < s.len(),
    decreases s.len(),
{
    if s.len() > 0 {
        lemma_newline_positions(s.drop_last());
    }
}

/// The positions of the line feeds of `contents`.
fn find_newlines(contents: &str) -> (r: (Vec<usize>, usize))
    ensures
        r.1 == contents@.len(),
        r.0@.len() == newline_positions(contents@).len(),
        forall|k: int| 0 <= k < r.0@.len() ==> r.0@[k] as int == newline_positions(contents@)[k],
{
    let n = contents.unicode_len();
    let mut positions: Vec<usize> = Vec::new();
    let mut i: usize = 0;
    for c in it: contents.chars()
        invariant
            it.seq() == contents@,
            n == contents@.len(),
            i == it.index(),
            i <= n,
            positions@.len() == newline_positions(contents@.take(i as int)).len(),
            forall|k: int|
                0 <= k < positions@.len() ==> positions@[k] as int == newline_positions(
                    contents@.take(i as int),
                )[k],
    {
        proof {
            assert(contents@.take(i + 1).drop_last() =~= contents@.take(i as int));
            assert(contents@.take(i + 1).last() == c);
        }
        if c == '\n' {
            positions.push(i);
        }
        i = i + 1;
    }
    assert(contents@.take(n as int) =~= contents@);
    (positions, n)
}

/// Line `k` of `contents`, given the positions of its line feeds.
fn line_of(contents: &str, positions: &Vec<usize>, n: usize, k: usize) -> (line: String)
    requires
        n == contents@.len(),
        positions@.len() == newline_positions(contents@).len(),
        forall|j: int|
            0 <= j < positions@.len() ==> positions@[j] as int == newline_positions(contents@)[j],
        k <= positions@.len(),
        k == positions@.len() ==> line_start(contents@, k as int) <= n,
    ensures
        line@ == line_at(contents@, k as int),
{
    proof {
        lemma_newline_positions(contents@);
    }
    let start: usize = if k == 0 {
        0
    } else {
        positions[k - 1] + 1
    };
    if k < positions.len() {
        let end = positions[k];
        assert(start <= end) by {
            if k > 0 {
                assert(newline_positions(contents@)[k - 1] < newline_positions(contents@)[k as int]);
            }
        }
        if start < end && contents.get_char(end - 1) == '\r' {
            let line = contents.substring_char(start, end - 1);
            assert(line@ =~= contents@.subrange(start as int, end as int).drop_last());
            String::from_str(line)
        } else {
            String::from_str(contents.substring_char(start, end))
        }
    } else {
        String::from_str(contents.substring_char(start, n))
    }
}

/// The tail of a startup log as a failure report quotes it: its last
/// [`LOG_TAIL_LINES`] lines (as `str::lines` splits them) joined by line
/// feeds, or nothing if that text is empty.
pub fn log_tail(contents: &str) -> (t: Option<String>)
    ensures
        match t {
            Some(text) => log_tail_text(contents@) == Some(text@),
            None => log_tail_text(contents@) is None,
        },
{
    let (positions, n) = find_newlines(contents);
    proof {
        lemma_newline_positions(contents@);
    }
    let p = positions.len();
    let count: usize = if n == 0 {
        0
    } else if p > 0 && positions[p - 1] == n - 1 {
        p
    } else {
        p + 1
    };
    assert(count == line_count(contents@));
    let first: usize = if count <= LOG_TAIL_LINES {
        0
    } else {
        count - LOG_TAIL_LINES
    };
    let ghost lines = text_lines(contents@);
    assert(tail_lines(contents@) =~= lines.subrange(first as int, count as int));
    let mut text = String::new();
    let mut k: usize = first;
    while k < count
        invariant
            first <= k <= count,
            count == line_count(contents@),
            lines == text_lines(contents@),
            n == contents@.len(),
            p == positions@.len(),
            positions@.len() == newline_positions(contents@).len(),
            forall|j: int|
                0 <= j < positions@.len() ==> positions@[j] as int == newline_positions(contents@)[j],
            n > 0 && contents@.last() == '\n' ==> count == p,
            n == 0 ==> count == 0,
            text@ == join_lines(lines.subrange(first as int, k as int), seq!['\n']),
        decreases count - k,
    {
        proof {
            lemma_newline_positions(contents@);
        }
        assert(line_start(contents@, k as int) <= n) by {
            if k > 0 {
                assert(0 <= newline_positions(contents@)[k - 1] < n);
            }
        }
        let line = line_of(contents, &positions, n, k);
        assert(line@ == lines[k as int]);
        let ghost before = lines.subrange(first as int, k as int);
        let ghost after = lines.subrange(first as int, k + 1);
        assert(after.drop_last() =~= before);
        if k > first {
            text.append("\n");
            proof {
                reveal_strlit("\n");
            }
        }
        text.append(line.as_str());
        assert(text@ =~= join_lines(after, seq!['\n']));
        k = k + 1;
    }
    if text.as_str().is_empty() {
        None
    } else {
        Some(text)
    }
}

/// The report of a server that did not become ready: why (it exited, with
/// this exit status, or the startup timeout passed), where its startup log
/// is, and the tail of that log when it could be read and is not empty.
pub open spec fn startup_failure_text(
    exit_status: Option<Seq<char>>,
    log_path: Seq<char>,
    log_contents: Option<Seq<char>>,
) -> Seq<char> {
    let head = match exit_status {
        Some(e) => "dsh exited before becoming ready ("@ + e + ")"@,
        None => "dsh did not become ready before the startup timeout"@,
    };
    let report = head + ". Startup log: "@ + log_path;
    match log_contents {
        Some(c) => match log_tail_text(c) {
            Some(t) => report + "\n"@ + t,
            None => report,
        },
        None => report,
    }
}

/// Reports a server that did not become ready. `exit_status` is the
/// server's exit status as displayed, if it has exited; `log_contents` is the
/// startup log, if it could be read.
pub fn startup_failure(exit_status: Option<String>, log_path: &str, log_contents: Option<String>) -> (report: String)
    ensures
        report@ == startup_failure_text(
            crate::status::opt_string_view(exit_status),
            log_path@,
            crate::status::opt_string_view(log_contents),
        ),
{
    let mut report = match exit_status {
        Some(e) => {
            let mut head = String::from_str("dsh exited before becoming ready (");
            head.append(e.as_str());
            head.append(")");
            head
        },
        None => String::from_str("dsh did not become ready before the startup timeout"),
    };
    report.append(". Startup log: ");
    report.append(log_path);
    if let Some(contents) = log_contents {
        if let Some(tail) = log_tail(contents.as_str()) {
            report.append("\n");
            report.append(tail.as_str());
        }
    }
    report
}

/// The quoted lines are the last lines of the log, in their order, and there
/// are as many as the log has, up to [`LOG_TAIL_LINES`].
pub proof fn lemma_tail_is_last_lines(s: Seq<char>)
    ensures
        tail_lines(s).len() == if line_count(s) <= LOG_TAIL_LINES {
            line_count(s)
        } else {
            LOG_TAIL_LINES as nat
        },
        forall|k: int|
            0 <= k < tail_lines(s).len() ==> #[trigger] tail_lines(s)[k] == text_lines(s)[line_count(
                s,
            ) - tail_lines(s).len() + k],
{
}

proof fn lemma_positions_without_newlines(s: Seq<char>, t: Seq<char>)
    requires
        forall|i: int| 0 <= i < t.len() ==> t[i] != '\n',
    ensures
        newline_positions(s + t) == newline_positions(s),
    decreases t.len(),
{
    if t.len() > 0 {
        assert((s + t).drop_last() =~= s + t.drop_last());
        assert((s + t).last() == t.last());
        lemma_positions_without_newlines(s, t.drop_last());
    } else {
        assert(s + t =~= s);
    }
}

/// Writing one more line to a log adds exactly that line to its lines: a
/// line ended by a line feed (a carriage return before it is dropped), or a
/// last line without one, kept as it is.
pub proof fn lemma_appended_line_is_last(s: Seq<char>, l: Seq<char>)
    requires
        s.len() == 0 || s.last() == '\n',
        forall|i: int| 0 <= i < l.len() ==> l[i] != '\n',
    ensures
        text_lines(s + l + seq!['\n']) == text_lines(s).push(strip_cr(l)),
        l.len() > 0 ==> text_lines(s + l) == text_lines(s).push(l),
{
    let p = newline_positions(s);
    lemma_newline_positions(s);
    lemma_positions_without_newlines(s, l);
    let v = s + l;
    let u = v + seq!['\n'];
    assert(u.drop_last() =~= v);
    assert(newline_positions(u) == p.push(v.len() as int));
    lemma_newline_positions(u);
    assert(line_count(s) == p.len());
    assert(line_count(u) == p.len() + 1);
    let start = line_start(u, p.len() as int);
    assert(start == s.len()) by {
        if p.len() > 0 {
            assert(p.last() == s.len() - 1);
        }
    }
    assert forall|k: int| 0 <= k < p.len() implies line_at(u, k) == line_at(s, k) by {
        assert(newline_positions(u)[k] == p[k]);
        if k > 0 {
            assert(newline_positions(u)[k - 1] == p[k - 1]);
        }
        assert(line_start(u, k) == line_start(s, k));
        assert(0 <= line_start(s, k) <= p[k] < s.len()) by {
            if k > 0 {
                assert(p[k - 1] < p[k]);
            }
        }
        assert(u.subrange(line_start(u, k), p[k]) =~= s.subrange(line_start(s, k), p[k]));
    }
    assert(u.subrange(start, v.len() as int) =~= l);
    assert(line_at(u, p.len() as int) == strip_cr(l));
    assert(text_lines(u) =~= text_lines(s).push(strip_cr(l)));
    if l.len() > 0 {
        assert(v.last() == l.last());
        assert(line_count(v) == p.len() + 1);
        assert(line_start(v, p.len() as int) == s.len()) by {
            if p.len() > 0 {
                assert(p.last() == s.len() - 1);
            }
        }
        assert forall|k: int| 0 <= k < p.len() implies line_at(v, k) == line_at(s, k) by {
            assert(line_start(v, k) == line_start(s, k));
            assert(0 <= line_start(s, k) <= p[k] < s.len()) by {
                if k > 0 {
                    assert(p[k - 1] < p[k]);
                }
            }
            assert(v.subrange(line_start(v, k), p[k]) =~= s.subrange(line_start(s, k), p[k]));
        }
        assert(v.subrange(s.len() as int, v.len() as int) =~= l);
        assert(text_lines(v) =~= text_lines(s).push(l));
    }
}

/// The report without a log names the reason and the log's path; a
/// readable log adds its tail after a line feed and changes nothing before
/// it, and a log with nothing to quote adds nothing.
pub proof fn lemma_failure_report_parts(
    exit_status: Option<Seq<char>>,
    log_path: Seq<char>,
    log_contents: Option<Seq<char>>,
)
    ensures
        startup_failure_text(exit_status, log_path, None) == match exit_status {
            Some(e) => "dsh exited before becoming ready ("@ + e + ")"@,
            None => "dsh did not become ready before the startup timeout"@,
        } + ". Startup log: "@ + log_path,
        (log_contents is Some && log_tail_text(log_contents->0) is Some) ==> startup_failure_text(
            exit_status,
            log_path,
            log_contents,
        ) == startup_failure_text(exit_status, log_path, None) + "\n"@ + log_tail_text(
            log_contents->0,
        )->0,
        (log_contents is None || log_tail_text(log_contents->0) is None) ==> startup_failure_text(
            exit_status,
            log_path,
            log_contents,
        ) == startup_failure_text(exit_status, log_path, None),
{
}

} // verus!
