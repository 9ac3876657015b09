//! Verified text building: decimal rendering of numbers and the in-pipeline
//! rewriting of a job's content (metadata header, numbered print lines).

use vstd::prelude::*;

verus! {

use vstd::string::StringExecFns;

/// The character for a single decimal digit.
pub open spec fn digit_char(d: nat) -> char {
    if d == 0 {
        '0'
    } else if d == 1 {
        '1'
    } else if d == 2 {
        '2'
    } else if d == 3 {
        '3'
    } else if d == 4 {
        '4'
    } else if d == 5 {
        '5'
    } else if d == 6 {
        '6'
    } else if d == 7 {
        '7'
    } else if d == 8 {
        '8'
    } else {
        '9'
    }
}

/// The decimal rendering of a number, most significant digit first.
pub open spec fn dec_of(n: nat) -> Seq<char>
    decreases n,
{
    if n < 10 {
        seq![digit_char(n)]
    } else {
        dec_of(n / 10).push(digit_char(n % 10))
    }
}

fn digit_str(d: usize) -> (r: &'static str)
    requires
        d < 10,
    ensures
        r@ == seq![digit_char(d as nat)],
{
    proof {
        reveal_strlit("0");
        reveal_strlit("1");
        reveal_strlit("2");
        reveal_strlit("3");
        reveal_strlit("4");
        reveal_strlit("5");
        reveal_strlit("6");
        reveal_strlit("7");
        reveal_strlit("8");
        reveal_strlit("9");
    }
    match d {
        0 => "0",
        1 => "1",
        2 => "2",
        3 => "3",
        4 => "4",
        5 => "5",
        6 => "6",
        7 => "7",
        8 => "8",
        _ => "9",
    }
}

/// Renders a number in decimal.
pub fn fmt_usize(n: usize) -> (r: String)
    ensures
        r@ == dec_of(n as nat),
    decreases n,
{
    if n < 10 {
        String::from_str(digit_str(n))
    } else {
        let mut s = fmt_usize(n / 10);
        s.append(digit_str(n % 10));
        proof {
            assert(s@ =~= dec_of(n as nat / 10).push(digit_char(n as nat % 10)));
        }
        s
    }
}

/// The space padding that right-aligns a line number to three columns.
pub open spec fn pad_of(k: nat) -> Seq<char> {
    if k < 10 {
        "  "@
    } else if k < 100 {
        " "@
    } else {
        ""@
    }
}

/// The prefix of a numbered print line: the 1-indexed line number,
/// right-aligned to three columns, and a colon.
pub open spec fn line_prefix_of(k: nat) -> Seq<char> {
    pad_of(k) + dec_of(k) + ": "@
}

/// The position of the first newline in `s`, or `s.len()` when there is
/// none.
pub open spec fn first_nl_of(s: Seq<char>) -> int
    decreases s.len(),
{
    if s.len() == 0 {
        0
    } else if s[0] == '\n' {
        0
    } else {
        1 + first_nl_of(s.drop_first())
    }
}

/// `first_nl_of` finds the first newline: nothing before it is a newline,
/// and it points at a newline unless there is none.
pub proof fn lemma_first_nl(s: Seq<char>)
    ensures
        0 <= first_nl_of(s) <= s.len(),
        forall|m: int| 0 <= m < first_nl_of(s) ==> s[m] != '\n',
        first_nl_of(s) < s.len() ==> s[first_nl_of(s)] == '\n',
    decreases s.len(),
{
    if s.len() > 0 && s[0] != '\n' {
        lemma_first_nl(s.drop_first());
        assert forall|m: int| 0 <= m < first_nl_of(s) implies s[m] != '\n' by {
            if m > 0 {
                assert(s.drop_first()[m - 1] == s[m]);
            }
        }
    }
}

/// Conversely, a position with no newline before it and a newline (or the
/// end) at it is what `first_nl_of` finds.
pub proof fn lemma_first_nl_is(s: Seq<char>, i: int)
    requires
        0 <= i <= s.len(),
        forall|m: int| 0 <= m < i ==> s[m] != '\n',
        i < s.len() ==> s[i] == '\n',
    ensures
        first_nl_of(s) == i,
    decreases s.len(),
{
    if s.len() > 0 && s[0] != '\n' {
        lemma_first_nl_is(s.drop_first(), i - 1);
    }
}

/// The body of the first line of `s`, whose first newline stands at `i`: the
/// text up to the newline, with a carriage return immediately before the
/// newline stripped (a trailing carriage return of a final, unterminated
/// line stays).
pub open spec fn line_body_of(s: Seq<char>, i: int) -> Seq<char> {
    if i < s.len() && i > 0 && s[i - 1] == '\r' {
        s.subrange(0, i - 1)
    } else {
        s.subrange(0, i)
    }
}

/// The lines of `s`, each prefixed by its line number (counting from `k`)
/// and a colon and terminated by a newline.
pub open spec fn numbered_from(s: Seq<char>, k: nat) -> Seq<char>
    decreases s.len(),
{
    if s.len() == 0 {
        Seq::empty()
    } else {
        let i = first_nl_of(s);
        let line = line_prefix_of(k) + line_body_of(s, i) + "\n"@;
        if 0 <= i < s.len() {
            line + numbered_from(s.subrange(i + 1, s.len() as int), k + 1)
        } else {
            line
        }
    }
}

/// The content as the printer renders it: each line prefixed by its
/// 1-indexed, right-aligned three-column line number and a colon.
pub open spec fn numbered_of(s: Seq<char>) -> Seq<char> {
    numbered_from(s, 1)
}

/// Writes the line-number prefix of line `k` onto `out`.
fn push_line_prefix(out: &mut String, k: usize)
    requires
        k >= 1,
    ensures
        final(out)@ == old(out)@ + line_prefix_of(k as nat),
{
    if k < 10 {
        out.append("  ");
    } else if k < 100 {
        out.append(" ");
    }
    let num = fmt_usize(k);
    out.append(num.as_str());
    out.append(": ");
    proof {
        reveal_strlit("");
        reveal_strlit(" ");
        reveal_strlit("  ");
        assert(out@ =~= old(out)@ + line_prefix_of(k as nat));
    }
}

/// Rewrites content for printing: every line comes out prefixed by its
/// 1-indexed line number, right-aligned to three columns, and a colon, and
/// terminated by a newline. A carriage return before a line's newline is
/// dropped.
pub fn number_lines(content: &str) -> (r: String)
    requires
        content@.len() < usize::MAX,
    ensures
        r@ == numbered_of(content@),
{
    let n = content.unicode_len();
    let mut out = String::new();
    let mut line_start: usize = 0;
    let mut line_no: usize = 1;
    proof {
        assert(content@.subrange(0, n as int) =~= content@);
        assert(out@ + numbered_from(content@, 1nat) =~= numbered_from(content@, 1nat));
    }
    while line_start < n
        invariant
            content@.len() == n,
            n < usize::MAX,
            line_start <= n,
            1 <= line_no,
            line_no <= line_start + 1,
            numbered_of(content@) == out@ + numbered_from(
                content@.subrange(line_start as int, n as int),
                line_no as nat,
            ),
        decreases n - line_start,
    {
        let mut i: usize = line_start;
        let mut found = false;
        while !found && i < n
            invariant
                content@.len() == n,
                line_start <= i <= n,
                forall|m: int| line_start <= m < i ==> content@[m] != '\n',
                found ==> i < n && content@[i as int] == '\n',
            decreases n - i, (if found {
                0nat
            } else {
                1nat
            }),
        {
            if content.get_char(i) == '\n' {
                found = true;
            } else {
                i = i + 1;
            }
        }
        let e = if i < n && i > line_start && content.get_char(i - 1) == '\r' {
            i - 1
        } else {
            i
        };
        push_line_prefix(&mut out, line_no);
        out.append(content.substring_char(line_start, e));
        out.append("\n");
        proof {
            let k = line_no as nat;
            let ls = line_start as int;
            let sub = content@.subrange(ls, n as int);
            lemma_first_nl_is(sub, i - ls);
            let body = line_body_of(sub, i - ls);
            let pre = line_prefix_of(k);
            assert(body =~= content@.subrange(ls, e as int));
            if i < n {
                let sub2 = content@.subrange(i as int + 1, n as int);
                assert(sub.subrange(i - ls + 1, sub.len() as int) =~= sub2);
                assert(numbered_from(sub, k) == (pre + body + "\n"@) + numbered_from(sub2, k + 1));
                assert(numbered_of(content@) =~= out@ + numbered_from(sub2, k + 1));
            } else {
                assert(numbered_from(sub, k) == pre + body + "\n"@);
                assert(content@.subrange(n as int, n as int) =~= Seq::<char>::empty());
                assert(numbered_of(content@) =~= out@ + numbered_from(
                    content@.subrange(n as int, n as int),
                    k + 1,
                ));
            }
        }
        line_no = line_no + 1;
        line_start = if i < n {
            i + 1
        } else {
            n
        };
    }
    proof {
        assert(content@.subrange(n as int, n as int) =~= Seq::<char>::empty());
        assert(out@ + numbered_from(content@.subrange(n as int, n as int), line_no as nat)
            =~= out@);
    }
    out
}

/// The two-line metadata header that the pipeline's format stage prepends.
pub open spec fn header_of(team: Seq<char>, time_text: Seq<char>) -> Seq<char> {
    "\\\\ team_name: "@ + team + "\n\\\\ submit_time: "@ + time_text + "\n\n"@
}

/// Prepends the two-line metadata header to a job's content.
pub fn format_content(team: &str, time_text: &str, content: &str) -> (r: String)
    ensures
        r@ == header_of(team@, time_text@) + content@,
{
    let mut s = String::from_str("\\\\ team_name: ");
    s.append(team);
    s.append("\n\\\\ submit_time: ");
    s.append(time_text);
    s.append("\n\n");
    s.append(content);
    proof {
        assert(s@ =~= header_of(team@, time_text@) + content@);
    }
    s
}

} // verus!
