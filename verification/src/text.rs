//! Text handling for the interactive loop: trimming an input line, the
//! case-insensitive quit command, and the lines the driver shows the user.

use vstd::prelude::*;

verus! {

/// `s` with leading and trailing whitespace removed, as `str::trim` removes it.
pub uninterp spec fn trimmed_of(s: Seq<char>) -> Seq<char>;

/// Relies on `str::trim`: it removes leading and trailing whitespace, and the
/// result is a function of the characters alone.
#[verifier::external_body]
pub(crate) fn trim_line(s: &str) -> (r: String)
    ensures
        r@ == trimmed_of(s@),
{
    s.trim().to_owned()
}

/// The quit command: the word "quit" compared without regard to ASCII case.
pub open spec fn is_quit(s: Seq<char>) -> bool {
    &&& s.len() == 4
    &&& (s[0] == 'q' || s[0] == 'Q')
    &&& (s[1] == 'u' || s[1] == 'U')
    &&& (s[2] == 'i' || s[2] == 'I')
    &&& (s[3] == 't' || s[3] == 'T')
}

/// Decides whether a (trimmed) line is the quit command.
pub fn check_quit(s: &str) -> (r: bool)
    ensures
        r == is_quit(s@),
{
    if s.unicode_len() != 4 {
        return false;
    }
    let c0 = s.get_char(0);
    let c1 = s.get_char(1);
    let c2 = s.get_char(2);
    let c3 = s.get_char(3);
    (c0 == 'q' || c0 == 'Q') && (c1 == 'u' || c1 == 'U') && (c2 == 'i' || c2 == 'I') && (c3 == 't'
        || c3 == 'T')
}

/// The lines joined by single newline characters, in order.
pub open spec fn joined(lines: Seq<Seq<char>>) -> Seq<char>
    decreases lines.len(),
{
    if lines.len() == 0 {
        Seq::empty()
    } else if lines.len() == 1 {
        lines[0]
    } else {
        joined(lines.drop_last()) + "\n"@ + lines.last()
    }
}

/// Joins the accumulated output lines with newlines, as they are shown.
pub fn join_lines(lines: &Vec<String>) -> (r: String)
    ensures
        r@ == joined(lines.deep_view()),
{
    let ghost all = lines.deep_view();
    let mut r = String::new();
    let mut i: usize = 0;
    while i < lines.len()
        invariant
            i <= lines.len(),
            all == lines.deep_view(),
            all.len() == lines.len(),
            r@ == joined(all.take(i as int)),
        decreases lines.len() - i,
    {
        if i > 0 {
            r.append("\n");
        }
        r.append(lines[i].as_str());
        proof {
            let t = all.take(i + 1 as int);
            assert(t.drop_last() =~= all.take(i as int));
            assert(t.last() == all[i as int]);
            assert(r@ =~= joined(t));
        }
        i = i + 1;
    }
    proof {
        assert(all.take(lines.len() as int) =~= all);
    }
    r
}

/// The trace line shown before a tool is invoked.
pub open spec fn trace_line(name: Seq<char>, args_text: Seq<char>) -> Seq<char> {
    "[Calling tool "@ + name + " with args "@ + args_text + "]"@
}

/// Builds the trace line for a tool invocation.
pub fn build_trace_line(name: &str, args_text: &str) -> (r: String)
    ensures
        r@ == trace_line(name@, args_text@),
{
    let mut r = String::new();
    r.append("[Calling tool ");
    r.append(name);
    r.append(" with args ");
    r.append(args_text);
    r.append("]");
    proof {
        assert(r@ =~= trace_line(name@, args_text@));
    }
    r
}

/// The error line shown when a query cycle fails.
pub open spec fn error_line(msg: Seq<char>) -> Seq<char> {
    "Error: "@ + msg
}

/// Builds the error line for a failed query cycle.
pub fn build_error_line(msg: &str) -> (r: String)
    ensures
        r@ == error_line(msg@),
{
    let mut r = String::new();
    r.append("Error: ");
    r.append(msg);
    proof {
        assert(r@ =~= error_line(msg@));
    }
    r
}

} // verus!
