//! Trimming of history lines.
//!
//! A stored history line may carry a leading word — typically a timestamp —
//! before the selected name.  Trimming drops that word and the white space
//! after it and keeps the remainder.  A line without such a prefix cannot
//! be trimmed and is reported as an error.

use vstd::prelude::*;

use crate::error::TrimError;

verus! {

/// A white-space character: the `White_Space` class of Unicode, which is
/// what the `\s` class of the regex crate matches.
pub open spec fn is_trim_space(c: char) -> bool {
    ||| c == '\t'
    ||| c == '\n'
    ||| c == '\u{b}'
    ||| c == '\u{c}'
    ||| c == '\r'
    ||| c == ' '
    ||| c == '\u{85}'
    ||| c == '\u{a0}'
    ||| c == '\u{1680}'
    ||| c == '\u{2000}'
    ||| c == '\u{2001}'
    ||| c == '\u{2002}'
    ||| c == '\u{2003}'
    ||| c == '\u{2004}'
    ||| c == '\u{2005}'
    ||| c == '\u{2006}'
    ||| c == '\u{2007}'
    ||| c == '\u{2008}'
    ||| c == '\u{2009}'
    ||| c == '\u{200a}'
    ||| c == '\u{2028}'
    ||| c == '\u{2029}'
    ||| c == '\u{202f}'
    ||| c == '\u{205f}'
    ||| c == '\u{3000}'
}

/// What remains of `s` after its leading run of non-white-space
/// characters.
pub open spec fn after_leading_word(s: Seq<char>) -> Seq<char>
    decreases s.len(),
{
    if s.len() == 0 || is_trim_space(s[0]) {
        s
    } else {
        after_leading_word(s.subrange(1, s.len() as int))
    }
}

/// What remains of `s` after its leading run of white-space characters.
pub open spec fn after_leading_space(s: Seq<char>) -> Seq<char>
    decreases s.len(),
{
    if s.len() == 0 || !is_trim_space(s[0]) {
        s
    } else {
        after_leading_space(s.subrange(1, s.len() as int))
    }
}

/// What trimming keeps of a line: everything after the leading word and
/// the white-space run that follows it.
pub open spec fn trimmed_line(s: Seq<char>) -> Seq<char> {
    after_leading_space(after_leading_word(s))
}

/// Whether a line can be trimmed: it starts with a word of at least one
/// non-white-space character, white space follows the word, and no line
/// feed survives into the remainder (a line feed before the remainder is
/// taken by the white-space run, but one inside the remainder defeats the
/// match).
pub open spec fn line_matches(s: Seq<char>) -> bool {
    &&& s.len() > 0
    &&& !is_trim_space(s[0])
    &&& after_leading_word(s).len() > 0
    &&& !trimmed_line(s).contains('\n')
}

/// Relies on `regex::Regex::captures` with the anchored pattern
/// `^\S+\s+(.*)$`: `\S+` takes the leading run of non-white-space
/// characters, `\s+` takes the white-space run after it, `(.*)` captures
/// the remainder — any characters but a line feed — and the anchors pin
/// the match to the whole line.  `\s` is Unicode `White_Space`.
#[verifier::external_body]
fn capture_after_first_word(line: &String) -> (r: Option<String>)
    ensures
        r is Some <==> line_matches(line@),
        r matches Some(rest) ==> rest@ == trimmed_line(line@),
{
    let re = regex::Regex::new(r"^\S+\s+(.*)$").unwrap();
    re.captures(line).map(|groups| groups[1].to_string())
}

/// Trims each history line, or hands the history back untouched when
/// trimming is off.  Fails on the first line that cannot be trimmed,
/// reporting that line.
pub fn maybe_trim_history(history: &Vec<String>, do_it: bool) -> (r: Result<Vec<String>, TrimError>)
    ensures
        !do_it ==> (r matches Ok(out) && out@ == history@),
        do_it ==> ((r is Ok) <==> (forall|i: int|
            0 <= i < history@.len() ==> line_matches(history@[i]@))),
        do_it ==> (r matches Ok(out) ==> ({
            &&& out@.len() == history@.len()
            &&& forall|i: int| 0 <= i < history@.len() ==> out@[i]@ == trimmed_line(history@[i]@)
        })),
        do_it ==> (r matches Err(e) ==> (exists|k: int|
            {
                &&& 0 <= k < history@.len()
                &&& !line_matches(history@[k]@)
                &&& forall|i: int| 0 <= i < k ==> line_matches(history@[i]@)
                &&& e.line@ == history@[k]@
            })),
{
    if !do_it {
        let mut out: Vec<String> = Vec::new();
        let mut i: usize = 0;
        while i < history.len()
            invariant
                i <= history@.len(),
                out@.len() == i,
                forall|t: int| 0 <= t < i ==> out@[t] == history@[t],
            decreases history@.len() - i,
        {
            out.push(history[i].clone());
            i = i + 1;
        }
        proof {
            assert(out@ =~= history@);
        }
        return Ok(out);
    }
    let mut out: Vec<String> = Vec::new();
    let mut i: usize = 0;
    while i < history.len()
        invariant
            do_it,
            i <= history@.len(),
            out@.len() == i,
            forall|t: int| 0 <= t < i ==> line_matches(history@[t]@),
            forall|t: int| 0 <= t < i ==> out@[t]@ == trimmed_line(history@[t]@),
        decreases history@.len() - i,
    {
        match capture_after_first_word(&history[i]) {
            Some(rest) => {
                out.push(rest);
            },
            None => {
                return Err(TrimError { line: history[i].clone() });
            },
        }
        i = i + 1;
    }
    Ok(out)
}

} // verus!
