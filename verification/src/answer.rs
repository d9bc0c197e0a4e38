//! Classification of one line read from the controlling terminal.
//!
//! The line is trimmed of surrounding ASCII whitespace and compared,
//! case-insensitively, against `y` and `n`. Anything else (an empty line
//! included) is no decision and leads to a new prompt.

use vstd::prelude::*;

verus! {

/// The three ways a terminal line can be read as a retry decision.
#[derive(Clone, Copy, Debug, PartialEq, Eq, Structural)]
pub enum Answer {
    /// The user asked for another attempt (`y`, in any case, surrounded by
    /// any whitespace).
    Yes,
    /// The user declined (`n`, likewise).
    No,
    /// Anything else: the dialogue asks again.
    Other,
}

/// ASCII whitespace, as the trimming of a terminal line understands it.
pub open spec fn is_space(b: u8) -> bool {
    b == 32 || b == 9 || b == 10 || b == 13 || b == 11 || b == 12
}

/// The sequence with its leading whitespace removed.
pub open spec fn trim_front(s: Seq<u8>) -> Seq<u8>
    decreases s.len(),
{
    if s.len() > 0 && is_space(s[0]) {
        trim_front(s.drop_first())
    } else {
        s
    }
}

/// The sequence with its trailing whitespace removed.
pub open spec fn trim_back(s: Seq<u8>) -> Seq<u8>
    decreases s.len(),
{
    if s.len() > 0 && is_space(s.last()) {
        trim_back(s.drop_last())
    } else {
        s
    }
}

/// The sequence with whitespace removed on both sides.
pub open spec fn trimmed(s: Seq<u8>) -> Seq<u8> {
    trim_back(trim_front(s))
}

/// How a raw terminal line is read: its trimmed form must be exactly one of
/// the letters `y` or `n`, in either case.
pub open spec fn answer_of(s: Seq<u8>) -> Answer {
    let t = trimmed(s);
    if t.len() == 1 && (t[0] == 121 || t[0] == 89) {
        Answer::Yes
    } else if t.len() == 1 && (t[0] == 110 || t[0] == 78) {
        Answer::No
    } else {
        Answer::Other
    }
}

fn is_space_exec(b: u8) -> (r: bool)
    ensures
        r == is_space(b),
{
    b == 32 || b == 9 || b == 10 || b == 13 || b == 11 || b == 12
}

proof fn lemma_trim_front_stops(s: Seq<u8>)
    requires
        s.len() == 0 || !is_space(s[0]),
    ensures
        trim_front(s) == s,
{
}

proof fn lemma_trim_back_stops(s: Seq<u8>)
    requires
        s.len() == 0 || !is_space(s.last()),
    ensures
        trim_back(s) == s,
{
}

/// Classify one terminal line. The classification is exactly `answer_of`
/// on the line's bytes.
pub fn classify_answer(line: &[u8]) -> (a: Answer)
    ensures
        a == answer_of(line@),
{
    let len = line.len();
    proof {
        assert(line@.subrange(0, len as int) =~= line@);
    }
    let mut i: usize = 0;
    while i < len && is_space_exec(line[i])
        invariant
            len == line@.len(),
            i <= len,
            trim_front(line@) == trim_front(line@.subrange(i as int, len as int)),
        decreases len - i,
    {
        proof {
            let cur = line@.subrange(i as int, len as int);
            assert(cur.drop_first() =~= line@.subrange(i as int + 1, len as int));
        }
        i = i + 1;
    }
    proof {
        lemma_trim_front_stops(line@.subrange(i as int, len as int));
    }
    let mut j: usize = len;
    while j > i && is_space_exec(line[j - 1])
        invariant
            len == line@.len(),
            i <= j <= len,
            trim_front(line@) == line@.subrange(i as int, len as int),
            trim_back(line@.subrange(i as int, len as int)) == trim_back(
                line@.subrange(i as int, j as int),
            ),
        decreases j,
    {
        proof {
            let cur = line@.subrange(i as int, j as int);
            assert(cur.drop_last() =~= line@.subrange(i as int, j as int - 1));
        }
        j = j - 1;
    }
    proof {
        lemma_trim_back_stops(line@.subrange(i as int, j as int));
        assert(trimmed(line@) == line@.subrange(i as int, j as int));
    }
    if j - i == 1 {
        let b = line[i];
        if b == 121 || b == 89 {
            Answer::Yes
        } else if b == 110 || b == 78 {
            Answer::No
        } else {
            Answer::Other
        }
    } else {
        Answer::Other
    }
}

} // verus!
