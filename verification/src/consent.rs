//! The consent gate for mutating commands. The operator is shown the
//! command and the active profile and must type the profile's name back;
//! the typed line counts, with whitespace trimmed at both ends, and the
//! comparison is exact and case-sensitive. The blocking read itself is the
//! driver's; the decision over the line that was read is made here.

use crate::config::Profile;
use vstd::prelude::*;
use vstd::string::StrSliceExecFns;

verus! {

/// The two terminal outcomes of the consent protocol.
#[derive(Clone, Copy, Debug, PartialEq, Eq, Structural)]
pub enum ConsentOutcome {
    Confirmed,
    Aborted,
}

/// The whitespace set of the consent protocol: the ASCII whitespace
/// characters, removable at either end of the typed line.
pub open spec fn is_space(c: char) -> bool {
    c == ' ' || c == '\t' || c == '\n' || c == '\r' || c == '\u{b}' || c == '\u{c}'
}

/// `s` with its leading whitespace removed.
pub open spec fn trim_front(s: Seq<char>) -> Seq<char>
    decreases s.len(),
{
    if s.len() > 0 && is_space(s[0]) {
        trim_front(s.drop_first())
    } else {
        s
    }
}

/// `s` with its trailing whitespace removed.
pub open spec fn trim_back(s: Seq<char>) -> Seq<char>
    decreases s.len(),
{
    if s.len() > 0 && is_space(s.last()) {
        trim_back(s.drop_last())
    } else {
        s
    }
}

/// `s` with whitespace removed at both ends and nowhere else.
pub open spec fn trimmed(s: Seq<char>) -> Seq<char> {
    trim_back(trim_front(s))
}

/// Removing leading whitespace keeps exactly the suffix that starts at the
/// first non-whitespace character.
proof fn lemma_trim_front_at(s: Seq<char>, i: int)
    requires
        0 <= i <= s.len(),
        forall|k: int| 0 <= k < i ==> is_space(s[k]),
        i == s.len() || !is_space(s[i]),
    ensures
        trim_front(s) == s.subrange(i, s.len() as int),
    decreases i,
{
    if i == 0 {
        assert(s.subrange(0, s.len() as int) =~= s);
    } else {
        assert(is_space(s[0]));
        assert forall|k: int| 0 <= k < i - 1 implies is_space(s.drop_first()[k]) by {
            assert(s.drop_first()[k] == s[k + 1]);
        }
        if i < s.len() {
            assert(s.drop_first()[i - 1] == s[i]);
        }
        lemma_trim_front_at(s.drop_first(), i - 1);
        assert(s.drop_first().subrange(i - 1, s.drop_first().len() as int) =~= s.subrange(
            i,
            s.len() as int,
        ));
    }
}

/// Removing trailing whitespace keeps exactly the prefix that ends after
/// the last non-whitespace character.
proof fn lemma_trim_back_at(s: Seq<char>, e: int)
    requires
        0 <= e <= s.len(),
        forall|k: int| e <= k < s.len() ==> is_space(s[k]),
        e == 0 || !is_space(s[e - 1]),
    ensures
        trim_back(s) == s.subrange(0, e),
    decreases s.len(),
{
    if e == s.len() {
        assert(s.subrange(0, e) =~= s);
    } else {
        assert(is_space(s[s.len() - 1]));
        assert forall|k: int| e <= k < s.drop_last().len() implies is_space(s.drop_last()[k]) by {
            assert(s.drop_last()[k] == s[k]);
        }
        if e > 0 {
            assert(s.drop_last()[e - 1] == s[e - 1]);
        }
        lemma_trim_back_at(s.drop_last(), e);
        assert(s.drop_last().subrange(0, e) =~= s.subrange(0, e));
    }
}

/// Whether `c` belongs to the whitespace set of the consent protocol.
fn is_space_char(c: char) -> (b: bool)
    ensures
        b == is_space(c),
{
    c == ' ' || c == '\t' || c == '\n' || c == '\r' || c == '\u{b}' || c == '\u{c}'
}

/// `s` with whitespace removed at both ends: the executable counterpart of
/// [`trimmed`].
pub fn trim_line(s: &str) -> (r: &str)
    ensures
        r@ == trimmed(s@),
{
    let len = s.unicode_len();
    let mut start: usize = 0;
    while start < len && is_space_char(s.get_char(start))
        invariant
            0 <= start <= len,
            len == s@.len(),
            forall|k: int| 0 <= k < start ==> is_space(s@[k]),
        decreases len - start,
    {
        start = start + 1;
    }
    let mut end: usize = len;
    while end > start && is_space_char(s.get_char(end - 1))
        invariant
            start <= end <= len,
            len == s@.len(),
            forall|k: int| end <= k < len ==> is_space(s@[k]),
        decreases end,
    {
        end = end - 1;
    }
    proof {
        lemma_trim_front_at(s@, start as int);
        let sub = s@.subrange(start as int, len as int);
        assert forall|k: int| (end - start) <= k < sub.len() implies is_space(sub[k]) by {
            assert(sub[k] == s@[start + k]);
        }
        if end > start {
            assert(sub[end - start - 1] == s@[end - 1]);
        }
        lemma_trim_back_at(sub, end - start);
        assert(sub.subrange(0, end - start) =~= s@.subrange(start as int, end as int));
    }
    s.substring_char(start, end)
}

/// The consent decision over the line the operator typed: confirmed exactly
/// when the trimmed line equals the profile's name, character for
/// character.
pub fn check_consent(input: &str, profile: &Profile) -> (r: ConsentOutcome)
    ensures
        r == ConsentOutcome::Confirmed <==> trimmed(input@) == profile.name@,
        r == ConsentOutcome::Confirmed || r == ConsentOutcome::Aborted,
{
    let t = trim_line(input);
    if t.to_owned() == profile.name {
        ConsentOutcome::Confirmed
    } else {
        ConsentOutcome::Aborted
    }
}

} // verus!
