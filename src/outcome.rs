use vstd::prelude::*;
use vstd::string::StrSliceExecFns;

verus! {

/// Separator between the fields of an attack script's result.
pub const FIELD_SEPARATOR: char = '|';

/// Index of the first separator at or after `from`, or the length of `s` when
/// there is none.
pub open spec fn next_separator(s: Seq<char>, from: int) -> int
    decreases s.len() - from,
{
    if from >= s.len() {
        s.len() as int
    } else if s[from] == FIELD_SEPARATOR {
        from
    } else {
        next_separator(s, from + 1)
    }
}

/// How an attack script's result reads: status, error type and message, the
/// first three fields of `STATUS|ERROR_TYPE|MESSAGE|...`. A result with fewer
/// than three fields counts as a crash with an exception whose message is the
/// whole result.
pub open spec fn attack_outcome(s: Seq<char>) -> (Seq<char>, Seq<char>, Seq<char>) {
    let b0 = next_separator(s, 0);
    let b1 = next_separator(s, b0 + 1);
    let b2 = next_separator(s, b1 + 1);
    if b1 < s.len() {
        (s.subrange(0, b0), s.subrange(b0 + 1, b1), s.subrange(b1 + 1, b2))
    } else {
        ("CRASHED"@, "Exception"@, s)
    }
}

/// The three parts shown for an attack script's result.
pub struct AttackOutcome {
    pub status: String,
    pub error_type: String,
    pub message: String,
}

/// Finds the first separator at or after `from`.
fn find_separator(s: &str, from: usize) -> (r: usize)
    requires
        from <= s@.len(),
    ensures
        r == next_separator(s@, from as int),
        from <= r <= s@.len(),
{
    let n = s.unicode_len();
    let mut i: usize = from;
    while i < n
        invariant
            n == s@.len(),
            from <= i <= n,
            next_separator(s@, from as int) == next_separator(s@, i as int),
        decreases n - i,
    {
        if s.get_char(i) == FIELD_SEPARATOR {
            return i;
        }
        i = i + 1;
    }
    i
}

/// Splits an attack script's result into status, error type and message.
pub fn parse_attack_outcome(result: &str) -> (r: AttackOutcome)
    ensures
        (r.status@, r.error_type@, r.message@) == attack_outcome(result@),
{
    let n = result.unicode_len();
    let b0 = find_separator(result, 0);
    if b0 == n {
        return AttackOutcome {
            status: "CRASHED".to_owned(),
            error_type: "Exception".to_owned(),
            message: result.to_owned(),
        };
    }
    let b1 = find_separator(result, b0 + 1);
    if b1 == n {
        return AttackOutcome {
            status: "CRASHED".to_owned(),
            error_type: "Exception".to_owned(),
            message: result.to_owned(),
        };
    }
    let b2 = find_separator(result, b1 + 1);
    AttackOutcome {
        status: result.substring_char(0, b0).to_owned(),
        error_type: result.substring_char(b0 + 1, b1).to_owned(),
        message: result.substring_char(b1 + 1, b2).to_owned(),
    }
}

} // verus!
