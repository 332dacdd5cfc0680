//! Baum identifiers and the tracking-branch names built from them.
//!
//! A baum ID is six lowercase hexadecimal digits drawn at random. Every
//! worktree of a baum checks out the local branch `wald/<id>/<branch>`.

use vstd::prelude::*;
use crate::string_set::StringSet;
use crate::text::{
    from_chars, is_ascii_hexdigit, is_hex, is_lower_hex, push_all, starts_with, subvec, to_chars,
};

verus! {

/// How many random draws `generate_baum_id` makes before it gives up.
pub const MAX_ID_ATTEMPTS: u32 = 4096;

/// Why no baum ID could be generated.
#[derive(Debug, Clone, Copy, PartialEq, Eq, Structural)]
pub enum IdError {
    /// The system's random number source failed.
    RandomSource,
    /// Every draw collided with an ID that is already taken.
    Exhausted,
}

/// The error of the `getrandom` crate. Nothing is known of its values; they
/// are only told apart from success.
#[verifier::external_type_specification]
#[verifier::external_body]
pub struct ExRandomError(getrandom::Error);

/// The lowercase hexadecimal digit of a value below sixteen.
pub open spec fn hex_digit(n: int) -> char {
    if n == 0 {
        '0'
    } else if n == 1 {
        '1'
    } else if n == 2 {
        '2'
    } else if n == 3 {
        '3'
    } else if n == 4 {
        '4'
    } else if n == 5 {
        '5'
    } else if n == 6 {
        '6'
    } else if n == 7 {
        '7'
    } else if n == 8 {
        '8'
    } else if n == 9 {
        '9'
    } else if n == 10 {
        'a'
    } else if n == 11 {
        'b'
    } else if n == 12 {
        'c'
    } else if n == 13 {
        'd'
    } else if n == 14 {
        'e'
    } else {
        'f'
    }
}

/// Two lowercase hexadecimal digits for each byte, high digit first.
pub open spec fn hex_of(bytes: Seq<u8>) -> Seq<char> {
    Seq::new(
        2 * bytes.len(),
        |i: int|
            if i % 2 == 0 {
                hex_digit(bytes[i / 2] as int / 16)
            } else {
                hex_digit(bytes[i / 2] as int % 16)
            },
    )
}

/// Six lowercase hexadecimal digits.
pub open spec fn is_baum_id(s: Seq<char>) -> bool {
    s.len() == 6 && forall|i: int| 0 <= i < 6 ==> is_lower_hex(#[trigger] s[i])
}

/// Six hexadecimal digits of either case, as the parser accepts them.
pub open spec fn is_hex_id(s: Seq<char>) -> bool {
    s.len() == 6 && forall|i: int| 0 <= i < 6 ==> is_hex(#[trigger] s[i])
}

/// The prefix of every tracking-branch name.
pub open spec fn wald_prefix() -> Seq<char> {
    seq!['w', 'a', 'l', 'd', '/']
}

/// The tracking-branch name `wald/<id>/<branch>`.
pub open spec fn tracking_name(id: Seq<char>, branch: Seq<char>) -> Seq<char> {
    wald_prefix() + id + seq!['/'] + branch
}

/// The ID and the branch that a tracking-branch name holds, if it is one:
/// `wald/`, six hexadecimal digits, a slash, and a branch that is not empty.
pub open spec fn parsed_tracking(s: Seq<char>) -> Option<(Seq<char>, Seq<char>)> {
    if starts_with(s, wald_prefix()) && s.len() > 12 && s[11] == '/' && is_hex_id(
        s.subrange(5, 11),
    ) {
        Some((s.subrange(5, 11), s.subrange(12, s.len() as int)))
    } else {
        None
    }
}

/// Calls `getrandom::getrandom` on a buffer of `n` bytes. On success the
/// buffer comes back with its `n` bytes filled; nothing is known of them.
#[verifier::external_body]
fn random_bytes(n: usize) -> (r: Result<Vec<u8>, getrandom::Error>)
    ensures
        r matches Ok(bytes) ==> bytes@.len() == n,
{
    let mut buf = vec![0u8; n];
    getrandom::getrandom(&mut buf)?;
    Ok(buf)
}

/// Calls `hex::encode`, which writes each byte as two lowercase hexadecimal
/// digits, the high one first.
#[verifier::external_body]
fn hex_encode(bytes: &Vec<u8>) -> (s: String)
    ensures
        s@ == hex_of(bytes@),
{
    hex::encode(bytes)
}

/// Three bytes are written as six lowercase hexadecimal digits.
pub proof fn lemma_hex_of_three(bytes: Seq<u8>)
    requires
        bytes.len() == 3,
    ensures
        is_baum_id(hex_of(bytes)),
{
    assert forall|i: int| 0 <= i < 6 implies is_lower_hex(#[trigger] hex_of(bytes)[i]) by {
        let b = bytes[i / 2] as int;
        assert(0 <= b / 16 < 16 && 0 <= b % 16 < 16);
    }
}

/// The ID that three random bytes stand for, unless it is already taken.
pub fn pick_baum_id(existing_ids: &StringSet, bytes: &Vec<u8>) -> (r: Option<String>)
    requires
        bytes@.len() == 3,
    ensures
        r.is_some() == !existing_ids@.contains(hex_of(bytes@)),
        r matches Some(id) ==> id@ == hex_of(bytes@) && is_baum_id(id@),
{
    let id = hex_encode(bytes);
    proof {
        lemma_hex_of_three(bytes@);
    }
    if existing_ids.contains(id.as_str()) {
        None
    } else {
        Some(id)
    }
}

/// Generates a baum ID that is not in `existing_ids`.
///
/// Draws three random bytes and retries on a collision, at most
/// `MAX_ID_ATTEMPTS` times. Whatever the random source hands out, an ID that
/// is returned is six lowercase hexadecimal digits and is not taken. The
/// draws are reported as exhausted only after a draw that was a well-formed
/// ID and was taken: against an empty set the first draw is returned.
pub fn generate_baum_id(existing_ids: &StringSet) -> (r: Result<String, IdError>)
    ensures
        r matches Ok(id) ==> is_baum_id(id@) && !existing_ids@.contains(id@),
        r == Err::<String, IdError>(IdError::Exhausted) ==> exists|id: Seq<char>|
            is_baum_id(id) && #[trigger] existing_ids@.contains(id),
{
    let mut attempt: u32 = 0;
    while attempt < MAX_ID_ATTEMPTS
        invariant
            attempt <= MAX_ID_ATTEMPTS,
            attempt > 0 ==> exists|id: Seq<char>|
                is_baum_id(id) && #[trigger] existing_ids@.contains(id),
        decreases MAX_ID_ATTEMPTS - attempt,
    {
        match random_bytes(3) {
            Err(_) => {
                return Err(IdError::RandomSource);
            },
            Ok(bytes) => {
                if let Some(id) = pick_baum_id(existing_ids, &bytes) {
                    return Ok(id);
                }
                proof {
                    lemma_hex_of_three(bytes@);
                    assert(existing_ids@.contains(hex_of(bytes@)));
                }
            },
        }
        attempt += 1;
    }
    Err(IdError::Exhausted)
}

/// Checks whether a string is a baum ID: six lowercase hexadecimal digits.
pub fn is_valid_baum_id(id: &str) -> (r: bool)
    ensures
        r == is_baum_id(id@),
{
    let v = to_chars(id);
    if v.len() != 6 {
        return false;
    }
    let mut i: usize = 0;
    while i < 6
        invariant
            i <= 6,
            v.len() == 6,
            v@ == id@,
            forall|j: int| 0 <= j < i ==> is_lower_hex(#[trigger] v@[j]),
        decreases 6 - i,
    {
        let c = v[i];
        if !(('0' <= c && c <= '9') || ('a' <= c && c <= 'f')) {
            assert(!is_lower_hex(v@[i as int]));
            return false;
        }
        i += 1;
    }
    true
}

/// Formats the tracking-branch name `wald/<baum_id>/<branch>`.
pub fn format_wald_branch(baum_id: &str, branch: &str) -> (out: String)
    ensures
        out@ == tracking_name(baum_id@, branch@),
{
    let mut out: Vec<char> = Vec::new();
    out.push('w');
    out.push('a');
    out.push('l');
    out.push('d');
    out.push('/');
    assert(out@ == wald_prefix());
    let id = to_chars(baum_id);
    push_all(&mut out, &id);
    out.push('/');
    let b = to_chars(branch);
    push_all(&mut out, &b);
    from_chars(&out)
}

/// Parses a tracking-branch name into its baum ID and its branch.
pub fn parse_wald_branch(branch: &str) -> (r: Option<(String, String)>)
    ensures
        match r {
            Some((id, rest)) => parsed_tracking(branch@) == Some((id@, rest@)),
            None => parsed_tracking(branch@).is_none(),
        },
{
    let v = to_chars(branch);
    if v.len() <= 12 {
        return None;
    }
    if !(v[0] == 'w' && v[1] == 'a' && v[2] == 'l' && v[3] == 'd' && v[4] == '/') {
        assert(v@.subrange(0, 5)[0] == v@[0]);
        assert(v@.subrange(0, 5)[1] == v@[1]);
        assert(v@.subrange(0, 5)[2] == v@[2]);
        assert(v@.subrange(0, 5)[3] == v@[3]);
        assert(v@.subrange(0, 5)[4] == v@[4]);
        return None;
    }
    assert(v@.subrange(0, 5) == wald_prefix());
    if v[11] != '/' {
        return None;
    }
    let mut i: usize = 5;
    while i < 11
        invariant
            5 <= i <= 11,
            v.len() > 12,
            v@ == branch@,
            forall|j: int| 5 <= j < i ==> is_hex(v@[j]),
        decreases 11 - i,
    {
        if !is_ascii_hexdigit(v[i]) {
            assert(v@.subrange(5, 11)[i - 5] == v@[i as int]);
            assert(!is_hex(v@.subrange(5, 11)[i - 5]));
            return None;
        }
        i += 1;
    }
    let id = subvec(&v, 5, 11);
    let rest = subvec(&v, 12, v.len());
    assert(is_hex_id(id@)) by {
        assert forall|j: int| 0 <= j < 6 implies is_hex(#[trigger] id@[j]) by {
            assert(id@[j] == v@[5 + j]);
        }
    }
    Some((from_chars(&id), from_chars(&rest)))
}

/// Parsing a formatted tracking-branch name gives back the ID and the
/// branch, for every ID of six hexadecimal digits and every branch that is
/// not empty.
pub proof fn lemma_tracking_round_trip(id: Seq<char>, branch: Seq<char>)
    requires
        is_hex_id(id),
        branch.len() > 0,
    ensures
        parsed_tracking(tracking_name(id, branch)) == Some((id, branch)),
{
    let s = tracking_name(id, branch);
    assert(s.subrange(0, 5) == wald_prefix());
    assert(s.subrange(5, 11) == id);
    assert(s.subrange(12, s.len() as int) == branch);
    assert(s[11] == '/');
}

/// A generated ID is one that the parser accepts.
pub proof fn lemma_baum_id_is_hex_id(id: Seq<char>)
    requires
        is_baum_id(id),
    ensures
        is_hex_id(id),
{
}

/// The set that `existing` has grown to once the first `n` of `ids` have
/// joined it.
pub open spec fn grown(existing: Set<Seq<char>>, ids: Seq<Seq<char>>, n: int) -> Set<Seq<char>> {
    existing.union(ids.take(n).to_set())
}

/// IDs generated against a growing set never repeat.
///
/// Let each of `ids` be new to the set that `existing` had grown to when it
/// was generated, as `generate_baum_id` promises of what it returns. Then no
/// two of them are equal, and none was in `existing` to begin with.
pub proof fn lemma_generated_ids_are_distinct(existing: Set<Seq<char>>, ids: Seq<Seq<char>>)
    requires
        forall|i: int| 0 <= i < ids.len() ==> !grown(existing, ids, i).contains(#[trigger] ids[i]),
    ensures
        ids.no_duplicates(),
        forall|i: int| 0 <= i < ids.len() ==> !existing.contains(#[trigger] ids[i]),
{
    assert forall|i: int, j: int| 0 <= i < j < ids.len() implies ids[i] != ids[j] by {
        assert(!grown(existing, ids, j).contains(ids[j]));
        assert(ids.take(j)[i] == ids[i]);
        assert(ids.take(j).to_set().contains(ids[i]));
    }
    assert forall|i: int| 0 <= i < ids.len() implies !existing.contains(#[trigger] ids[i]) by {
        assert(!grown(existing, ids, i).contains(ids[i]));
    }
}

} // verus!
