//! Integrity verification of a staged artifact: reading the digest out of
//! the digest command's output and comparing it against the expected hash.

use vstd::prelude::*;
use vstd::string::StrSliceExecFns;

verus! {

/// Why no digest could be computed for a staged artifact. A hash *mismatch*
/// is not such an error but a negative `VerificationResult`.
#[derive(Debug, PartialEq, Eq)]
pub enum VerifyError {
    /// The artifact could not be read in full or the digest operation did
    /// not complete, so no digest exists to compare.
    ComputeFailure,
}

/// The outcome of comparing a computed digest against the expected one.
#[derive(Debug)]
pub struct VerificationResult {
    pub matched: bool,
    pub computed_hash: String,
}

/// The whitespace characters that delimit tokens in the digest command's
/// output.
pub open spec fn is_space(c: char) -> bool {
    c == ' ' || c == '\t' || c == '\n' || c == '\r'
}

/// The given text without its leading whitespace.
pub open spec fn skip_spaces(s: Seq<char>) -> Seq<char>
    decreases s.len(),
{
    if s.len() == 0 {
        s
    } else if is_space(s[0]) {
        skip_spaces(s.drop_first())
    } else {
        s
    }
}

/// The maximal prefix of the given text that holds no whitespace.
pub open spec fn leading_token(s: Seq<char>) -> Seq<char>
    decreases s.len(),
{
    if s.len() == 0 || is_space(s[0]) {
        Seq::empty()
    } else {
        seq![s[0]] + leading_token(s.drop_first())
    }
}

/// The first whitespace-delimited token of the given text, if it holds one.
pub open spec fn first_token(s: Seq<char>) -> Option<Seq<char>> {
    if leading_token(skip_spaces(s)).len() == 0 {
        None
    } else {
        Some(leading_token(skip_spaces(s)))
    }
}

/// If everything before index `i` is whitespace and `i` is the text's end or
/// a non-whitespace position, then skipping leading whitespace lands at `i`.
proof fn lemma_skip_spaces_at(s: Seq<char>, i: int)
    requires
        0 <= i <= s.len(),
        forall|k: int| 0 <= k < i ==> is_space(s[k]),
        i == s.len() || !is_space(s[i]),
    ensures
        skip_spaces(s) =~= s.subrange(i, s.len() as int),
    decreases i,
{
    if i == 0 {
        assert(skip_spaces(s) =~= s.subrange(0, s.len() as int));
    } else {
        let t = s.drop_first();
        assert(forall|k: int| 0 <= k < i - 1 ==> is_space(t[k]));
        lemma_skip_spaces_at(t, i - 1);
        assert(t.subrange(i - 1, t.len() as int) =~= s.subrange(i, s.len() as int));
    }
}

/// If nothing before index `j` is whitespace and `j` is the text's end or a
/// whitespace position, then the leading token is exactly the prefix up to
/// `j`.
proof fn lemma_leading_token_at(s: Seq<char>, j: int)
    requires
        0 <= j <= s.len(),
        forall|k: int| 0 <= k < j ==> !is_space(s[k]),
        j == s.len() || is_space(s[j]),
    ensures
        leading_token(s) =~= s.subrange(0, j),
    decreases j,
{
    if j == 0 {
        assert(leading_token(s) =~= s.subrange(0, 0));
    } else {
        let t = s.drop_first();
        assert(forall|k: int| 0 <= k < j - 1 ==> !is_space(t[k]));
        lemma_leading_token_at(t, j - 1);
        assert(seq![s[0]] + t.subrange(0, j - 1) =~= s.subrange(0, j));
    }
}

/// Whether a character delimits tokens.
fn space_char(c: char) -> (r: bool)
    ensures
        r == is_space(c),
{
    c == ' ' || c == '\t' || c == '\n' || c == '\r'
}

/// Reads the computed digest out of the digest command's output: the first
/// whitespace-delimited token. Output with no token at all means the digest
/// operation produced nothing, which is a compute failure.
pub fn extract_digest(output: &str) -> (r: Result<String, VerifyError>)
    ensures
        match first_token(output@) {
            Some(t) => r matches Ok(h) && h@ == t,
            None => r == Err::<String, VerifyError>(VerifyError::ComputeFailure),
        },
{
    let len = output.unicode_len();
    let mut i: usize = 0;
    while i < len && space_char(output.get_char(i))
        invariant
            0 <= i <= len,
            len == output@.len(),
            forall|k: int| 0 <= k < i ==> is_space(output@[k]),
        decreases len - i,
    {
        i = i + 1;
    }
    proof {
        lemma_skip_spaces_at(output@, i as int);
    }
    if i == len {
        proof {
            assert(skip_spaces(output@) =~= Seq::<char>::empty());
        }
        return Err(VerifyError::ComputeFailure);
    }
    let mut j: usize = i;
    while j < len && !space_char(output.get_char(j))
        invariant
            i <= j <= len,
            len == output@.len(),
            forall|k: int| i <= k < j ==> !is_space(output@[k]),
        decreases len - j,
    {
        j = j + 1;
    }
    let token = output.substring_char(i, j);
    proof {
        let tail = output@.subrange(i as int, len as int);
        assert(forall|k: int| 0 <= k < j - i ==> !is_space(tail[k]));
        lemma_leading_token_at(tail, j - i);
        assert(tail.subrange(0, j - i) =~= output@.subrange(i as int, j as int));
    }
    Ok(token.to_owned())
}

/// What verification yields for a given digest-command output and expected
/// hash: `None` when no digest could be read, otherwise the matched flag and
/// the computed digest. The comparison is exact equality of the two hex
/// strings.
pub open spec fn verification_spec(output: Option<Seq<char>>, expected: Seq<char>) -> Option<
    (bool, Seq<char>),
> {
    match output {
        None => None,
        Some(o) => match first_token(o) {
            None => None,
            Some(t) => Some((t == expected, t)),
        },
    }
}

/// The view of an optional digest-command output.
pub open spec fn output_view(output: Option<String>) -> Option<Seq<char>> {
    match output {
        None => None,
        Some(s) => Some(s@),
    }
}

/// Verifies a staged artifact's content against the expected hash, given the
/// digest command's output over the staged file (`None` when the command
/// could not be run or did not complete). Yields `ComputeFailure` exactly
/// when no digest can be read from the output; otherwise the result records
/// the computed digest and whether it equals the expected hash.
pub fn verify(digest_output: Option<String>, expected: &String) -> (r: Result<
    VerificationResult,
    VerifyError,
>)
    ensures
        match verification_spec(output_view(digest_output), expected@) {
            Some((m, t)) => r matches Ok(v) && v.matched == m && v.computed_hash@ == t,
            None => r == Err::<VerificationResult, VerifyError>(VerifyError::ComputeFailure),
        },
{
    match digest_output {
        None => Err(VerifyError::ComputeFailure),
        Some(out) => match extract_digest(out.as_str()) {
            Err(e) => Err(e),
            Ok(h) => {
                let m = h == *expected;
                Ok(VerificationResult { matched: m, computed_hash: h })
            },
        },
    }
}

/// Verification is idempotent: any two verification outcomes obtained for
/// the same digest-command output and the same expected hash carry the same
/// matched flag and the same computed digest.
pub proof fn lemma_verify_idempotent(
    output: Option<Seq<char>>,
    expected: Seq<char>,
    r1: (bool, Seq<char>),
    r2: (bool, Seq<char>),
)
    requires
        verification_spec(output, expected) == Some(r1),
        verification_spec(output, expected) == Some(r2),
    ensures
        r1 == r2,
{
}

} // verus!
