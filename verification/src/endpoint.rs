//! Endpoint tokens: which of them mean a standard stream, how many of a
//! group claim it, and what each resolves to.

use vstd::prelude::*;
use vstd::string::*;
use crate::error::{Direction, Error};

verus! {

/// `s` is the sentinel: exactly the one character `-`.
pub open spec fn spec_is_dash(s: Seq<char>) -> bool {
    s.len() == 1 && s[0] == '-'
}

/// The token of one role claims the standard stream: it is present and is
/// the sentinel. An absent token claims nothing.
pub open spec fn claims_standard_stream(token: Option<&str>) -> bool {
    match token {
        Some(s) => spec_is_dash(s@),
        None => false,
    }
}

/// How many of `tokens` claim the standard stream.
pub open spec fn spec_dash_count(tokens: Seq<Option<&str>>) -> nat
    decreases tokens.len(),
{
    if tokens.len() == 0 {
        0
    } else {
        spec_dash_count(tokens.drop_last()) + if claims_standard_stream(tokens.last()) {
            1nat
        } else {
            0nat
        }
    }
}

/// No group holds more claims than tokens.
pub proof fn lemma_dash_count_bounded(tokens: Seq<Option<&str>>)
    ensures
        spec_dash_count(tokens) <= tokens.len(),
    decreases tokens.len(),
{
    if tokens.len() > 0 {
        lemma_dash_count_bounded(tokens.drop_last());
    }
}

/// Returns whether a string is the sentinel `-`.
pub fn is_dash(s: &str) -> (r: bool)
    ensures
        r == spec_is_dash(s@),
{
    if s.unicode_len() == 1 {
        s.get_char(0) == '-'
    } else {
        false
    }
}

/// Counts the tokens of one direction that claim its standard stream.
pub fn dash_count(tokens: &[Option<&str>]) -> (count: usize)
    ensures
        count == spec_dash_count(tokens@),
{
    let mut count: usize = 0;
    let mut i: usize = 0;
    while i < tokens.len()
        invariant
            0 <= i <= tokens@.len(),
            count == spec_dash_count(tokens@.take(i as int)),
        decreases tokens@.len() - i,
    {
        let claimed = match tokens[i] {
            Some(s) => is_dash(s),
            None => false,
        };
        proof {
            lemma_dash_count_bounded(tokens@.take(i as int));
            assert(tokens@.take(i + 1).drop_last() =~= tokens@.take(i as int));
            assert(tokens@.take(i + 1).last() == tokens@[i as int]);
        }
        if claimed {
            count = count + 1;
        }
        i = i + 1;
    }
    proof {
        assert(tokens@.take(i as int) =~= tokens@);
    }
    count
}

/// What a token resolves to, before anything is opened.
#[derive(Clone, Debug, PartialEq, Eq)]
pub enum Endpoint {
    /// The standard stream of the role's direction.
    StandardStream,
    /// The file at this path.
    File(String),
}

/// The endpoint that `token` denotes.
pub open spec fn spec_resolve(token: Seq<char>, e: Endpoint) -> bool {
    if spec_is_dash(token) {
        e is StandardStream
    } else {
        e matches Endpoint::File(path) && path@ == token
    }
}

/// Maps a token to its endpoint: the sentinel to the standard stream, any
/// other text to the file of that path. Nothing is opened.
pub fn resolve(token: &str) -> (e: Endpoint)
    ensures
        spec_resolve(token@, e),
{
    if is_dash(token) {
        Endpoint::StandardStream
    } else {
        Endpoint::File(String::from_str(token))
    }
}

/// The token of a role whose absence means the standard stream.
pub fn token_or_default<'a>(token: Option<&'a str>) -> (t: &'a str)
    ensures
        match token {
            Some(s) => t@ == s@,
            None => spec_is_dash(t@),
        },
{
    match token {
        Some(s) => s,
        None => {
            proof {
                reveal_strlit("-");
            }
            "-"
        },
    }
}

/// A group with a claim at some position holds at least one claim.
pub proof fn lemma_claim_counts(tokens: Seq<Option<&str>>, i: int)
    requires
        0 <= i < tokens.len(),
        claims_standard_stream(tokens[i]),
    ensures
        spec_dash_count(tokens) >= 1,
    decreases tokens.len(),
{
    if i < tokens.len() - 1 {
        lemma_claim_counts(tokens.drop_last(), i);
    }
}

/// A group in which two different roles claim the standard stream holds
/// more than one claim, whatever else it holds.
pub proof fn lemma_two_claims_conflict(tokens: Seq<Option<&str>>, i: int, j: int)
    requires
        0 <= i < j < tokens.len(),
        claims_standard_stream(tokens[i]),
        claims_standard_stream(tokens[j]),
    ensures
        spec_dash_count(tokens) > 1,
    decreases tokens.len(),
{
    if j < tokens.len() - 1 {
        lemma_two_claims_conflict(tokens.drop_last(), i, j);
    } else {
        lemma_claim_counts(tokens.drop_last(), i);
    }
}

/// The verdict on the tokens of one invocation: the input group is judged
/// first, then the output group.
pub open spec fn spec_check_streams(
    inputs: Seq<Option<&str>>,
    outputs: Seq<Option<&str>>,
) -> Result<(), Error> {
    if spec_dash_count(inputs) > 1 {
        Err(Error::AmbiguousStandardStream(Direction::Input))
    } else if spec_dash_count(outputs) > 1 {
        Err(Error::AmbiguousStandardStream(Direction::Output))
    } else {
        Ok(())
    }
}

/// Rejects an invocation in which more than one input role claims standard
/// input, or more than one output role claims standard output. It reads
/// token values only: nothing is opened or consumed.
pub fn check_streams(inputs: &[Option<&str>], outputs: &[Option<&str>]) -> (r: Result<(), Error>)
    ensures
        r == spec_check_streams(inputs@, outputs@),
{
    if dash_count(inputs) > 1 {
        Err(Error::AmbiguousStandardStream(Direction::Input))
    } else if dash_count(outputs) > 1 {
        Err(Error::AmbiguousStandardStream(Direction::Output))
    } else {
        Ok(())
    }
}

/// The tokens of one encryption or decryption, as they were given. The
/// key, the payload and the primary output fall back to the standard stream
/// where absent; the two nonce roles do not. A decryption has no nonce
/// sink.
#[derive(Clone, Copy, Debug, PartialEq, Eq)]
pub struct Request<'a> {
    pub key: Option<&'a str>,
    pub input: Option<&'a str>,
    pub output: Option<&'a str>,
    pub use_nonce: Option<&'a str>,
    pub write_nonce: Option<&'a str>,
}

/// The endpoints of one invocation, resolved and not yet opened.
#[derive(Clone, Debug, PartialEq, Eq)]
pub struct Plan {
    pub key: Endpoint,
    pub input: Endpoint,
    pub output: Endpoint,
    pub use_nonce: Option<Endpoint>,
    pub write_nonce: Option<Endpoint>,
}

/// The token of a role after defaulting: an absent one is the sentinel.
pub open spec fn spec_defaulted(token: Option<&str>) -> Seq<char> {
    match token {
        Some(s) => s@,
        None => seq!['-'],
    }
}

/// An absent token of a defaulting role claims the standard stream, a
/// present one claims it where it is the sentinel.
pub open spec fn defaulted_claims(token: Option<&str>) -> bool {
    spec_is_dash(spec_defaulted(token))
}

/// The endpoint of an optional role: none where the token is absent.
pub open spec fn spec_resolve_optional(token: Option<&str>, e: Option<Endpoint>) -> bool {
    match token {
        Some(s) => e matches Some(endpoint) && spec_resolve(s@, endpoint),
        None => e is None,
    }
}

/// Resolves the token of a role that has no default.
pub fn resolve_optional(token: Option<&str>) -> (e: Option<Endpoint>)
    ensures
        spec_resolve_optional(token, e),
{
    match token {
        Some(s) => Some(resolve(s)),
        None => None,
    }
}

impl<'a> Request<'a> {
    /// The number of input roles that claim standard input, defaults
    /// applied.
    pub open spec fn input_claims(&self) -> nat {
        (if defaulted_claims(self.key) { 1nat } else { 0nat })
            + (if defaulted_claims(self.input) { 1nat } else { 0nat })
            + (if claims_standard_stream(self.use_nonce) { 1nat } else { 0nat })
    }

    /// The number of output roles that claim standard output, defaults
    /// applied.
    pub open spec fn output_claims(&self) -> nat {
        (if defaulted_claims(self.output) { 1nat } else { 0nat })
            + (if claims_standard_stream(self.write_nonce) { 1nat } else { 0nat })
    }

    /// The conflict that the request holds, if any: inputs are judged
    /// before outputs.
    pub open spec fn conflict(&self) -> Option<Error> {
        if self.input_claims() > 1 {
            Some(Error::AmbiguousStandardStream(Direction::Input))
        } else if self.output_claims() > 1 {
            Some(Error::AmbiguousStandardStream(Direction::Output))
        } else {
            None
        }
    }

    /// A request in which two of the key, the payload and the nonce source
    /// claim standard input is in conflict, whatever its other tokens are.
    pub proof fn lemma_two_inputs_conflict(&self)
        requires
            (defaulted_claims(self.key) && defaulted_claims(self.input)) || (defaulted_claims(
                self.key,
            ) && claims_standard_stream(self.use_nonce)) || (defaulted_claims(self.input)
                && claims_standard_stream(self.use_nonce)),
        ensures
            self.conflict() == Some(Error::AmbiguousStandardStream(Direction::Input)),
    {
    }

    /// A request in which the primary output and the nonce sink both claim
    /// standard output is in conflict, whatever its other tokens are.
    pub proof fn lemma_two_outputs_conflict(&self)
        requires
            defaulted_claims(self.output),
            claims_standard_stream(self.write_nonce),
        ensures
            self.conflict() matches Some(Error::AmbiguousStandardStream(_)),
            self.input_claims() <= 1 ==> self.conflict() == Some(
                Error::AmbiguousStandardStream(Direction::Output),
            ),
    {
    }

    /// Applies the defaults, validates the whole request and only then
    /// resolves its tokens, so that a conflict leaves nothing resolved.
    pub fn plan(&self) -> (r: Result<Plan, Error>)
        ensures
            match self.conflict() {
                Some(e) => r == Err::<Plan, Error>(e),
                None => r matches Ok(plan) && {
                    &&& spec_resolve(spec_defaulted(self.key), plan.key)
                    &&& spec_resolve(spec_defaulted(self.input), plan.input)
                    &&& spec_resolve(spec_defaulted(self.output), plan.output)
                    &&& spec_resolve_optional(self.use_nonce, plan.use_nonce)
                    &&& spec_resolve_optional(self.write_nonce, plan.write_nonce)
                },
            },
    {
        let key = token_or_default(self.key);
        let input = token_or_default(self.input);
        let output = token_or_default(self.output);
        let inputs = [Some(key), Some(input), self.use_nonce];
        let outputs = [Some(output), self.write_nonce];
        proof {
            lemma_count_of_three(inputs@);
            lemma_count_of_two(outputs@);
        }
        match check_streams(inputs.as_slice(), outputs.as_slice()) {
            Ok(()) => Ok(
                Plan {
                    key: resolve(key),
                    input: resolve(input),
                    output: resolve(output),
                    use_nonce: resolve_optional(self.use_nonce),
                    write_nonce: resolve_optional(self.write_nonce),
                },
            ),
            Err(e) => Err(e),
        }
    }
}

/// The claims of a group of two, one by one.
proof fn lemma_count_of_two(tokens: Seq<Option<&str>>)
    requires
        tokens.len() == 2,
    ensures
        spec_dash_count(tokens) == (if claims_standard_stream(tokens[0]) { 1nat } else { 0nat })
            + (if claims_standard_stream(tokens[1]) { 1nat } else { 0nat }),
{
    let one = tokens.drop_last();
    assert(spec_dash_count(one.drop_last()) == 0);
    assert(spec_dash_count(one) == if claims_standard_stream(tokens[0]) {
        1nat
    } else {
        0nat
    });
}

/// The claims of a group of three, one by one.
proof fn lemma_count_of_three(tokens: Seq<Option<&str>>)
    requires
        tokens.len() == 3,
    ensures
        spec_dash_count(tokens) == (if claims_standard_stream(tokens[0]) { 1nat } else { 0nat })
            + (if claims_standard_stream(tokens[1]) { 1nat } else { 0nat })
            + (if claims_standard_stream(tokens[2]) { 1nat } else { 0nat }),
{
    lemma_count_of_two(tokens.drop_last());
}

} // verus!
