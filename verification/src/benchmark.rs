use vstd::prelude::*;

verus! {

/// The prompt size in tokens, estimated at four bytes a token, rounded up.
pub open spec fn spec_prompt_tokens(byte_len: int) -> int {
    (byte_len + 3) / 4
}

/// Estimates the number of tokens of a prompt of `byte_len` bytes.
pub fn estimate_prompt_tokens(byte_len: usize) -> (r: usize)
    ensures
        r == spec_prompt_tokens(byte_len as int),
{
    byte_len / 4 + if byte_len % 4 != 0 {
        1
    } else {
        0
    }
}

/// The monthly input token volumes of a prompt.
#[derive(Debug, Clone, Copy, PartialEq, Eq)]
pub struct TokenVolume {
    /// The tokens of one prompt.
    pub prompt_tokens: u64,
    /// The tokens billed a month when no prefix is cached.
    pub uncached_tokens: u64,
    /// The tokens billed a month when the prefix cache saves 90% of each prompt.
    pub cached_tokens: u64,
}

/// The monthly token volumes of a prompt of `byte_len` bytes sent `requests`
/// times a month, or `None` where the uncached volume exceeds `u64::MAX`.
pub fn monthly_token_volume(byte_len: usize, requests: u64) -> (r: Option<TokenVolume>)
    ensures
        r is Some <==> spec_prompt_tokens(byte_len as int) * requests <= u64::MAX,
        r matches Some(v) ==> {
            &&& v.prompt_tokens == spec_prompt_tokens(byte_len as int)
            &&& v.uncached_tokens == v.prompt_tokens * requests
            &&& v.cached_tokens == (v.prompt_tokens / 10) * requests
        },
{
    let prompt_tokens = estimate_prompt_tokens(byte_len) as u64;
    match prompt_tokens.checked_mul(requests) {
        None => None,
        Some(uncached_tokens) => {
            let tenth = prompt_tokens / 10;
            assert(tenth * requests <= prompt_tokens * requests) by (nonlinear_arith)
                requires
                    tenth <= prompt_tokens,
            ;
            let cached_tokens = tenth * requests;
            Some(TokenVolume { prompt_tokens, uncached_tokens, cached_tokens })
        },
    }
}

/// The token estimate is the number of bytes divided by four, rounded up: the
/// least count of tokens of four bytes that covers the prompt.
pub proof fn lemma_prompt_tokens_round_up(byte_len: nat)
    ensures
        4 * spec_prompt_tokens(byte_len as int) >= byte_len,
        4 * (spec_prompt_tokens(byte_len as int) - 1) < byte_len || byte_len == 0,
        spec_prompt_tokens(byte_len as int) >= 0,
{
}

} // verus!
