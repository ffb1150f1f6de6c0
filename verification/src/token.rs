//! The suggestion of access tokens: sixteen symbols, each drawn at random from the
//! letters and digits of ASCII.

use vstd::prelude::*;
use rand::Rng;
use crate::auth::AuthManager;

verus! {

/// The symbols that a suggested token is made of: the 62 letters and digits of ASCII.
pub const TOKEN_ALPHABET: &'static str =
    "ABCDEFGHIJKLMNOPQRSTUVWXYZabcdefghijklmnopqrstuvwxyz0123456789";

/// The number of symbols in `TOKEN_ALPHABET`.
pub const TOKEN_SYMBOLS: usize = 62;

/// The number of characters of a suggested token.
pub const SUGGESTED_TOKEN_CHARS: usize = 16;

/// Calls `rand::rng` for the thread's generator and `random_range` on it for an index
/// in `0..bound`. The index depends on chance; what holds of every draw is that it lies
/// in the range. An empty range makes the call panic, so `bound` is positive. The call
/// also panics where the operating system cannot seed the generator.
#[verifier::external_body]
fn random_index(bound: usize) -> (index: usize)
    requires
        bound > 0,
    ensures
        index < bound,
{
    rand::rng().random_range(0..bound)
}

/// The token that a sequence of draws spells: for each draw the symbol of the alphabet
/// at that index, counted round the alphabet.
pub open spec fn token_of_draws(draws: Seq<usize>) -> Seq<char> {
    Seq::new(draws.len(), |i: int| TOKEN_ALPHABET@[draws[i] as int % TOKEN_SYMBOLS as int])
}

/// Spells the token of `draws`.
pub fn token_from_draws(draws: &Vec<usize>) -> (token: String)
    ensures
        token@ == token_of_draws(draws@),
{
    proof {
        reveal_strlit("ABCDEFGHIJKLMNOPQRSTUVWXYZabcdefghijklmnopqrstuvwxyz0123456789");
    }
    let mut token = String::new();
    let mut at: usize = 0;
    while at < draws.len()
        invariant
            at <= draws.len(),
            TOKEN_ALPHABET@.len() == TOKEN_SYMBOLS,
            token@ == token_of_draws(draws@.take(at as int)),
        decreases draws.len() - at,
    {
        let index = draws[at] % TOKEN_SYMBOLS;
        let symbol = TOKEN_ALPHABET.substring_char(index, index + 1);
        proof {
            assert(symbol@ =~= seq![TOKEN_ALPHABET@[index as int]]);
            assert(token_of_draws(draws@.take(at + 1)) =~= token_of_draws(
                draws@.take(at as int),
            ) + symbol@);
        }
        token.append(symbol);
        at += 1;
    }
    proof {
        assert(draws@.take(at as int) == draws@);
    }
    token
}

impl AuthManager {
    /// Suggests an access token: `SUGGESTED_TOKEN_CHARS` symbols of `TOKEN_ALPHABET`, each
    /// drawn at random. The caller is free to use another token.
    pub fn generate_suggested_token() -> (token: String)
        ensures
            token@.len() == SUGGESTED_TOKEN_CHARS,
            forall|i: int| 0 <= i < token@.len() ==> TOKEN_ALPHABET@.contains(#[trigger] token@[i]),
    {
        proof {
            reveal_strlit("ABCDEFGHIJKLMNOPQRSTUVWXYZabcdefghijklmnopqrstuvwxyz0123456789");
        }
        let mut draws: Vec<usize> = Vec::new();
        while draws.len() < SUGGESTED_TOKEN_CHARS
            invariant
                draws.len() <= SUGGESTED_TOKEN_CHARS,
            decreases SUGGESTED_TOKEN_CHARS - draws.len(),
        {
            draws.push(random_index(TOKEN_SYMBOLS));
        }
        let token = token_from_draws(&draws);
        proof {
            assert forall|i: int| 0 <= i < token@.len() implies TOKEN_ALPHABET@.contains(
                #[trigger] token@[i],
            ) by {
                let index = draws@[i] as int % TOKEN_SYMBOLS as int;
                assert(TOKEN_ALPHABET@[index] == token@[i]);
            }
        }
        token
    }
}

} // verus!
