use vstd::prelude::*;

use rand::{thread_rng, Rng};

use crate::common::id::{bs58_decoded, bs58_encoded, decode_base58_into, encode_base58};

verus! {

/// Why a text is not a token.
#[derive(Debug)]
pub enum TokenDecodeError {
    BS58DecodeError(bs58::decode::Error),
    WrongLength,
}

/// A 32-byte secret, written as base 58 text.
#[derive(Clone, Copy, Debug, Hash)]
pub struct Token(pub [u8; 32]);

impl View for Token {
    type V = Seq<u8>;

    open spec fn view(&self) -> Seq<u8> {
        self.0@
    }
}

impl PartialEq for Token {
    /// Tokens are equal when they have the same bytes.
    fn eq(&self, other: &Token) -> (r: bool) {
        let mut i: usize = 0;
        while i < 32
            invariant
                0 <= i <= 32,
                forall|j: int| 0 <= j < i ==> self@[j] == other@[j],
            decreases 32 - i,
        {
            if self.0[i] != other.0[i] {
                return false;
            }
            i = i + 1;
        }
        assert(self@ =~= other@);
        true
    }
}

impl vstd::std_specs::cmp::PartialEqSpecImpl for Token {
    open spec fn obeys_eq_spec() -> bool {
        true
    }

    open spec fn eq_spec(&self, other: &Token) -> bool {
        self@ == other@
    }
}

impl Eq for Token {

}

impl Token {
    /// A fresh random token. Trusted: it calls `rand`'s thread-local
    /// generator, and nothing is claimed of the bytes it returns.
    #[verifier::external_body]
    pub fn new() -> Token {
        Token(thread_rng().gen())
    }

    /// Reads a token from its base 58 text: it must decode to exactly 32
    /// bytes.
    pub fn decode(s: String) -> (r: Result<Token, TokenDecodeError>)
        ensures
            r is Ok <==> (bs58_decoded(s@) matches Some(d) && d.len() == 32),
            r matches Ok(t) ==> bs58_decoded(s@) == Some(t@),
            r matches Err(TokenDecodeError::WrongLength) ==> bs58_decoded(s@) matches Some(d)
                && d.len() < 32,
            r matches Err(TokenDecodeError::BS58DecodeError(_)) ==> (bs58_decoded(s@) is None
                || bs58_decoded(s@).unwrap().len() > 32),
    {
        let mut buffer: [u8; 32] = [0;32];
        let size = match decode_base58_into(s.as_str(), &mut buffer) {
            Ok(size) => size,
            Err(e) => {
                return Err(TokenDecodeError::BS58DecodeError(e));
            },
        };
        if size != 32 {
            return Err(TokenDecodeError::WrongLength);
        }
        assert(buffer@.take(32) =~= buffer@);
        Ok(Token(buffer))
    }

    /// The base 58 text of the token.
    pub fn encode(&self) -> (r: String)
        ensures
            r@ == bs58_encoded(self@),
            bs58_decoded(r@) == Some(self@),
    {
        encode_base58(&self.0)
    }
}

} // verus!
