//! HTTP methods, compared without regard to ASCII case.

use crate::text::{is_token, is_token_char, upper, uppered};
use vstd::prelude::*;

verus! {

/// A request method: an HTTP token, held in upper case.
#[derive(Debug, PartialEq, Eq)]
pub struct Method {
    token: String,
}

impl View for Method {
    type V = Seq<char>;

    closed spec fn view(&self) -> Seq<char> {
        self.token@
    }
}

impl DeepView for Method {
    type V = Seq<char>;

    open spec fn deep_view(&self) -> Seq<char> {
        self@
    }
}

impl Method {
    #[verifier::type_invariant]
    spec fn holds_a_token(self) -> bool {
        is_token(self.token@) && uppered(self.token@) == self.token@
    }

    /// Reads a method from its token. Case is normalised: `get` and `GET`
    /// give the same method. Anything but a token is refused.
    pub fn from_str(token: &str) -> (method: Option<Method>)
        ensures
            method is Some == is_token(token@),
            method matches Some(m) ==> m@ == uppered(token@),
    {
        let token_upper = token.to_ascii_uppercase();
        proof {
            uppered_is_token(token@);
            crate::text::uppered_twice(token@);
        }
        if method_token_is_valid(token_upper.as_str()) {
            Some(Method { token: token_upper })
        } else {
            None
        }
    }

    /// The token, in upper case.
    pub fn as_str(&self) -> (token: &str)
        ensures
            token@ == self@,
            is_token(token@),
            uppered(token@) == token@,
    {
        proof {
            use_type_invariant(self);
        }
        self.token.as_str()
    }

    /// Says whether the two methods are the same.
    pub fn same_as(&self, other: &Method) -> (same: bool)
        ensures
            same == (self@ == other@),
    {
        self.token == other.token
    }
}

impl Clone for Method {
    fn clone(&self) -> (copy: Self)
        ensures
            copy@ == self@,
    {
        proof {
            use_type_invariant(self);
        }
        Method { token: self.token.clone() }
    }
}

/// Changing the case of a token's letters leaves it a token, and the other way
/// round.
pub proof fn uppered_is_token(text: Seq<char>)
    ensures
        is_token(uppered(text)) == is_token(text),
{
    assert forall|c: char| is_token_char(upper(c)) == is_token_char(c) by {}
    if is_token(uppered(text)) {
        assert forall|i: int| 0 <= i < text.len() implies is_token_char(#[trigger] text[i]) by {
            assert(is_token_char(uppered(text)[i]));
        }
    }
}

/// `str::to_ascii_uppercase`: each ASCII small letter becomes its capital, and
/// nothing else changes.
pub assume_specification[ str::to_ascii_uppercase ](text: &str) -> (upper_case: String)
    ensures
        upper_case@ == uppered(text@),
;

/// `Method::from_bytes` of the `http` crate: it accepts tokens and nothing else.
#[verifier::external_body]
pub(crate) fn method_token_is_valid(token: &str) -> (valid: bool)
    ensures
        valid == is_token(token@),
{
    reqwest::Method::from_bytes(token.as_bytes()).is_ok()
}

} // verus!
