//! Characters and ASCII case, as HTTP tokens use them.
//!
//! The one contract taken on trust here is that of the comparison without
//! regard to case, at the end of the file.

use vstd::prelude::*;

verus! {

/// The characters of an HTTP token: letters, digits and fifteen marks.
pub open spec fn is_token_char(c: char) -> bool {
    ||| '0' <= c <= '9'
    ||| 'a' <= c <= 'z'
    ||| 'A' <= c <= 'Z'
    ||| c == '!'
    ||| c == '#'
    ||| c == '$'
    ||| c == '%'
    ||| c == '&'
    ||| c == '\''
    ||| c == '*'
    ||| c == '+'
    ||| c == '-'
    ||| c == '.'
    ||| c == '^'
    ||| c == '_'
    ||| c == '`'
    ||| c == '|'
    ||| c == '~'
}

/// A token is one or more token characters.
pub open spec fn is_token(text: Seq<char>) -> bool {
    &&& text.len() > 0
    &&& forall|i: int| 0 <= i < text.len() ==> is_token_char(#[trigger] text[i])
}

/// `c` with an ASCII capital replaced by its small letter.
pub open spec fn lower(c: char) -> char {
    if 'A' <= c <= 'Z' {
        ((c as u32) + 32) as char
    } else {
        c
    }
}

/// `c` with an ASCII small letter replaced by its capital.
pub open spec fn upper(c: char) -> char {
    if 'a' <= c <= 'z' {
        ((c as u32) - 32) as char
    } else {
        c
    }
}

/// `text` in ASCII lower case; other characters stay as they are.
pub open spec fn lowered(text: Seq<char>) -> Seq<char> {
    Seq::new(text.len(), |i: int| lower(text[i]))
}

/// `text` in ASCII upper case; other characters stay as they are.
pub open spec fn uppered(text: Seq<char>) -> Seq<char> {
    Seq::new(text.len(), |i: int| upper(text[i]))
}

/// Upper case is a fixed point of `uppered`.
pub proof fn uppered_twice(text: Seq<char>)
    ensures
        uppered(uppered(text)) == uppered(text),
{
}

/// `str::eq_ignore_ascii_case`: whether the two strings are the same once
/// each is brought into ASCII lower case.
pub assume_specification[ str::eq_ignore_ascii_case ](text: &str, other: &str) -> (same: bool)
    ensures
        same == (lowered(text@) == lowered(other@)),
;

} // verus!
