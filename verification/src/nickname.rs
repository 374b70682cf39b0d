use vstd::prelude::*;

use crate::errors::Error;

verus! {

/// Characters allowed in a hidden-service nickname: lowercase ASCII
/// alphanumerics, underscore, and hyphen. This is the slug syntax that the
/// onion-service stack uses for on-disk identifiers.
pub open spec fn is_nickname_char(c: char) -> bool {
    ||| 'a' <= c && c <= 'z'
    ||| '0' <= c && c <= '9'
    ||| c == '_'
    ||| c == '-'
}

/// A valid nickname is nonempty, does not start with a hyphen, and consists
/// only of nickname characters.
pub open spec fn is_valid_nickname(s: Seq<char>) -> bool {
    &&& s.len() > 0
    &&& s[0] != '-'
    &&& forall|i: int| 0 <= i < s.len() ==> is_nickname_char(#[trigger] s[i])
}

/// Decide whether a string is a syntactically valid hidden-service nickname.
pub fn nickname_is_valid(s: &str) -> (r: bool)
    ensures
        r == is_valid_nickname(s@),
{
    let n: usize = s.unicode_len();
    if n == 0 {
        return false;
    }
    if s.get_char(0) == '-' {
        return false;
    }
    let mut i: usize = 0;
    while i < n
        invariant
            n == s@.len(),
            i <= n,
            forall|j: int| 0 <= j < i ==> is_nickname_char(#[trigger] s@[j]),
        decreases n - i,
    {
        let c: char = s.get_char(i);
        let ok: bool = ('a' <= c && c <= 'z') || ('0' <= c && c <= '9') || c == '_' || c == '-';
        if !ok {
            return false;
        }
        i += 1;
    }
    true
}

/// A validated hidden-service nickname: a short identifier that keys the
/// service's on-disk identity.
#[derive(Debug, Clone, PartialEq, Eq)]
pub struct Nickname {
    inner: String,
}

impl View for Nickname {
    type V = Seq<char>;

    closed spec fn view(&self) -> Seq<char> {
        self.inner@
    }
}

impl Nickname {
    /// A well-formed nickname always satisfies the validity predicate.
    pub open spec fn wf(&self) -> bool {
        is_valid_nickname(self@)
    }

    /// Validate a caller-supplied string as a nickname. Returns the
    /// distinguished nickname error exactly on invalid input.
    pub fn new(s: String) -> (r: Result<Nickname, Error>)
        ensures
            r is Ok <==> is_valid_nickname(s@),
            r matches Ok(n) ==> n@ == s@ && n.wf(),
            r matches Err(e) ==> e is InvalidNickname && e.message_spec()
                == crate::errors::invalid_nickname_text(),
    {
        if nickname_is_valid(s.as_str()) {
            Ok(Nickname { inner: s })
        } else {
            Err(Error::invalid_nickname_error())
        }
    }

    /// The nickname as a string slice.
    pub fn as_str(&self) -> (r: &str)
        ensures
            r@ == self@,
    {
        self.inner.as_str()
    }
}

} // verus!
