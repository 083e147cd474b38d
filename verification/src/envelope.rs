//! The guard prefix that the export endpoint puts before its JSON.

use vstd::prelude::*;

verus! {

/// The five characters that open every response body: `)]}'` and a line feed.
pub open spec fn envelope() -> Seq<char> {
    seq![')', ']', '}', '\'', '\n']
}

/// Whether a body opens with the guard prefix.
pub open spec fn has_envelope(body: Seq<char>) -> bool {
    body.len() >= 5 && body.subrange(0, 5) == envelope()
}

/// What follows the guard prefix.
pub open spec fn payload(body: Seq<char>) -> Seq<char> {
    body.subrange(5, body.len() as int)
}

/// Takes the guard prefix off a response body. `None` if the body does not
/// open with it.
pub fn strip_envelope(body: &str) -> (r: Option<&str>)
    ensures
        match r {
            Some(rest) => has_envelope(body@) && rest@ == payload(body@),
            None => !has_envelope(body@),
        },
{
    let n: usize = body.unicode_len();
    if n < 5 {
        return None;
    }
    let opens: bool = body.get_char(0) == ')' && body.get_char(1) == ']' && body.get_char(2) == '}'
        && body.get_char(3) == '\'' && body.get_char(4) == '\n';
    if opens {
        assert(body@.subrange(0, 5) =~= envelope());
        Some(body.substring_char(5, n))
    } else {
        assert(body@.subrange(0, 5)[0] == body@[0]);
        assert(body@.subrange(0, 5)[1] == body@[1]);
        assert(body@.subrange(0, 5)[2] == body@[2]);
        assert(body@.subrange(0, 5)[3] == body@[3]);
        assert(body@.subrange(0, 5)[4] == body@[4]);
        None
    }
}

} // verus!
