//! The answer to ordinary messages.

use vstd::prelude::*;
use vstd::string::*;
use crate::model::opt_str;
use crate::text::{contains, lowercase, occurs_at, occurs_in, to_lowercase};

verus! {

/// The reply to a message: `Says you dummy stfu` when the message, in lower
/// case, contains `dumb`; no reply otherwise.
pub open spec fn reply_for(content: Seq<char>) -> Option<Seq<char>> {
    if occurs_in(lowercase(content), "dumb"@) {
        Some("Says you dummy stfu"@)
    } else {
        None
    }
}

/// The reply to a message with this content, if any.
pub fn handle(content: &str) -> (reply: Option<String>)
    ensures
        opt_str(reply) == reply_for(content@),
{
    let lower = to_lowercase(content);
    if contains(lower.as_str(), "dumb") {
        Some(String::from_str("Says you dummy stfu"))
    } else {
        None
    }
}


/// The characters `d`, `u`, `m`, `b` stand in turn at position `i` of `s`.
pub open spec fn dumb_at(s: Seq<char>, i: int) -> bool {
    &&& 0 <= i
    &&& i + 4 <= s.len()
    &&& s[i] == 'd'
    &&& s[i + 1] == 'u'
    &&& s[i + 2] == 'm'
    &&& s[i + 3] == 'b'
}

/// A message gets a reply exactly when its lower-cased content holds the
/// characters `d`, `u`, `m`, `b` one after the other; so a message whose
/// lower-cased content has no `d` (or is shorter than four characters) gets
/// none.
pub proof fn lemma_reply_exactly_when_dumb(content: Seq<char>)
    ensures
        reply_for(content) is Some <==> exists|i: int| #[trigger] dumb_at(lowercase(content), i),
        (forall|i: int| 0 <= i < lowercase(content).len() ==> lowercase(content)[i] != 'd')
            ==> reply_for(content) is None,
        lowercase(content).len() < 4 ==> reply_for(content) is None,
{
    reveal_strlit("dumb");
    let lc = lowercase(content);
    if occurs_in(lc, "dumb"@) {
        let i = choose|i: int| #[trigger] occurs_at(lc, "dumb"@, i);
        assert(lc.subrange(i, i + 4)[0] == 'd');
        assert(lc.subrange(i, i + 4)[1] == 'u');
        assert(lc.subrange(i, i + 4)[2] == 'm');
        assert(lc.subrange(i, i + 4)[3] == 'b');
        assert(dumb_at(lc, i));
    }
    if exists|i: int| #[trigger] dumb_at(lc, i) {
        let i = choose|i: int| #[trigger] dumb_at(lc, i);
        assert(lc.subrange(i, i + 4) =~= "dumb"@);
        assert(occurs_at(lc, "dumb"@, i));
    }
}

} // verus!
