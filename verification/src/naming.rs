//! Names and links of collections on the external service.
//!
//! A collection a bot creates carries the bot's name as a suffix; the
//! external access link is the service's namespace prefix followed by the
//! collection name.

use vstd::prelude::*;

use vstd::string::StrSliceExecFns;
use vstd::string::StringExecFns;

verus! {

/// The suffix the external service appends to names of bot-created
/// collections.
pub open spec fn by_suffix(bot_username: Seq<char>) -> Seq<char> {
    "_by_"@ + bot_username
}

/// The external access link of a named collection.
pub open spec fn set_link(name: Seq<char>) -> Seq<char> {
    "t.me/addstickers/"@ + name
}

/// Whether one string ends with another, character for character.
pub fn ends_with_str(s: &str, suffix: &str) -> (r: bool)
    ensures
        r == (s@.len() >= suffix@.len() && s@.skip(s@.len() - suffix@.len()) == suffix@),
{
    let n = s.unicode_len();
    let m = suffix.unicode_len();
    if n < m {
        return false;
    }
    let start = n - m;
    let mut i: usize = 0;
    while i < m
        invariant
            i <= m,
            m == suffix@.len(),
            n == s@.len(),
            m <= n,
            start == n - m,
            forall|k: int| 0 <= k < i ==> s@[start + k] == suffix@[k],
        decreases m - i,
    {
        if s.get_char(start + i) != suffix.get_char(i) {
            proof {
                assert(s@.skip(start as int)[i as int] != suffix@[i as int]);
            }
            return false;
        }
        i += 1;
    }
    proof {
        assert(s@.skip(start as int) =~= suffix@);
    }
    true
}

/// Whether a collection name says it was created by the given bot.
pub fn set_created_by(set_name: &str, bot_username: &str) -> (r: bool)
    ensures
        r == (set_name@.len() >= by_suffix(bot_username@).len() && set_name@.skip(
            set_name@.len() - by_suffix(bot_username@).len(),
        ) == by_suffix(bot_username@)),
{
    let mut suffix = String::from_str("_by_");
    suffix.append(bot_username);
    ends_with_str(set_name, suffix.as_str())
}

/// A candidate collection name: the generated unique part, then the
/// service's bot suffix.
pub fn make_candidate_name(suffix: &str, bot_username: &str) -> (r: String)
    ensures
        r@ == suffix@ + by_suffix(bot_username@),
{
    let mut name = String::from_str(suffix);
    name.append("_by_");
    name.append(bot_username);
    proof {
        assert(name@ =~= suffix@ + by_suffix(bot_username@));
    }
    name
}

/// The external access link of a collection.
pub fn make_set_link(name: &str) -> (r: String)
    ensures
        r@ == set_link(name@),
{
    let mut link = String::from_str("t.me/addstickers/");
    link.append(name);
    link
}

/// The format tag the external service wants for one item.
pub fn sticker_format(is_animated: bool, is_video: bool) -> (r: &'static str)
    ensures
        is_animated ==> r@ == "animated"@,
        !is_animated && is_video ==> r@ == "video"@,
        !is_animated && !is_video ==> r@ == "static"@,
{
    if is_animated {
        "animated"
    } else if is_video {
        "video"
    } else {
        "static"
    }
}

} // verus!
