use vstd::prelude::*;

use crate::error::ApiError;

verus! {

/// The grammar of a room identifier this facade accepts: the `!`
/// sigil, a non-empty opaque part, a `:` separator, and a non-empty
/// server part — `!opaque:server`.
pub open spec fn valid_room_id(s: Seq<char>) -> bool {
    &&& s.len() >= 4
    &&& s[0] == '!'
    &&& exists|i: int| 2 <= i < s.len() - 1 && #[trigger] s[i] == ':'
}

/// Checks a room identifier against the accepted grammar; rejects
/// with `InvalidRoomIdentifier` exactly when the grammar is not met.
pub fn validate_room_id(s: &str) -> (r: Result<(), ApiError>)
    ensures
        r is Ok <==> valid_room_id(s@),
        r matches Err(e) ==> e is InvalidRoomIdentifier,
{
    let len = s.unicode_len();
    if len < 4 {
        return Err(ApiError::InvalidRoomIdentifier);
    }
    if s.get_char(0) != '!' {
        return Err(ApiError::InvalidRoomIdentifier);
    }
    let mut i: usize = 2;
    while i < len - 1
        invariant
            2 <= i <= len - 1,
            len == s@.len(),
            4 <= len,
            s@[0] == '!',
            forall|j: int| 2 <= j < i ==> #[trigger] s@[j] != ':',
        decreases len - i,
    {
        if s.get_char(i) == ':' {
            proof {
                assert(2 <= i as int && (i as int) < s@.len() - 1 && s@[i as int] == ':');
                assert(valid_room_id(s@));
            }
            return Ok(());
        }
        i = i + 1;
    }
    Err(ApiError::InvalidRoomIdentifier)
}

} // verus!
