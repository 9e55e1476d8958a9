use vstd::prelude::*;
use crate::error::Error;

verus! {

#[verifier::external_type_specification]
#[verifier::external_body]
pub struct ExWhatAmIMatcher(zenoh::config::WhatAmIMatcher);

/// The matcher Zenoh builds from an accepted scouting mask.
pub uninterp spec fn whatami_matcher_of(mask: u8) -> zenoh::config::WhatAmIMatcher;

/// Calls `zenoh::config::WhatAmIMatcher::try_from(u8)`, which accepts every
/// mask from 0 to 7 (bits for router, peer and client) and refuses the rest.
/// The contract claims that the matcher it builds depends on the mask alone.
#[verifier::external_body]
fn native_whatami_matcher(mask: u8) -> (r: Option<zenoh::config::WhatAmIMatcher>)
    ensures
        r is Some <==> mask <= 7,
        r matches Some(m) ==> m == whatami_matcher_of(mask),
{
    zenoh::config::WhatAmIMatcher::try_from(mask).ok()
}

/// The matcher for the node kinds a scout looks for, built by Zenoh from the binding's `whatami` mask
/// (1 for routers, 2 for peers, 4 for clients, or-ed together). Masks outside
/// 0..=7 are refused.
pub fn whatami_matcher(whatami: i32) -> (r: Result<zenoh::config::WhatAmIMatcher, Error>)
    ensures
        r is Ok <==> 0 <= whatami <= 7,
        r matches Ok(m) ==> m == whatami_matcher_of(whatami as u8),
        r matches Err(e) ==> e == Error::InvalidWhatAmI(whatami),
{
    if whatami < 0 || whatami > 255 {
        return Err(Error::InvalidWhatAmI(whatami));
    }
    match native_whatami_matcher(whatami as u8) {
        Some(m) => Ok(m),
        None => Err(Error::InvalidWhatAmI(whatami)),
    }
}

} // verus!
