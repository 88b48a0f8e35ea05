use vstd::prelude::*;
use crate::key_set::KeySet;
use crate::keys::BlockableKey;
use crate::text::str_eq;

verus! {

/// The address that the kiosk's close button navigates to; reaching it ends
/// the program.
pub open spec fn spec_close_url() -> Seq<char> {
    seq!['k', 'i', 'o', 's', 'k', ':', '/', '/', 'c', 'l', 'o', 's', 'e']
}

/// The address that the kiosk's close button navigates to.
pub fn close_url() -> (s: &'static str)
    ensures
        s@ == spec_close_url(),
{
    proof {
        reveal_strlit("kiosk://close");
    }
    "kiosk://close"
}

/// Whether a navigation is the close button's request to end the kiosk.
pub fn is_close_request(url: &str) -> (r: bool)
    ensures
        r == (url@ == spec_close_url()),
{
    proof {
        reveal_strlit("kiosk://close");
        assert("kiosk://close"@ =~= spec_close_url());
    }
    str_eq(url, "kiosk://close")
}

/// Whether the window refuses requests to close it: it does when Alt+F4 is
/// among the blocked shortcuts, so that a close that reaches the window
/// anyway leaves it open.
pub fn refuses_close(keys: &KeySet) -> (r: bool)
    ensures
        r == keys@.contains(BlockableKey::AltF4),
{
    keys.contains(BlockableKey::AltF4)
}

} // verus!
