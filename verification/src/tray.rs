//! Tray and dock badge strings: the tooltip that carries the unread count and
//! the dock badge label. Setting the real tooltip and badge, and building the
//! tray menu, is host work.

use vstd::prelude::*;

verus! {

use crate::strutil;
use crate::strutil::dec_str;
use vstd::string::StringExecFns;

/// The tray tooltip: "Messenger (n)" while there are unread messages, the
/// plain application name otherwise.
pub fn tray_tooltip(count: u32) -> (r: String)
    ensures
        count == 0 ==> r@ == "Messenger"@,
        count > 0 ==> r@ == "Messenger ("@ + dec_str(count as int) + ")"@,
{
    if count > 0 {
        let digits = strutil::u32_to_string(count);
        let head = strutil::concat2("Messenger (", digits.as_str());
        strutil::concat2(head.as_str(), ")")
    } else {
        String::from_str("Messenger")
    }
}

/// The dock badge label: the unread count in decimal, or `None` to clear the
/// badge when nothing is unread.
pub fn dock_badge_label(count: u32) -> (r: Option<String>)
    ensures
        count == 0 ==> r is None,
        count > 0 ==> (r matches Some(label) && label@ == dec_str(count as int)),
{
    if count == 0 {
        None
    } else {
        Some(strutil::u32_to_string(count))
    }
}

} // verus!
