//! The notification module's subject icons.

use vstd::prelude::*;

verus! {

/// The glyph shown for a notification subject kind; a kind without a
/// glyph shows its own name.
pub open spec fn spec_icon(kind: Seq<char>) -> Seq<char> {
    if kind == "PullRequest"@ {
        "\u{ea64}"@
    } else if kind == "Issue"@ {
        "\u{eb0c}"@
    } else if kind == "Discussion"@ {
        "\u{f442}"@
    } else if kind == "Release"@ {
        "\u{f02b}"@
    } else {
        kind
    }
}

/// The icon for a notification subject kind.
pub fn get_icon<'a>(x: &'a str) -> (r: &'a str)
    ensures
        r@ == spec_icon(x@),
{
    if crate::text::str_eq(x, "PullRequest") {
        "\u{ea64}"
    } else if crate::text::str_eq(x, "Issue") {
        "\u{eb0c}"
    } else if crate::text::str_eq(x, "Discussion") {
        "\u{f442}"
    } else if crate::text::str_eq(x, "Release") {
        "\u{f02b}"
    } else {
        x
    }
}

} // verus!
