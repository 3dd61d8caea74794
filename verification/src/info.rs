//! What the program says of itself when it starts.

use vstd::prelude::*;

verus! {

/// The banner, line by line.
pub open spec fn banner() -> Seq<Seq<char>> {
    seq![
        "EarPerkOSC v1.0"@,
        "By Foxipso"@,
        "Support: foxipso.com"@,
        "Press Ctrl+C to exit\n"@,
    ]
}

/// The lines of the banner, in the order in which they are to be logged.
pub fn print_banner() -> (lines: Vec<&'static str>)
    ensures
        lines@.map_values(|line: &'static str| line@) == banner(),
{
    let mut lines: Vec<&'static str> = Vec::new();
    lines.push("EarPerkOSC v1.0");
    lines.push("By Foxipso");
    lines.push("Support: foxipso.com");
    lines.push("Press Ctrl+C to exit\n");
    assert(lines@.map_values(|line: &'static str| line@) =~= banner());
    lines
}

} // verus!
