//! The banner that opens a run.

use vstd::prelude::*;
use vstd::string::StringExecFns;

verus! {

/// The escape sequence that turns the text that follows cyan: `ESC [ 3 8 ; 5 ; 6 m`.
pub open spec fn cyan_code() -> Seq<char> {
    "\x1b[38;5;6m"@
}

/// The escape sequence that ends all colouring and styling: `ESC [ m`.
pub open spec fn reset_code() -> Seq<char> {
    "\x1b[m"@
}

/// The banner for a program of the given name and version: an empty line in
/// cyan, then name and version, then a line that ends the colouring.
pub open spec fn banner_text(name: Seq<char>, version: Seq<char>) -> Seq<char> {
    cyan_code() + "\n"@ + name + " - "@ + version + "\n"@ + reset_code()
}

/// Renders termion's `color::Fg(color::Cyan)` with its `Display` impl.
///
/// Not proved, but read off termion: `Fg` writes what the colour's `write_fg`
/// writes, which for each of the named colours is `ESC [ 38;5;`, the number
/// of the colour in the palette, and `m`. Cyan is number 6.
#[verifier::external_body]
fn cyan_foreground() -> (code: String)
    ensures
        code@ == cyan_code(),
{
    format!("{}", termion::color::Fg(termion::color::Cyan))
}

/// Renders termion's `style::Reset` with its `Display` impl.
///
/// Not proved, but read off termion: `Reset` writes `ESC [ m`, the sequence
/// that resets every attribute of the text.
#[verifier::external_body]
fn style_reset() -> (code: String)
    ensures
        code@ == reset_code(),
{
    format!("{}", termion::style::Reset)
}

/// The banner to print when a run begins.
pub fn intro_banner(name: &str, version: &str) -> (banner: String)
    ensures
        banner@ == banner_text(name@, version@),
{
    let reset = style_reset();
    let banner = cyan_foreground();
    let banner = banner.concat("\n");
    let banner = banner.concat(name);
    let banner = banner.concat(" - ");
    let banner = banner.concat(version);
    let banner = banner.concat("\n");
    banner.concat(reset.as_str())
}

} // verus!
