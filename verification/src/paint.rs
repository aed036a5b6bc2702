//! Coloured text for terminals, by `ansi_term`.
use vstd::prelude::*;

verus! {

/// `s` between the codes that switch green on and every style off.
pub open spec fn green(s: Seq<char>) -> Seq<char> {
    "\x1B[32m"@ + s + "\x1B[0m"@
}

/// `s` between the codes that switch cyan on and every style off.
pub open spec fn cyan(s: Seq<char>) -> Seq<char> {
    "\x1B[36m"@ + s + "\x1B[0m"@
}

/// `s` between the codes that switch bold green on and every style off.
pub open spec fn bold_green(s: Seq<char>) -> Seq<char> {
    "\x1B[1;32m"@ + s + "\x1B[0m"@
}

/// `Colour::Green.paint(s)`, written out: the code for a green foreground,
/// `s`, and the code that resets.
#[verifier::external_body]
pub(crate) fn paint_green(s: &str) -> (r: String)
    ensures
        r@ == green(s@),
{
    ansi_term::Colour::Green.paint(s).to_string()
}

/// `Colour::Cyan.paint(s)`, written out: the code for a cyan foreground,
/// `s`, and the code that resets.
#[verifier::external_body]
pub(crate) fn paint_cyan(s: &str) -> (r: String)
    ensures
        r@ == cyan(s@),
{
    ansi_term::Colour::Cyan.paint(s).to_string()
}

/// `Colour::Green.bold().paint(s)`, written out: the code for bold with a
/// green foreground, `s`, and the code that resets.
#[verifier::external_body]
pub(crate) fn paint_bold_green(s: &str) -> (r: String)
    ensures
        r@ == bold_green(s@),
{
    ansi_term::Colour::Green.bold().paint(s).to_string()
}

} // verus!
