//! The OSC 52 clipboard escape sequence: a text is base64-encoded
//! and framed so a terminal emulator places it on the system
//! clipboard. Writing the sequence to the terminal is the caller's
//! business; building it is verified here.

use vstd::prelude::*;
use vstd::string::StringExecFns;
use base64::Engine;

verus! {

/// The base64 encoding, standard alphabet with padding, of a
/// string's bytes.
pub uninterp spec fn b64_standard(s: Seq<char>) -> Seq<char>;

/// Relies on base64's `STANDARD` engine `encode`: the encoding
/// depends on the input alone, and an empty input encodes to an
/// empty string.
#[verifier::external_body]
fn base64_encode(text: &str) -> (r: String)
    ensures
        r@ == b64_standard(text@),
        text@.len() == 0 ==> r@.len() == 0,
{
    base64::engine::general_purpose::STANDARD.encode(text)
}

/// An OSC 52 clipboard sequence: `ESC ] 5 2 ; c ;`, the payload,
/// and a BEL terminator; `c` selects the clipboard.
pub open spec fn osc52_rep(payload: Seq<char>) -> Seq<char> {
    "\u{1b}]52;c;"@ + payload + "\u{7}"@
}

/// Build the OSC 52 sequence carrying a text's base64 encoding.
pub fn osc52_sequence(text: &str) -> (r: String)
    ensures
        r@ == osc52_rep(b64_standard(text@)),
{
    let mut s = "\u{1b}]52;c;".to_owned();
    let encoded = base64_encode(text);
    s.append(encoded.as_str());
    s.append("\u{7}");
    proof {
        assert(s@ =~= osc52_rep(b64_standard(text@)));
    }
    s
}

} // verus!
