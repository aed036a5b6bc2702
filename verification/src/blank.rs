//! Which characters count as white space.
use vstd::prelude::*;

verus! {

/// Whether `c` is white space, as Unicode defines it: one of the code
/// points with the property `White_Space`. These are the controls from tab
/// to carriage return, the space, the next-line control, the no-break
/// space, the Ogham space mark, the spaces from en quad to hair space, the
/// line and the paragraph separator, the narrow no-break space, the medium
/// mathematical space and the ideographic space.
pub open spec fn is_blank(c: char) -> bool {
    let n = c as u32;
    ||| 0x0009 <= n <= 0x000D
    ||| n == 0x0020
    ||| n == 0x0085
    ||| n == 0x00A0
    ||| n == 0x1680
    ||| 0x2000 <= n <= 0x200A
    ||| n == 0x2028
    ||| n == 0x2029
    ||| n == 0x202F
    ||| n == 0x205F
    ||| n == 0x3000
}

/// Whether `c` is white space.
pub fn blank(c: char) -> (r: bool)
    ensures
        r == is_blank(c),
{
    let n = c as u32;
    (0x0009 <= n && n <= 0x000D) || n == 0x0020 || n == 0x0085 || n == 0x00A0 || n == 0x1680 || (
    0x2000 <= n && n <= 0x200A) || n == 0x2028 || n == 0x2029 || n == 0x202F || n == 0x205F || n
        == 0x3000
}

} // verus!
