//! Utilities shared by client and server.

use vstd::prelude::*;
use vstd::string::StrSliceExecFns;
use vstd::string::StringExecFnsIsAscii;
use crate::errors::UtilError;

verus! {

/// A hex string with its byte order reversed: the concatenation of its
/// two-character pairs, last pair first, each pair kept in order.
pub open spec fn reverse_pairs(s: Seq<char>) -> Seq<char>
    decreases s.len(),
{
    if s.len() < 2 {
        s
    } else {
        reverse_pairs(s.skip(2)) + s.take(2)
    }
}

/// Reverse the byte order of a hex string, keeping each two-digit pair
/// intact.  An odd number of characters, or one that is not plain ASCII,
/// is rejected with `FormatError`.
pub fn reverse_hex_str(hex_str: String) -> (r: Result<String, UtilError>)
    ensures
        r is Ok <==> (hex_str@.len() % 2 == 0 && vstd::string::string_is_ascii(&hex_str)),
        r matches Ok(out) ==> out@ == reverse_pairs(hex_str@),
        r matches Err(e) ==> e is FormatError,
{
    let n = hex_str.as_str().unicode_len();
    if n % 2 != 0 || !hex_str.is_ascii() {
        return Err(
            UtilError::FormatError("Invalid sig hash - Odd number of characters.".to_owned()),
        );
    }
    let mut result = String::new();
    let mut i: usize = n;
    proof {
        assert(hex_str@.skip(n as int) =~= Seq::<char>::empty());
    }
    while i > 0
        invariant
            i <= n,
            i % 2 == 0,
            n % 2 == 0,
            n as int == hex_str@.len(),
            hex_str.is_ascii(),
            result@ == reverse_pairs(hex_str@.skip(i as int)),
        decreases i,
    {
        let i2 = i - 2;
        let piece = hex_str.as_str().substring_ascii(i2, i);
        result.append(piece);
        proof {
            let s = hex_str@;
            assert(s.skip(i2 as int).skip(2) =~= s.skip(i as int));
            assert(s.skip(i2 as int).take(2) =~= s.subrange(i2 as int, i as int));
            assert(result@ == reverse_pairs(s.skip(i2 as int)));
        }
        i = i2;
    }
    proof {
        assert(hex_str@.skip(0) =~= hex_str@);
    }
    Ok(result)
}

} // verus!
