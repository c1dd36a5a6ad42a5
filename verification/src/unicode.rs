//! Trusted interface to the standard library's Unicode character
//! classification. Whether a character counts as whitespace or as
//! alphabetic is decided by Unicode property tables; the predicates are
//! left uninterpreted and the standard library functions are assumed to
//! compute them.

use vstd::prelude::*;

verus! {

/// Holds exactly of the characters with the Unicode `White_Space` property.
pub uninterp spec fn whitespace_char(c: char) -> bool;

/// Holds exactly of the characters with the Unicode `Alphabetic` property.
pub uninterp spec fn alphabetic_char(c: char) -> bool;

/// Relies on char::is_whitespace: true iff the character has the Unicode
/// `White_Space` property. The result depends on the character alone.
pub assume_specification[ char::is_whitespace ](c: char) -> (r: bool)
    ensures
        r == whitespace_char(c),
;

/// Relies on char::is_alphabetic: true iff the character has the Unicode
/// `Alphabetic` property. The result depends on the character alone.
pub assume_specification[ char::is_alphabetic ](c: char) -> (r: bool)
    ensures
        r == alphabetic_char(c),
;

} // verus!
