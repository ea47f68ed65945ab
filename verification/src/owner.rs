//! The owner of an identifier: what a request may name as one.

use vstd::prelude::*;
use crate::text::{chars_of, trim, trimmed};

verus! {

/// Whether `c` is alphabetic or numeric in the sense of Unicode.
pub uninterp spec fn unicode_alphanumeric(c: char) -> bool;

/// `char::is_alphanumeric` says whether its argument is alphabetic or
/// numeric in the sense of Unicode; which characters are is left
/// uninterpreted here.
pub assume_specification[ char::is_alphanumeric ](c: char) -> (b: bool)
    ensures
        b == unicode_alphanumeric(c),
;

/// A character may stand in an owner if it is alphanumeric or an underscore.
pub open spec fn owner_char(c: char) -> bool {
    unicode_alphanumeric(c) || c == '_'
}

/// An owner is not empty and made of owner characters.
pub open spec fn valid_owner(owner: Seq<char>) -> bool {
    owner.len() > 0 && forall|i: int| 0 <= i < owner.len() ==> owner_char(#[trigger] owner[i])
}

/// The owner that a request's text names: the text without the whitespace
/// around it, if that is a valid owner.
pub open spec fn normalized_owner(raw: Seq<char>) -> Option<Seq<char>> {
    if valid_owner(trimmed(raw)) {
        Some(trimmed(raw))
    } else {
        None
    }
}

/// Whether a character may stand in an owner, given whether it is
/// alphanumeric.
pub fn owner_char_allowed(c: char, alphanumeric: bool) -> (allowed: bool)
    ensures
        allowed == (alphanumeric || c == '_'),
{
    alphanumeric || c == '_'
}

/// Whether `owner`, taken as it is, is a valid owner.
pub fn is_valid_owner(owner: &str) -> (valid: bool)
    ensures
        valid == valid_owner(owner@),
{
    let chars = chars_of(owner);
    if chars.len() == 0 {
        return false;
    }
    let mut k: usize = 0;
    while k < chars.len()
        invariant
            k <= chars@.len(),
            chars@ == owner@,
            forall|i: int| 0 <= i < k ==> owner_char(#[trigger] chars@[i]),
        decreases chars@.len() - k,
    {
        let c = chars[k];
        if !owner_char_allowed(c, c.is_alphanumeric()) {
            return false;
        }
        k = k + 1;
    }
    true
}

/// Trims the owner that a request gives and accepts it if what is left is a
/// valid owner.
pub fn normalize_owner(raw: &str) -> (owner: Option<String>)
    ensures
        match owner {
            Some(name) => normalized_owner(raw@) == Some(name@),
            None => normalized_owner(raw@) is None,
        },
{
    let name = trim(raw);
    if is_valid_owner(name.as_str()) {
        Some(name)
    } else {
        None
    }
}

} // verus!
