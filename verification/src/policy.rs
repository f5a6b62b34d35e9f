//! Rules for the slots of a credentials prompt: what may be stored, and what
//! the user sees.
use vstd::prelude::*;
use vstd::string::*;

use crate::text::{
    all_ascii, ascii_lowered, contains, has_substring, law_part_occurs_in_the_whole, lowercase,
    to_lowercase,
};

verus! {

/// The label, in lower case, is that of a value that is good for one use only.
pub open spec fn single_use(lower: Seq<char>) -> bool {
    ||| has_substring(lower, "one-time"@)
    ||| has_substring(lower, "one time"@)
    ||| has_substring(lower, "otp"@)
    ||| has_substring(lower, "code"@)
    ||| has_substring(lower, "challenge"@)
}

/// A slot with this label, in lower case, may be stored.
pub open spec fn storable(lower: Seq<char>, mask: bool) -> bool {
    (has_substring(lower, "username"@) || has_substring(lower, "password"@) || mask)
        && !single_use(lower)
}

/// Whether a slot with this label, given in lower case, may be stored.
pub fn is_storable_lowered(lower: &str, mask: bool) -> (r: bool)
    ensures
        r == storable(lower@, mask),
{
    let is_credential = contains(lower, "username") || contains(lower, "password") || mask;
    let is_single_use = contains(lower, "one-time") || contains(lower, "one time") || contains(
        lower,
        "otp",
    ) || contains(lower, "code") || contains(lower, "challenge");
    is_credential && !is_single_use
}

/// Whether a slot may be stored in the keyring: user names, passwords and
/// masked values may, unless they are good for one use only.
pub fn is_storable_field(label: &str, mask: bool) -> (r: bool)
    ensures
        r == storable(lowercase(label@), mask),
        all_ascii(label@) ==> r == storable(ascii_lowered(label@), mask),
{
    let lower = to_lowercase(label);
    is_storable_lowered(lower.as_str(), mask)
}

pub open spec fn display_label(lower: Seq<char>) -> Seq<char> {
    if has_substring(lower, "username"@) {
        "Auth Username"@
    } else if has_substring(lower, "password"@) {
        "Auth Password"@
    } else {
        "Authentication Code"@
    }
}

/// What the user sees for a slot with this label, given in lower case.
pub fn display_label_lowered(lower: &str) -> (r: String)
    ensures
        r@ == display_label(lower@),
{
    if contains(lower, "username") {
        "Auth Username".to_owned()
    } else if contains(lower, "password") {
        "Auth Password".to_owned()
    } else {
        "Authentication Code".to_owned()
    }
}

/// What the user sees for a slot with this label.
pub fn display_label_for(label: &str) -> (r: String)
    ensures
        r@ == display_label(lowercase(label@)),
        all_ascii(label@) ==> r@ == display_label(ascii_lowered(label@)),
{
    let lower = to_lowercase(label);
    display_label_lowered(lower.as_str())
}

/// A value that is good for one use only is never stored, masked or not.
pub proof fn law_single_use_is_never_stored(lower: Seq<char>, mask: bool)
    requires
        single_use(lower),
    ensures
        !storable(lower, mask),
{
}

/// A value that is shown in the clear is stored only if it is a user name or a
/// password.
pub proof fn law_clear_values_are_names_or_passwords(lower: Seq<char>)
    requires
        storable(lower, false),
    ensures
        has_substring(lower, "username"@) || has_substring(lower, "password"@),
        display_label(lower) != "Authentication Code"@,
{
    reveal_strlit("Auth Username");
    reveal_strlit("Auth Password");
    reveal_strlit("Authentication Code");
    assert("Auth Username"@.len() != "Authentication Code"@.len());
    assert("Auth Password"@.len() != "Authentication Code"@.len());
}

/// Any of the words for a value that is good for one use only, wherever it
/// stands in the label, keeps the value from being stored.
pub proof fn law_single_use_words(before: Seq<char>, after: Seq<char>, mask: bool)
    ensures
        !storable(before + "one-time"@ + after, mask),
        !storable(before + "one time"@ + after, mask),
        !storable(before + "otp"@ + after, mask),
        !storable(before + "code"@ + after, mask),
        !storable(before + "challenge"@ + after, mask),
{
    law_part_occurs_in_the_whole(before, "one-time"@, after);
    law_part_occurs_in_the_whole(before, "one time"@, after);
    law_part_occurs_in_the_whole(before, "otp"@, after);
    law_part_occurs_in_the_whole(before, "code"@, after);
    law_part_occurs_in_the_whole(before, "challenge"@, after);
}

/// A user name, a password and every masked value is stored unless one of
/// those words is in the label; nothing else is stored.
pub proof fn law_what_is_stored(lower: Seq<char>, mask: bool)
    ensures
        storable(lower, mask) <==> {
            &&& has_substring(lower, "username"@) || has_substring(lower, "password"@) || mask
            &&& !has_substring(lower, "one-time"@)
            &&& !has_substring(lower, "one time"@)
            &&& !has_substring(lower, "otp"@)
            &&& !has_substring(lower, "code"@)
            &&& !has_substring(lower, "challenge"@)
        },
{
}

/// A label with the word for a user name is shown as one, else one with the
/// word for a password as that, and any other as a code.
pub proof fn law_what_the_user_sees(before: Seq<char>, after: Seq<char>)
    ensures
        display_label(before + "username"@ + after) == "Auth Username"@,
        !has_substring(before + "password"@ + after, "username"@) ==> display_label(
            before + "password"@ + after,
        ) == "Auth Password"@,
        !has_substring(before, "username"@) && !has_substring(before, "password"@)
            ==> display_label(before) == "Authentication Code"@,
{
    law_part_occurs_in_the_whole(before, "username"@, after);
    law_part_occurs_in_the_whole(before, "password"@, after);
}

} // verus!
