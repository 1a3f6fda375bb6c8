//! The format rules for what a client sends to register.

use crate::error::{reports_fault, APIErrorResponse};
use crate::text::chars_of;
use crate::users::UserPayload;
use vstd::prelude::*;
use vstd::utf8::encode_utf8;

verus! {

/// Whether `char::is_numeric` holds of a character: Unicode's general
/// categories `Nd`, `Nl` and `No`.
pub uninterp spec fn unicode_numeric(c: char) -> bool;

/// Whether `char::is_uppercase` holds of a character: Unicode's property
/// `Uppercase`.
pub uninterp spec fn unicode_uppercase(c: char) -> bool;

/// Whether `char::is_lowercase` holds of a character: Unicode's property
/// `Lowercase`.
pub uninterp spec fn unicode_lowercase(c: char) -> bool;

/// The ASCII punctuation characters: `!` to `/`, `:` to `@`, `[` to `` ` ``
/// and `{` to `~`.
pub open spec fn ascii_punctuation(c: char) -> bool {
    let v = c as u32;
    0x21 <= v <= 0x2F || 0x3A <= v <= 0x40 || 0x5B <= v <= 0x60 || 0x7B <= v <= 0x7E
}

/// `char::is_numeric`: a function of the character alone, named by
/// [`unicode_numeric`].
pub assume_specification[ char::is_numeric ](c: char) -> (r: bool)
    ensures
        r == unicode_numeric(c),
;

/// `char::is_uppercase`: a function of the character alone, named by
/// [`unicode_uppercase`].
pub assume_specification[ char::is_uppercase ](c: char) -> (r: bool)
    ensures
        r == unicode_uppercase(c),
;

/// `char::is_lowercase`: a function of the character alone, named by
/// [`unicode_lowercase`].
pub assume_specification[ char::is_lowercase ](c: char) -> (r: bool)
    ensures
        r == unicode_lowercase(c),
;

/// `char::is_ascii_punctuation`: whether the character lies in one of the
/// four ASCII ranges that the standard library documents.
pub assume_specification[ char::is_ascii_punctuation ](c: &char) -> (r: bool)
    ensures
        r == ascii_punctuation(*c),
;

/// The kinds of character that a password must contain.
#[derive(Debug, Clone, Copy, PartialEq, Eq, Structural)]
pub enum CharClass {
    Numeric,
    Uppercase,
    Lowercase,
    Punctuation,
}

/// A character is of a kind.
pub open spec fn in_class(c: char, class: CharClass) -> bool {
    match class {
        CharClass::Numeric => unicode_numeric(c),
        CharClass::Uppercase => unicode_uppercase(c),
        CharClass::Lowercase => unicode_lowercase(c),
        CharClass::Punctuation => ascii_punctuation(c),
    }
}

/// Some character of `s` is of the kind.
pub open spec fn has_class(s: Seq<char>, class: CharClass) -> bool {
    exists|i: int| 0 <= i < s.len() && in_class(#[trigger] s[i], class)
}

/// `i` is the place of the first `c` in `s`, or the length of `s` where it
/// holds no `c`.
pub open spec fn first_at(s: Seq<char>, c: char, i: int) -> bool {
    &&& 0 <= i <= s.len()
    &&& i < s.len() ==> s[i] == c
    &&& forall|j: int| 0 <= j < i ==> s[j] != c
}

/// The place of the first `c` in `s`, or the length of `s` where it holds
/// no `c`.
pub open spec fn index_of_first(s: Seq<char>, c: char) -> int {
    choose|i: int| first_at(s, c, i)
}

/// A piece of text takes fewer than two bytes in UTF-8: it is empty or one
/// ASCII character.
pub open spec fn under_two_bytes(s: Seq<char>) -> bool {
    s.len() == 0 || (s.len() == 1 && (s[0] as u32) < 0x80)
}

/// What is wrong with an email, if anything. It must hold exactly one `@`,
/// with text on both sides, and after it a dot; the two pieces of the
/// domain around its first dot must take two bytes or more each.
pub open spec fn email_fault(s: Seq<char>) -> Option<Seq<char>> {
    let at = index_of_first(s, '@');
    let domain = s.skip(at + 1);
    let dot = index_of_first(domain, '.');
    let rest = domain.skip(dot + 1);
    if at == s.len() || index_of_first(domain, '@') != domain.len() {
        Some("Invalid email format"@)
    } else if at == 0 || domain.len() == 0 {
        Some("Invalid email format(missing local part or domain)"@)
    } else if dot == domain.len() || under_two_bytes(domain.take(dot)) || under_two_bytes(
        rest.take(index_of_first(rest, '.')),
    ) {
        Some("Invalid email format(invalid domain)"@)
    } else {
        None
    }
}

/// What is wrong with a username, if anything: it must take eight bytes or
/// more.
pub open spec fn username_fault(s: Seq<char>) -> Option<Seq<char>> {
    if encode_utf8(s).len() < 8 {
        Some("Username should be more than 7 characters"@)
    } else {
        None
    }
}

/// What is wrong with a password, if anything: it must take eight bytes or
/// more and hold a number, an uppercase letter, a lowercase letter and an
/// ASCII punctuation character. The first rule broken is the one reported.
pub open spec fn password_fault(s: Seq<char>) -> Option<Seq<char>> {
    if encode_utf8(s).len() < 8 {
        Some("Password is too short"@)
    } else if !has_class(s, CharClass::Numeric) {
        Some("Password must contain at least one number"@)
    } else if !has_class(s, CharClass::Uppercase) {
        Some("Password must contain at least one uppercase letter"@)
    } else if !has_class(s, CharClass::Lowercase) {
        Some("Password must contain at least one lowercase letter"@)
    } else if !has_class(s, CharClass::Punctuation) {
        Some("Password must contain at least one special character"@)
    } else {
        None
    }
}

/// What is wrong with a payload, if anything: the email's fault first, then
/// the username's, then the password's.
pub open spec fn payload_fault(email: Seq<char>, username: Seq<char>, password: Seq<char>) -> Option<
    Seq<char>,
> {
    if email_fault(email) is Some {
        email_fault(email)
    } else if username_fault(username) is Some {
        username_fault(username)
    } else {
        password_fault(password)
    }
}

fn bad_request(message: &str) -> (r: Option<APIErrorResponse>)
    ensures
        reports_fault(r, Some(message@)),
{
    Some(APIErrorResponse::bad_request(message))
}

fn contains_class(chars: &Vec<char>, class: CharClass) -> (r: bool)
    ensures
        r == has_class(chars@, class),
{
    let mut i: usize = 0;
    while i < chars.len()
        invariant
            i <= chars@.len(),
            forall|j: int| 0 <= j < i ==> !in_class(#[trigger] chars@[j], class),
        decreases chars@.len() - i,
    {
        let c = chars[i];
        let found = match class {
            CharClass::Numeric => c.is_numeric(),
            CharClass::Uppercase => c.is_uppercase(),
            CharClass::Lowercase => c.is_lowercase(),
            CharClass::Punctuation => c.is_ascii_punctuation(),
        };
        if found {
            return true;
        }
        i += 1;
    }
    false
}

/// The place of the first `c` at or after `start`, or the length.
fn find_from(chars: &Vec<char>, start: usize, c: char) -> (r: usize)
    requires
        start <= chars@.len(),
    ensures
        start <= r <= chars@.len(),
        r - start == index_of_first(chars@.skip(start as int), c),
{
    let mut i: usize = start;
    while i < chars.len() && chars[i] != c
        invariant
            start <= i <= chars@.len(),
            forall|j: int| start <= j < i ==> chars@[j] != c,
        decreases chars@.len() - i,
    {
        i += 1;
    }
    proof {
        let tail = chars@.skip(start as int);
        assert(first_at(tail, c, i - start)) by {
            assert forall|j: int| 0 <= j < i - start implies tail[j] != c by {
                assert(tail[j] == chars@[start + j]);
            }
        }
        let k = index_of_first(tail, c);
        assert(first_at(tail, c, k));
        if k < i - start {
            assert(tail[k] == chars@[start + k]);
        }
    }
    i
}

fn is_under_two_bytes(chars: &Vec<char>, from: usize, to: usize) -> (r: bool)
    requires
        from <= to <= chars@.len(),
    ensures
        r == under_two_bytes(chars@.subrange(from as int, to as int)),
{
    to - from == 0 || (to - from == 1 && (chars[from] as u32) < 0x80)
}

impl UserPayload {
    /// Checks the email.
    pub fn validate_email(&self) -> (r: Option<APIErrorResponse>)
        ensures
            reports_fault(r, email_fault(self.email@)),
    {
        let chars = chars_of(self.email.as_str());
        let n = chars.len();
        let at = find_from(&chars, 0, '@');
        assert(chars@.skip(0) =~= chars@);
        if at == n {
            return bad_request("Invalid email format");
        }
        let ghost domain = chars@.skip(at + 1);
        if find_from(&chars, at + 1, '@') != n {
            return bad_request("Invalid email format");
        }
        if at == 0 || at + 1 == n {
            return bad_request("Invalid email format(missing local part or domain)");
        }
        let dot = find_from(&chars, at + 1, '.');
        if dot == n {
            return bad_request("Invalid email format(invalid domain)");
        }
        let end = find_from(&chars, dot + 1, '.');
        proof {
            let d = dot - (at + 1);
            assert(domain.skip(d + 1) =~= chars@.skip(dot + 1));
            assert(domain.take(d) =~= chars@.subrange(at + 1, dot as int));
            assert(chars@.skip(dot + 1).take(end - (dot + 1)) =~= chars@.subrange(
                dot + 1,
                end as int,
            ));
        }
        if is_under_two_bytes(&chars, at + 1, dot) || is_under_two_bytes(&chars, dot + 1, end) {
            return bad_request("Invalid email format(invalid domain)");
        }
        None
    }

    /// Checks the username.
    pub fn validate_username(&self) -> (r: Option<APIErrorResponse>)
        ensures
            reports_fault(r, username_fault(self.username@)),
    {
        if self.username.as_str().as_bytes().len() < 8 {
            return bad_request("Username should be more than 7 characters");
        }
        None
    }

    /// Checks the password.
    pub fn validate_password(&self) -> (r: Option<APIErrorResponse>)
        ensures
            reports_fault(r, password_fault(self.password@)),
    {
        if self.password.as_str().as_bytes().len() < 8 {
            return bad_request("Password is too short");
        }
        let chars = chars_of(self.password.as_str());
        if !contains_class(&chars, CharClass::Numeric) {
            return bad_request("Password must contain at least one number");
        }
        if !contains_class(&chars, CharClass::Uppercase) {
            return bad_request("Password must contain at least one uppercase letter");
        }
        if !contains_class(&chars, CharClass::Lowercase) {
            return bad_request("Password must contain at least one lowercase letter");
        }
        if !contains_class(&chars, CharClass::Punctuation) {
            return bad_request("Password must contain at least one special character");
        }
        None
    }

    /// Checks the payload: the email first, then the username, then the
    /// password. The first fault found is the one reported.
    pub fn validate(&self) -> (r: Option<APIErrorResponse>)
        ensures
            reports_fault(r, payload_fault(self.email@, self.username@, self.password@)),
    {
        if let Some(error) = self.validate_email() {
            return Some(error);
        }
        if let Some(error) = self.validate_username() {
            return Some(error);
        }
        self.validate_password()
    }
}

} // verus!
