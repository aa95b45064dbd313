//! The validated domain value types: a subscriber's display name and
//! email address, built through construct-or-reject factories.

use unicode_segmentation::UnicodeSegmentation;
use vstd::prelude::*;

verus! {

/// How many extended grapheme clusters (user-perceived characters) a
/// string divides into. Left abstract: grapheme segmentation depends on
/// the whole Unicode segmentation algorithm, but only on the characters
/// of the string itself.
pub uninterp spec fn grapheme_count_of(s: Seq<char>) -> nat;

/// Whether a string is a syntactically valid email address in the sense
/// of the HTML5 form-validation rules. Left abstract: it is a fixed
/// predicate of the characters of the string alone.
pub uninterp spec fn email_syntax_ok(s: Seq<char>) -> bool;

/// Relies on unicode_segmentation's `graphemes` iterator: it splits a
/// string into extended grapheme clusters, each of which holds at least
/// one character, and yields nothing for the empty string.
#[verifier::external_body]
fn grapheme_count(s: &str) -> (r: usize)
    ensures
        r as nat == grapheme_count_of(s@),
        r as nat <= s@.len(),
        s@.len() == 0 ==> r == 0,
{
    s.graphemes(true).count()
}

/// Relies on validator's `validate_email`: a pure check of email syntax
/// against the HTML5 rules, which rejects the empty string.
#[verifier::external_body]
fn email_format_is_valid(s: &str) -> (r: bool)
    ensures
        r == email_syntax_ok(s@),
        s@.len() == 0 ==> !r,
{
    validator::validate_email(s)
}

/// The characters a subscriber name may never contain.
pub open spec fn is_forbidden_name_char(c: char) -> bool {
    c == '/' || c == '(' || c == ')' || c == '<' || c == '>' || c == '\\' || c == '{' || c == '}'
}

/// The Unicode `White_Space` code points, the characters that
/// `str::trim` strips from either end of a string.
pub open spec fn is_unicode_whitespace(c: char) -> bool {
    let u = c as u32;
    (0x09 <= u && u <= 0x0D) || u == 0x20 || u == 0x85 || u == 0xA0 || u == 0x1680 || (0x2000 <= u
        && u <= 0x200A) || u == 0x2028 || u == 0x2029 || u == 0x202F || u == 0x205F || u == 0x3000
}

/// A string is blank when every character is whitespace; trimming such
/// a string (the empty string included) leaves nothing.
pub open spec fn is_blank(s: Seq<char>) -> bool {
    forall|i: int| 0 <= i < s.len() ==> is_unicode_whitespace(#[trigger] s[i])
}

/// The invariant of a subscriber name: not blank, at most 256
/// user-perceived characters, and free of the forbidden characters.
pub open spec fn is_valid_subscriber_name(s: Seq<char>) -> bool {
    &&& !is_blank(s)
    &&& grapheme_count_of(s) <= 256
    &&& forall|i: int| 0 <= i < s.len() ==> !is_forbidden_name_char(#[trigger] s[i])
}

fn char_is_unicode_whitespace(c: char) -> (r: bool)
    ensures
        r == is_unicode_whitespace(c),
{
    let u = c as u32;
    (0x09 <= u && u <= 0x0D) || u == 0x20 || u == 0x85 || u == 0xA0 || u == 0x1680 || (0x2000 <= u
        && u <= 0x200A) || u == 0x2028 || u == 0x2029 || u == 0x202F || u == 0x205F || u == 0x3000
}

fn char_is_forbidden(c: char) -> (r: bool)
    ensures
        r == is_forbidden_name_char(c),
{
    c == '/' || c == '(' || c == ')' || c == '<' || c == '>' || c == '\\' || c == '{' || c == '}'
}

/// A subscriber's display name, validated at construction.
#[derive(Debug)]
pub struct SubscriberName(String);

impl View for SubscriberName {
    type V = Seq<char>;

    closed spec fn view(&self) -> Seq<char> {
        self.0@
    }
}

impl SubscriberName {
    /// Returns a `SubscriberName` when the input satisfies every
    /// invariant of a subscriber name, and a message naming the
    /// rejected input otherwise.
    pub fn parse(s: String) -> (r: Result<SubscriberName, String>)
        ensures
            r is Ok <==> is_valid_subscriber_name(s@),
            r matches Ok(name) ==> name@ == s@,
            r matches Err(e) ==> e@ == s@ + " is not a valid subscriber name."@,
    {
        let is_empty_or_whitespace = all_whitespace(s.as_str());
        let is_too_long = grapheme_count(s.as_str()) > 256;
        let contains_forbidden_characters = any_forbidden(s.as_str());
        if is_empty_or_whitespace || is_too_long || contains_forbidden_characters {
            Err(s.concat(" is not a valid subscriber name."))
        } else {
            Ok(SubscriberName(s))
        }
    }

    /// Yields ownership of the inner string, consuming the wrapper.
    pub fn inner(self) -> (r: String)
        ensures
            r@ == self@,
    {
        self.0
    }

    /// Hands out a mutable view of the inner string. A deliberate
    /// escape hatch: through it a caller can rewrite the value and
    /// break the invariant that `parse` established.
    pub fn inner_mut(&mut self) -> (r: &mut String)
        ensures
            r@ == old(self)@,
            final(self)@ == final(r)@,
    {
        &mut self.0
    }

    /// Read-only access to the inner string.
    pub fn inner_ref(&self) -> (r: &str)
        ensures
            r@ == self@,
    {
        self.0.as_str()
    }

    /// Read-only access to the inner string.
    pub fn as_ref(&self) -> (r: &str)
        ensures
            r@ == self@,
    {
        self.0.as_str()
    }
}

fn all_whitespace(s: &str) -> (r: bool)
    ensures
        r == is_blank(s@),
{
    let n = s.unicode_len();
    let mut i: usize = 0;
    while i < n
        invariant
            i <= n,
            n == s@.len(),
            forall|j: int| 0 <= j < i ==> is_unicode_whitespace(#[trigger] s@[j]),
        decreases n - i,
    {
        if !char_is_unicode_whitespace(s.get_char(i)) {
            return false;
        }
        i += 1;
    }
    true
}

fn any_forbidden(s: &str) -> (r: bool)
    ensures
        r == exists|i: int| 0 <= i < s@.len() && is_forbidden_name_char(#[trigger] s@[i]),
{
    let n = s.unicode_len();
    let mut i: usize = 0;
    while i < n
        invariant
            i <= n,
            n == s@.len(),
            forall|j: int| 0 <= j < i ==> !is_forbidden_name_char(#[trigger] s@[j]),
        decreases n - i,
    {
        if char_is_forbidden(s.get_char(i)) {
            return true;
        }
        i += 1;
    }
    false
}

/// A subscriber's email address, validated at construction.
#[derive(Debug, Clone)]
pub struct SubscriberEmail(String);

impl View for SubscriberEmail {
    type V = Seq<char>;

    closed spec fn view(&self) -> Seq<char> {
        self.0@
    }
}

impl SubscriberEmail {
    /// Returns a `SubscriberEmail` exactly when the input is a
    /// syntactically valid email address, and a message naming the
    /// rejected input otherwise.
    pub fn parse(s: String) -> (r: Result<SubscriberEmail, String>)
        ensures
            r is Ok <==> email_syntax_ok(s@),
            r matches Ok(email) ==> email@ == s@,
            r matches Err(e) ==> e@ == s@ + " is not a valid subscriber email."@,
    {
        if email_format_is_valid(s.as_str()) {
            Ok(SubscriberEmail(s))
        } else {
            Err(s.concat(" is not a valid subscriber email."))
        }
    }

    /// Read-only access to the inner string.
    pub fn as_ref(&self) -> (r: &str)
        ensures
            r@ == self@,
    {
        self.0.as_str()
    }
}

/// A pair of validated subscriber fields, ready to be recorded.
#[derive(Debug)]
pub struct NewSubscriber {
    pub email: SubscriberEmail,
    pub name: SubscriberName,
}

/// A name of exactly 256 user-perceived characters is accepted,
/// provided it is not blank and carries no forbidden character; one of
/// 257 is always rejected.
pub proof fn law_name_length_boundary(s: Seq<char>)
    ensures
        grapheme_count_of(s) == 256 && !is_blank(s) && (forall|i: int|
            0 <= i < s.len() ==> !is_forbidden_name_char(#[trigger] s[i]))
            ==> is_valid_subscriber_name(s),
        grapheme_count_of(s) == 257 ==> !is_valid_subscriber_name(s),
{
}

/// The empty string and every whitespace-only string are rejected as
/// subscriber names.
pub proof fn law_blank_name_rejected(s: Seq<char>)
    ensures
        s.len() == 0 ==> !is_valid_subscriber_name(s),
        is_blank(s) ==> !is_valid_subscriber_name(s),
{
}

/// A string containing any forbidden character anywhere is rejected as
/// a subscriber name.
pub proof fn law_forbidden_character_rejected(s: Seq<char>, i: int)
    ensures
        0 <= i < s.len() && is_forbidden_name_char(s[i]) ==> !is_valid_subscriber_name(s),
{
}

} // verus!
