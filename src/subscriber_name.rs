//! The display name a subscriber gives when signing up.

use vstd::prelude::*;
use unicode_segmentation::UnicodeSegmentation;
use crate::text::is_blank;
use crate::text::is_blank_text;

verus! {

/// Longest accepted name, in extended grapheme clusters.
pub const MAX_NAME_GRAPHEMES: usize = 256;

/// The number of extended grapheme clusters in `s`, as Unicode's text
/// segmentation rules count them.
pub uninterp spec fn grapheme_count(s: Seq<char>) -> nat;

/// Relies on `UnicodeSegmentation::graphemes(s, true).count()`: the number of
/// extended grapheme clusters. Each cluster holds at least one character, so the
/// count is at most the number of characters, and zero only for the empty string.
#[verifier::external_body]
fn count_graphemes(s: &str) -> (r: usize)
    ensures
        r as nat == grapheme_count(s@),
        r <= s@.len(),
        (r == 0) == (s@.len() == 0),
{
    s.graphemes(true).count()
}

/// Characters that may not appear anywhere in a name.
pub open spec fn is_forbidden_name_char(c: char) -> bool {
    c == '/' || c == '(' || c == ')' || c == '"' || c == '<' || c == '>' || c == '\\' || c
        == '{' || c == '}'
}

pub open spec fn has_forbidden_name_char(s: Seq<char>) -> bool {
    exists|i: int| 0 <= i < s.len() && is_forbidden_name_char(#[trigger] s[i])
}

/// A name is accepted when it is not blank, has at most 256 grapheme clusters
/// and holds none of the forbidden characters.
pub open spec fn valid_name(s: Seq<char>) -> bool {
    &&& !is_blank(s)
    &&& grapheme_count(s) <= MAX_NAME_GRAPHEMES
    &&& !has_forbidden_name_char(s)
}

/// The message that explains why `s` was refused: the first failed rule, in
/// the order blank, too long, forbidden character.
pub open spec fn name_error(s: Seq<char>) -> Seq<char> {
    if is_blank(s) {
        s + " is empty or whitespace"@
    } else if grapheme_count(s) > MAX_NAME_GRAPHEMES {
        s + " is longer than 256 characters"@
    } else {
        s + " contains forbidden characters: ['/', '(', ')', '\"', '<', '>', '\\\\', '{', '}']"@
    }
}

fn contains_forbidden_char(s: &str) -> (r: bool)
    ensures
        r == has_forbidden_name_char(s@),
{
    let n = s.unicode_len();
    let mut i: usize = 0;
    while i < n
        invariant
            n == s@.len(),
            i <= n,
            forall|j: int| 0 <= j < i ==> !is_forbidden_name_char(#[trigger] s@[j]),
        decreases n - i,
    {
        let c = s.get_char(i);
        if c == '/' || c == '(' || c == ')' || c == '"' || c == '<' || c == '>' || c == '\\' || c
            == '{' || c == '}' {
            return true;
        }
        i = i + 1;
    }
    false
}

/// A validated subscriber name.
#[derive(Debug)]
pub struct SubscriberName(String);

impl View for SubscriberName {
    type V = Seq<char>;

    closed spec fn view(&self) -> Seq<char> {
        self.0@
    }
}

impl SubscriberName {
    #[verifier::type_invariant]
    closed spec fn inv(&self) -> bool {
        valid_name(self.0@)
    }

    /// Accepts `s` as a name when it meets every rule, keeping it unchanged.
    pub fn parse(s: String) -> (r: Result<SubscriberName, String>)
        ensures
            r is Ok <==> valid_name(s@),
            r matches Ok(name) ==> name@ == s@,
            r matches Err(msg) ==> msg@ == name_error(s@),
            grapheme_count(s@) <= s@.len(),
    {
        let graphemes = count_graphemes(s.as_str());
        if is_blank_text(s.as_str()) {
            let mut msg = s.clone();
            msg.append(" is empty or whitespace");
            Err(msg)
        } else if graphemes > MAX_NAME_GRAPHEMES {
            let mut msg = s.clone();
            msg.append(" is longer than 256 characters");
            Err(msg)
        } else if contains_forbidden_char(s.as_str()) {
            let mut msg = s.clone();
            msg.append(
                " contains forbidden characters: ['/', '(', ')', '\"', '<', '>', '\\\\', '{', '}']",
            );
            Err(msg)
        } else {
            Ok(SubscriberName(s))
        }
    }

    /// The name as text.
    pub fn as_ref(&self) -> (r: &str)
        ensures
            r@ == self@,
    {
        self.0.as_str()
    }

}

} // verus!
