//! The address a subscriber gives when signing up.
//!
//! The grammar is the usual one for an address typed into a form: a local
//! part of letters, digits, dots and the printable symbols that mail systems
//! allow unquoted, then `@`, then a domain of dot-separated labels made of
//! letters, digits and hyphens, where no label is empty or starts or ends with
//! a hyphen.

use vstd::prelude::*;

verus! {

pub open spec fn is_ascii_alnum(c: char) -> bool {
    ('a' <= c && c <= 'z') || ('A' <= c && c <= 'Z') || ('0' <= c && c <= '9')
}

/// Characters allowed in the local part (before the `@`).
pub open spec fn is_local_char(c: char) -> bool {
    is_ascii_alnum(c) || c == '.' || c == '!' || c == '#' || c == '$' || c == '%' || c == '&'
        || c == '\'' || c == '*' || c == '+' || c == '/' || c == '=' || c == '?' || c == '^' || c
        == '_' || c == '`' || c == '{' || c == '|' || c == '}' || c == '~' || c == '-'
}

/// Characters allowed in the domain (after the `@`).
pub open spec fn is_domain_char(c: char) -> bool {
    is_ascii_alnum(c) || c == '-' || c == '.'
}

/// Allowed characters only, with every dot between two other characters: no
/// dot first, last, or next to another dot.
pub open spec fn valid_local_part(l: Seq<char>) -> bool {
    &&& l.len() > 0
    &&& forall|i: int| 0 <= i < l.len() ==> is_local_char(#[trigger] l[i])
    &&& l[0] != '.'
    &&& l[l.len() - 1] != '.'
    &&& forall|i: int| 0 <= i < l.len() - 1 ==> !(#[trigger] l[i] == '.' && l[i + 1] == '.')
}

/// Two neighbouring domain characters: a dot has a letter or digit on each side.
pub open spec fn domain_pair_ok(a: char, b: char) -> bool {
    (a == '.' ==> is_ascii_alnum(b)) && (b == '.' ==> is_ascii_alnum(a))
}

/// Dot-separated labels of letters, digits and hyphens; no label is empty or
/// begins or ends with a hyphen.
pub open spec fn valid_domain(d: Seq<char>) -> bool {
    &&& d.len() > 0
    &&& forall|i: int| 0 <= i < d.len() ==> is_domain_char(#[trigger] d[i])
    &&& is_ascii_alnum(d[0])
    &&& is_ascii_alnum(d[d.len() - 1])
    &&& forall|i: int| 0 <= i < d.len() - 1 ==> domain_pair_ok(#[trigger] d[i], d[i + 1])
}

/// `s` splits at an `@` into a valid local part and a valid domain.
pub open spec fn valid_email(s: Seq<char>) -> bool {
    exists|k: int|
        0 <= k < s.len() && #[trigger] s[k] == '@' && valid_local_part(s.subrange(0, k))
            && valid_domain(s.subrange(k + 1, s.len() as int))
}

pub open spec fn email_error(s: Seq<char>) -> Seq<char> {
    s + " is not a valid subscriber email."@
}

fn char_is_ascii_alnum(c: char) -> (r: bool)
    ensures
        r == is_ascii_alnum(c),
{
    ('a' <= c && c <= 'z') || ('A' <= c && c <= 'Z') || ('0' <= c && c <= '9')
}

fn char_is_local(c: char) -> (r: bool)
    ensures
        r == is_local_char(c),
{
    char_is_ascii_alnum(c) || c == '.' || c == '!' || c == '#' || c == '$' || c == '%' || c
        == '&' || c == '\'' || c == '*' || c == '+' || c == '/' || c == '=' || c == '?' || c
        == '^' || c == '_' || c == '`' || c == '{' || c == '|' || c == '}' || c == '~' || c
        == '-'
}

/// The index of the first `@` in `s`, if any.
fn find_at_sign(s: &str) -> (r: Option<usize>)
    ensures
        r matches Some(k) ==> k < s@.len() && s@[k as int] == '@' && forall|j: int|
            0 <= j < k ==> #[trigger] s@[j] != '@',
        r is None ==> forall|j: int| 0 <= j < s@.len() ==> #[trigger] s@[j] != '@',
{
    let n = s.unicode_len();
    let mut i: usize = 0;
    while i < n
        invariant
            n == s@.len(),
            i <= n,
            forall|j: int| 0 <= j < i ==> #[trigger] s@[j] != '@',
        decreases n - i,
    {
        if s.get_char(i) == '@' {
            return Some(i);
        }
        i = i + 1;
    }
    None
}

fn check_local_part(s: &str, from: usize, to: usize) -> (r: bool)
    requires
        from <= to <= s@.len(),
    ensures
        r == valid_local_part(s@.subrange(from as int, to as int)),
{
    let ghost l = s@.subrange(from as int, to as int);
    if from == to {
        return false;
    }
    if s.get_char(from) == '.' || s.get_char(to - 1) == '.' {
        return false;
    }
    let mut i: usize = from;
    let mut prev: char = s.get_char(from);
    while i < to
        invariant
            from <= i <= to <= s@.len(),
            from < to,
            l == s@.subrange(from as int, to as int),
            i > from ==> prev == l[i - from - 1],
            forall|j: int| 0 <= j < i - from ==> is_local_char(#[trigger] l[j]),
            forall|j: int| 0 <= j < i - from - 1 ==> !(#[trigger] l[j] == '.' && l[j + 1] == '.'),
        decreases to - i,
    {
        let c = s.get_char(i);
        assert(l[i - from] == c);
        if !char_is_local(c) {
            return false;
        }
        if i > from && prev == '.' && c == '.' {
            assert(l[i - from - 1] == '.' && l[i - from] == '.');
            return false;
        }
        prev = c;
        i = i + 1;
    }
    true
}

fn check_domain(s: &str, from: usize, to: usize) -> (r: bool)
    requires
        from <= to <= s@.len(),
    ensures
        r == valid_domain(s@.subrange(from as int, to as int)),
{
    let ghost d = s@.subrange(from as int, to as int);
    if from == to {
        return false;
    }
    if !char_is_ascii_alnum(s.get_char(from)) || !char_is_ascii_alnum(s.get_char(to - 1)) {
        return false;
    }
    let mut i: usize = from;
    let mut prev: char = s.get_char(from);
    while i < to
        invariant
            from <= i <= to <= s@.len(),
            from < to,
            d == s@.subrange(from as int, to as int),
            i > from ==> prev == d[i - from - 1],
            forall|j: int| 0 <= j < i - from ==> is_domain_char(#[trigger] d[j]),
            forall|j: int| 0 <= j < i - from - 1 ==> domain_pair_ok(#[trigger] d[j], d[j + 1]),
        decreases to - i,
    {
        let c = s.get_char(i);
        assert(d[i - from] == c);
        if !(char_is_ascii_alnum(c) || c == '-' || c == '.') {
            return false;
        }
        if i > from {
            let ok = (prev != '.' || char_is_ascii_alnum(c)) && (c != '.' || char_is_ascii_alnum(
                prev,
            ));
            if !ok {
                assert(!domain_pair_ok(d[i - from - 1], d[i - from]));
                return false;
            }
        }
        prev = c;
        i = i + 1;
    }
    true
}

/// Whether `s` is a valid address.
pub fn is_valid_email(s: &str) -> (r: bool)
    ensures
        r == valid_email(s@),
{
    let n = s.unicode_len();
    match find_at_sign(s) {
        None => false,
        Some(k) => {
            let ok = check_local_part(s, 0, k) && check_domain(s, k + 1, n);
            if ok {
                assert(s@[k as int] == '@');
            } else {
                assert forall|k2: int|
                    0 <= k2 < s@.len() && #[trigger] s@[k2] == '@' implies !(valid_local_part(
                    s@.subrange(0, k2),
                ) && valid_domain(s@.subrange(k2 + 1, s@.len() as int))) by {
                    if k2 > k {
                        let l = s@.subrange(0, k2);
                        assert(l[k as int] == '@');
                        assert(!is_local_char(l[k as int]));
                    }
                }
            }
            ok
        },
    }
}

/// An address needs an `@` with at least one character after it: a string
/// with no `@` followed by a domain segment is refused.
pub proof fn lemma_email_needs_at_and_domain(s: Seq<char>)
    requires
        forall|k: int| 0 <= k < s.len() - 1 ==> #[trigger] s[k] != '@',
    ensures
        !valid_email(s),
{
    assert forall|k: int|
        0 <= k < s.len() && #[trigger] s[k] == '@' implies !valid_domain(
        s.subrange(k + 1, s.len() as int),
    ) by {
        assert(k == s.len() - 1);
    }
}

/// A validated subscriber address.
#[derive(Debug)]
pub struct SubscriberEmail(String);

impl View for SubscriberEmail {
    type V = Seq<char>;

    closed spec fn view(&self) -> Seq<char> {
        self.0@
    }
}

impl SubscriberEmail {
    #[verifier::type_invariant]
    closed spec fn inv(&self) -> bool {
        valid_email(self.0@)
    }

    /// Accepts `s` as an address when it matches the grammar, keeping it unchanged.
    pub fn parse(s: String) -> (r: Result<SubscriberEmail, String>)
        ensures
            r is Ok <==> valid_email(s@),
            r matches Ok(email) ==> email@ == s@,
            r matches Err(msg) ==> msg@ == email_error(s@),
    {
        if is_valid_email(s.as_str()) {
            Ok(SubscriberEmail(s))
        } else {
            let mut msg = s.clone();
            msg.append(" is not a valid subscriber email.");
            Err(msg)
        }
    }

    /// The address as text.
    pub fn as_ref(&self) -> (r: &str)
        ensures
            r@ == self@,
    {
        self.0.as_str()
    }
}

} // verus!
