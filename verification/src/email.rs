//! The email syntax validator and the verification step.
//!
//! An accepted address has the shape `local-part@domain.tld`: one or more
//! word-or-dot characters, an `@`, one or more word-or-dot characters, a
//! dot, and one or more word characters, with nothing before or after. A
//! word character is an ASCII letter, an ASCII digit or an underscore.
//!
//! Verification is a placeholder for an external confirmation channel: an
//! address is accepted exactly when its text contains the substring `ok`.

use vstd::prelude::*;
use vstd::string::StrSliceExecFns;

use crate::errors::ValidationError;
use crate::errors::VerificationError;

verus! {

/// A word character: an ASCII letter, an ASCII digit or an underscore.
pub open spec fn is_word_char(c: char) -> bool {
    (97 <= c as u32 && c as u32 <= 122)  // 'a' to 'z'
    || (65 <= c as u32 && c as u32 <= 90)  // 'A' to 'Z'
    || (48 <= c as u32 && c as u32 <= 57)  // '0' to '9'
    || c == '_'
}

/// A word character or a dot.
pub open spec fn is_word_dot(c: char) -> bool {
    is_word_char(c) || c == '.'
}

/// The characters of `s` decompose into `local-part@domain.tld` with the
/// `@` at position `a` and the final dot at position `d`: a nonempty
/// word-or-dot local part, a nonempty word-or-dot segment between `@` and
/// the dot, and a nonempty all-word segment after the dot.
pub open spec fn email_split(s: Seq<char>, a: int, d: int) -> bool {
    &&& 1 <= a
    &&& a + 2 <= d
    &&& d + 2 <= s.len()
    &&& s[a] == '@'
    &&& s[d] == '.'
    &&& forall|i: int| 0 <= i < a ==> is_word_dot(#[trigger] s[i])
    &&& forall|i: int| a < i < d ==> is_word_dot(#[trigger] s[i])
    &&& forall|i: int| d < i < s.len() ==> is_word_char(#[trigger] s[i])
}

/// `s` matches the accepted email pattern: some decomposition into
/// `local-part@domain.tld` exists.
pub open spec fn email_wf(s: Seq<char>) -> bool {
    exists|a: int, d: int| email_split(s, a, d)
}

/// `s` contains the substring `ok`.
pub open spec fn contains_ok(s: Seq<char>) -> bool {
    exists|i: int| 0 <= i && i + 2 <= s.len() && (#[trigger] s[i]) == 'o' && s[i + 1] == 'k'
}

/// A string that matched the accepted email pattern. Produced only by
/// `check_email`.
#[derive(Debug)]
pub struct Email(pub String);

/// An email whose external verification has not succeeded yet.
#[derive(Debug)]
pub struct UnverifiedEmail(pub Email);

/// An email whose external verification has succeeded. Produced only by
/// `verify_email`, from an `UnverifiedEmail` that passed the policy.
#[derive(Debug)]
pub struct VerifiedEmail(pub Email);

impl View for Email {
    type V = Seq<char>;

    open spec fn view(&self) -> Seq<char> {
        self.0@
    }
}

impl View for UnverifiedEmail {
    type V = Seq<char>;

    open spec fn view(&self) -> Seq<char> {
        self.0@
    }
}

impl View for VerifiedEmail {
    type V = Seq<char>;

    open spec fn view(&self) -> Seq<char> {
        self.0@
    }
}

/// An executable test for `is_word_char`.
fn char_is_word(c: char) -> (r: bool)
    ensures
        r == is_word_char(c),
{
    let u = c as u32;
    (97 <= u && u <= 122) || (65 <= u && u <= 90) || (48 <= u && u <= 57) || c == '_'
}

/// An executable test for `is_word_dot`.
fn char_is_word_dot(c: char) -> (r: bool)
    ensures
        r == is_word_dot(c),
{
    char_is_word(c) || c == '.'
}

/// The position of the first occurrence of `c` in `s`, if any.
fn find_char(s: &str, c: char) -> (r: Option<usize>)
    ensures
        match r {
            Some(i) => i < s@.len() && s@[i as int] == c && (forall|j: int|
                0 <= j < i ==> (#[trigger] s@[j]) != c),
            None => forall|j: int| 0 <= j < s@.len() ==> (#[trigger] s@[j]) != c,
        },
{
    let n = s.unicode_len();
    let mut i: usize = 0;
    while i < n
        invariant
            i <= n,
            n == s@.len(),
            forall|j: int| 0 <= j < i ==> (#[trigger] s@[j]) != c,
        decreases n - i,
    {
        if s.get_char(i) == c {
            return Some(i);
        }
        i = i + 1;
    }
    None
}

/// The position of the last occurrence of `c` in `s` at or after `from`,
/// if any.
fn rfind_char_from(s: &str, c: char, from: usize) -> (r: Option<usize>)
    requires
        from <= s@.len(),
    ensures
        match r {
            Some(i) => from <= i < s@.len() && s@[i as int] == c && (forall|j: int|
                i < j < s@.len() ==> (#[trigger] s@[j]) != c),
            None => forall|j: int| from <= j < s@.len() ==> (#[trigger] s@[j]) != c,
        },
{
    let n = s.unicode_len();
    let mut i: usize = n;
    while i > from
        invariant
            from <= i <= n,
            n == s@.len(),
            forall|j: int| i <= j < n ==> (#[trigger] s@[j]) != c,
        decreases i,
    {
        i = i - 1;
        if s.get_char(i) == c {
            return Some(i);
        }
    }
    None
}

/// Whether every character of `s` in the range `lo` to `hi` (exclusive) is
/// a word-or-dot character.
fn all_word_dot_range(s: &str, lo: usize, hi: usize) -> (r: bool)
    requires
        lo <= hi <= s@.len(),
    ensures
        r == (forall|j: int| lo <= j < hi ==> is_word_dot(#[trigger] s@[j])),
{
    let mut i: usize = lo;
    while i < hi
        invariant
            lo <= i <= hi,
            hi <= s@.len(),
            forall|j: int| lo <= j < i ==> is_word_dot(#[trigger] s@[j]),
        decreases hi - i,
    {
        if !char_is_word_dot(s.get_char(i)) {
            assert(!is_word_dot(s@[i as int]));
            return false;
        }
        i = i + 1;
    }
    true
}

/// Whether every character of `s` in the range `lo` to `hi` (exclusive) is
/// a word character.
fn all_word_range(s: &str, lo: usize, hi: usize) -> (r: bool)
    requires
        lo <= hi <= s@.len(),
    ensures
        r == (forall|j: int| lo <= j < hi ==> is_word_char(#[trigger] s@[j])),
{
    let mut i: usize = lo;
    while i < hi
        invariant
            lo <= i <= hi,
            hi <= s@.len(),
            forall|j: int| lo <= j < i ==> is_word_char(#[trigger] s@[j]),
        decreases hi - i,
    {
        if !char_is_word(s.get_char(i)) {
            assert(!is_word_char(s@[i as int]));
            return false;
        }
        i = i + 1;
    }
    true
}

/// In any decomposition of `s` the `@` stands at the unique position that
/// holds an `@`: every other position holds a word-or-dot or word
/// character, and `@` is neither.
proof fn lemma_at_unique(s: Seq<char>, a2: int, d2: int, a: int)
    requires
        email_split(s, a2, d2),
        0 <= a < s.len(),
        s[a] == '@',
    ensures
        a2 == a,
{
    assert(!is_word_dot('@'));
}

/// In any decomposition of `s` the final dot stands at the position of the
/// last dot after the `@`: a later dot would sit in the all-word tail, and
/// an earlier one would leave a dot after it.
proof fn lemma_dot_unique(s: Seq<char>, a2: int, d2: int, d: int)
    requires
        email_split(s, a2, d2),
        a2 < d < s.len(),
        s[d] == '.',
        forall|j: int| d < j < s.len() ==> (#[trigger] s[j]) != '.',
    ensures
        d2 == d,
{
    assert(!is_word_char('.'));
}

/// Whether `s` matches the accepted email pattern.
fn email_matches(s: &str) -> (r: bool)
    ensures
        r == email_wf(s@),
{
    let n = s.unicode_len();
    let at_pos = find_char(s, '@');
    match at_pos {
        None => {
            proof {
                assert(!email_wf(s@)) by {
                    if email_wf(s@) {
                        let (a2, d2) = choose|a2: int, d2: int| email_split(s@, a2, d2);
                        assert(s@[a2] == '@');
                    }
                }
            }
            false
        },
        Some(a) => {
            if a == 0 {
                proof {
                    assert(!email_wf(s@)) by {
                        if email_wf(s@) {
                            let (a2, d2) = choose|a2: int, d2: int| email_split(s@, a2, d2);
                            lemma_at_unique(s@, a2, d2, 0);
                        }
                    }
                }
                false
            } else if !all_word_dot_range(s, 0, a) {
                proof {
                    assert(!email_wf(s@)) by {
                        if email_wf(s@) {
                            let (a2, d2) = choose|a2: int, d2: int| email_split(s@, a2, d2);
                            lemma_at_unique(s@, a2, d2, a as int);
                        }
                    }
                }
                false
            } else {
                let dot_pos = rfind_char_from(s, '.', a + 1);
                match dot_pos {
                    None => {
                        proof {
                            assert(!email_wf(s@)) by {
                                if email_wf(s@) {
                                    let (a2, d2) = choose|a2: int, d2: int|
                                        email_split(s@, a2, d2);
                                    lemma_at_unique(s@, a2, d2, a as int);
                                    assert(s@[d2] == '.');
                                }
                            }
                        }
                        false
                    },
                    Some(d) => {
                        if d - a < 2 || n - d < 2 || !all_word_dot_range(s, a + 1, d)
                            || !all_word_range(s, d + 1, n) {
                            proof {
                                assert(!email_wf(s@)) by {
                                    if email_wf(s@) {
                                        let (a2, d2) = choose|a2: int, d2: int|
                                            email_split(s@, a2, d2);
                                        lemma_at_unique(s@, a2, d2, a as int);
                                        lemma_dot_unique(s@, a2, d2, d as int);
                                    }
                                }
                            }
                            false
                        } else {
                            proof {
                                assert(email_split(s@, a as int, d as int));
                            }
                            true
                        }
                    },
                }
            }
        },
    }
}

/// Whether `s` contains the substring `ok`.
fn has_ok(s: &str) -> (r: bool)
    ensures
        r == contains_ok(s@),
{
    let n = s.unicode_len();
    if n < 2 {
        return false;
    }
    let mut prev = s.get_char(0);
    let mut i: usize = 1;
    while i < n
        invariant
            1 <= i <= n,
            n == s@.len(),
            prev == s@[i - 1],
            forall|j: int| 0 <= j < i - 1 ==> !((#[trigger] s@[j]) == 'o' && s@[j + 1] == 'k'),
        decreases n - i,
    {
        let c = s.get_char(i);
        if prev == 'o' && c == 'k' {
            assert(s@[i - 1] == 'o' && s@[i as int] == 'k');
            return true;
        }
        prev = c;
        i = i + 1;
    }
    false
}

/// Validate the syntax of a raw email address. A string that matches the
/// accepted pattern is returned unchanged, wrapped as an `Email`; any other
/// string is rejected as `InvalidEmailFormat`. No normalization is
/// performed.
pub fn check_email(email: String) -> (r: Result<Email, ValidationError>)
    ensures
        email_wf(email@) ==> (r matches Ok(e) && e@ == email@),
        !email_wf(email@) ==> r == Err::<Email, ValidationError>(
            ValidationError::InvalidEmailFormat,
        ),
{
    if email_matches(email.as_str()) {
        Ok(Email(email))
    } else {
        Err(ValidationError::InvalidEmailFormat)
    }
}

/// Attempt to promote an unverified email. The placeholder policy, standing
/// in for an external confirmation channel, accepts exactly the addresses
/// whose text contains the substring `ok`; an accepted address is returned
/// as a `VerifiedEmail` with the same content, and any other address is
/// rejected as `NotYetVerified`.
pub fn verify_email(email: &UnverifiedEmail) -> (r: Result<VerifiedEmail, VerificationError>)
    ensures
        contains_ok(email@) ==> (r matches Ok(v) && v@ == email@),
        !contains_ok(email@) ==> r == Err::<VerifiedEmail, VerificationError>(
            VerificationError::NotYetVerified,
        ),
{
    let UnverifiedEmail(unverified_email) = email;
    let is_ok = has_ok(unverified_email.0.as_str());
    if is_ok {
        Ok(VerifiedEmail(Email(unverified_email.0.clone())))
    } else {
        Err(VerificationError::NotYetVerified)
    }
}

} // verus!
