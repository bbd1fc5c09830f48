//! A validated email address newtype built through fallible conversion,
//! and a three-value holder that tracks which value it handed out last.
//! The email checks are simple structural rules: non-empty, exactly one
//! `@` with text on both sides, and at least one dot somewhere.

use vstd::prelude::*;
use vstd::string::StrSliceExecFns;

verus! {

/// How often `c` occurs in `s`.
pub open spec fn spec_count_char(s: Seq<char>, c: char) -> nat
    decreases s.len(),
{
    if s.len() == 0 {
        0
    } else {
        spec_count_char(s.drop_last(), c) + if s.last() == c {
            1nat
        } else {
            0nat
        }
    }
}

/// Counts the occurrences of `c` in `s`.
fn count_char(s: &str, c: char) -> (r: usize)
    ensures
        r == spec_count_char(s@, c),
{
    let n = s.unicode_len();
    let mut count: usize = 0;
    let mut i: usize = 0;
    while i < n
        invariant
            i <= n,
            n == s@.len(),
            count == spec_count_char(s@.take(i as int), c),
            count <= i,
        decreases n - i,
    {
        proof {
            assert(s@.take(i + 1).drop_last() =~= s@.take(i as int));
            assert(s@.take(i + 1).last() == s@[i as int]);
        }
        if s.get_char(i) == c {
            count = count + 1;
        }
        i = i + 1;
    }
    proof {
        assert(s@.take(n as int) =~= s@);
    }
    count
}

/// The reason the given text is not an acceptable email address, if any,
/// checked in this order: emptiness, a missing `@`, a missing dot, more
/// than one `@`, an empty local part, an empty domain part.
pub open spec fn spec_email_issue(s: Seq<char>) -> Option<Seq<char>> {
    if s.len() == 0 {
        Some("email cannot be empty"@)
    } else if !s.contains('@') {
        Some("email must contain '@'"@)
    } else if !s.contains('.') {
        Some("email must contain '.'"@)
    } else if spec_count_char(s, '@') != 1 {
        Some("email must have exactly one '@'"@)
    } else if s[0] == '@' {
        Some("local part cannot be empty"@)
    } else if s.last() == '@' {
        Some("domain part cannot be empty"@)
    } else {
        None
    }
}

/// A string that passed the email validation.
#[derive(Clone, Debug, PartialEq, Eq, Hash, PartialOrd, Ord)]
pub struct EmailString(String);

/// Why a string was rejected as an email address: the offending input and
/// a fixed reason text.
#[derive(Debug, Clone, PartialEq, Eq)]
pub struct InvalidEmailError {
    invalid_input: String,
    reason: &'static str,
}

impl InvalidEmailError {
    /// The rejected input.
    pub closed spec fn spec_input(self) -> Seq<char> {
        self.invalid_input@
    }

    /// The fixed reason text.
    pub closed spec fn spec_reason(self) -> Seq<char> {
        self.reason@
    }

    /// The rejected input.
    pub fn invalid_input(&self) -> (r: &str)
        ensures
            r@ == self.spec_input(),
    {
        self.invalid_input.as_str()
    }

    /// The reason text.
    pub fn reason(&self) -> (r: &str)
        ensures
            r@ == self.spec_reason(),
    {
        self.reason
    }
}

impl EmailString {
    /// The address's characters.
    pub closed spec fn spec_str(self) -> Seq<char> {
        self.0@
    }

    /// Checks the structural email rules, reporting the first violation.
    fn validate(email: &str) -> (r: Result<(), &'static str>)
        ensures
            match r {
                Ok(()) => spec_email_issue(email@) is None,
                Err(reason) => spec_email_issue(email@) == Some(reason@),
            },
    {
        if email.is_empty() {
            return Err("email cannot be empty");
        }
        if !crate::text::contains_char(email, '@') {
            return Err("email must contain '@'");
        }
        if !crate::text::contains_char(email, '.') {
            return Err("email must contain '.'");
        }
        if count_char(email, '@') != 1 {
            return Err("email must have exactly one '@'");
        }
        if email.get_char(0) == '@' {
            return Err("local part cannot be empty");
        }
        let n = email.unicode_len();
        if email.get_char(n - 1) == '@' {
            return Err("domain part cannot be empty");
        }
        Ok(())
    }

    /// The address as text.
    pub fn as_str(&self) -> (r: &str)
        ensures
            r@ == self.spec_str(),
    {
        self.0.as_str()
    }
}

impl TryFrom<String> for EmailString {
    type Error = InvalidEmailError;

    /// Validates and wraps the string; a rejected input comes back in the
    /// error together with the first violated rule.
    fn try_from(value: String) -> (r: Result<Self, InvalidEmailError>)
        ensures
            match r {
                Ok(em) => spec_email_issue(value@) is None && em.spec_str() == value@,
                Err(e) => {
                    &&& spec_email_issue(value@) == Some(e.spec_reason())
                    &&& e.spec_input() == value@
                },
            },
    {
        match Self::validate(value.as_str()) {
            Ok(()) => Ok(EmailString(value)),
            Err(reason) => Err(InvalidEmailError { invalid_input: value, reason }),
        }
    }
}

/// The std-level conversion specification stays unused (`obeys` is
/// false): the exact contract stands on `try_from` itself, where the
/// error value's text can be related to the input.
impl vstd::std_specs::convert::TryFromSpecImpl<String> for EmailString {
    open spec fn obeys_try_from_spec() -> bool {
        false
    }

    closed spec fn try_from_spec(value: String) -> Result<Self, InvalidEmailError> {
        arbitrary()
    }
}

impl From<EmailString> for String {
    /// Unwraps the validated address.
    fn from(email: EmailString) -> (r: String) {
        email.0
    }
}

impl vstd::std_specs::convert::FromSpecImpl<EmailString> for String {
    open spec fn obeys_from_spec() -> bool {
        true
    }

    closed spec fn from_spec(email: EmailString) -> String {
        email.0
    }
}

/// Three values of which one is handed out on each draw; remembers the
/// index of the last draw.
pub struct Random<T> {
    values: [T; 3],
    last_index: usize,
}

impl<T> Random<T> {
    /// The three values, in construction order.
    pub closed spec fn spec_values(self) -> Seq<T> {
        self.values@
    }

    /// The index used by the most recent draw (0 before any draw).
    pub closed spec fn spec_last_index(self) -> usize {
        self.last_index
    }

    /// Wraps three values.
    pub fn new(v1: T, v2: T, v3: T) -> (r: Self)
        ensures
            r.spec_values() == seq![v1, v2, v3],
            r.spec_last_index() == 0,
    {
        let r = Random { values: [v1, v2, v3], last_index: 0 };
        proof {
            assert(r.spec_values() =~= seq![v1, v2, v3]);
        }
        r
    }

    /// The index that was used in the last draw.
    pub fn last_index(&self) -> (r: usize)
        ensures
            r == self.spec_last_index(),
    {
        self.last_index
    }

    /// Draws one of the three values at random, recording which one.
    pub fn draw(&mut self) -> (r: &T)
        ensures
            final(self).spec_values() == old(self).spec_values(),
            final(self).spec_last_index() < 3,
            *r == final(self).spec_values()[final(self).spec_last_index() as int],
    {
        let index = crate::random::pick_index_of_three();
        self.last_index = index;
        &self.values[index]
    }

}

impl<T: Clone> Clone for Random<T> {
    /// Clones the three values; which value a clone hands out next is
    /// independent of the original.
    fn clone(&self) -> (r: Self)
        ensures
            r.spec_last_index() == self.spec_last_index(),
    {
        Random {
            values: [self.values[0].clone(), self.values[1].clone(), self.values[2].clone()],
            last_index: self.last_index,
        }
    }
}

impl<T> From<[T; 3]> for Random<T> {
    /// Wraps an array of three values.
    fn from(values: [T; 3]) -> (r: Self) {
        Random { values, last_index: 0 }
    }
}

impl<T> vstd::std_specs::convert::FromSpecImpl<[T; 3]> for Random<T> {
    open spec fn obeys_from_spec() -> bool {
        true
    }

    closed spec fn from_spec(values: [T; 3]) -> Random<T> {
        Random { values, last_index: 0 }
    }
}

} // verus!
