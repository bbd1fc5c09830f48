//! A validated email address in the classic pattern form: a local part of
//! letters, digits and `._%+-`, an `@`, a domain of letters, digits, dots
//! and hyphens, and a final dot followed by at least two letters. The
//! specification is the existence of such a split; the checker finds the
//! only possible split and is proved equivalent.

use vstd::prelude::*;
use vstd::string::StrSliceExecFns;

verus! {

/// A character the local part may hold: letters, digits, or `._%+-`.
pub open spec fn spec_local_char(c: char) -> bool {
    ||| ('a' <= c && c <= 'z')
    ||| ('A' <= c && c <= 'Z')
    ||| ('0' <= c && c <= '9')
    ||| c == '.'
    ||| c == '_'
    ||| c == '%'
    ||| c == '+'
    ||| c == '-'
}

/// A character the domain may hold before its final label: letters,
/// digits, dots and hyphens.
pub open spec fn spec_domain_char(c: char) -> bool {
    ||| ('a' <= c && c <= 'z')
    ||| ('A' <= c && c <= 'Z')
    ||| ('0' <= c && c <= '9')
    ||| c == '.'
    ||| c == '-'
}

/// A letter.
pub open spec fn spec_alpha(c: char) -> bool {
    ('a' <= c && c <= 'z') || ('A' <= c && c <= 'Z')
}

/// Whether splitting at `@`-position `i` and final-dot position `j` shows
/// `s` to be well-formed: a non-empty local part, a non-empty domain part,
/// and a final label of at least two letters.
pub open spec fn spec_email_split(s: Seq<char>, i: int, j: int) -> bool {
    &&& 1 <= i
    &&& i + 2 <= j
    &&& j + 3 <= s.len()
    &&& s[i] == '@'
    &&& s[j] == '.'
    &&& (forall|k: int| 0 <= k < i ==> spec_local_char(#[trigger] s[k]))
    &&& (forall|k: int| i < k < j ==> spec_domain_char(#[trigger] s[k]))
    &&& (forall|k: int| j < k < s.len() ==> spec_alpha(#[trigger] s[k]))
}

/// The email address pattern: some legal split exists.
pub open spec fn spec_email_format(s: Seq<char>) -> bool {
    exists|i: int, j: int| spec_email_split(s, i, j)
}

/// The rejection marker for a malformed email address.
#[derive(Debug, Clone, Copy, PartialEq, Eq, Structural)]
pub struct InvalidEmailFormat;

/// A string in the email address pattern.
#[derive(Debug, Clone, PartialEq, Eq)]
pub struct EmailString(String);

fn char_is_local(c: char) -> (r: bool)
    ensures
        r == spec_local_char(c),
{
    ('a' <= c && c <= 'z') || ('A' <= c && c <= 'Z') || ('0' <= c && c <= '9') || c == '.' || c
        == '_' || c == '%' || c == '+' || c == '-'
}

fn char_is_domain(c: char) -> (r: bool)
    ensures
        r == spec_domain_char(c),
{
    ('a' <= c && c <= 'z') || ('A' <= c && c <= 'Z') || ('0' <= c && c <= '9') || c == '.' || c
        == '-'
}

fn char_is_alpha(c: char) -> (r: bool)
    ensures
        r == spec_alpha(c),
{
    ('a' <= c && c <= 'z') || ('A' <= c && c <= 'Z')
}

/// Checks the email pattern by locating the only split that could work:
/// the single `@` and the last dot.
fn matches_email_format(s: &str) -> (r: bool)
    ensures
        r == spec_email_format(s@),
{
    let n = s.unicode_len();
    // Find the first '@'.
    let mut at: usize = 0;
    while at < n && s.get_char(at) != '@'
        invariant
            at <= n,
            n == s@.len(),
            forall|k: int| 0 <= k < at ==> s@[k] != '@',
        decreases n - at,
    {
        at = at + 1;
    }
    if at >= n {
        // No '@' at all: no split can exist.
        proof {
            if spec_email_format(s@) {
                let (i, j) = choose|i: int, j: int| spec_email_split(s@, i, j);
                assert(s@[i] == '@');
            }
        }
        return false;
    }
    if at == 0 {
        proof {
            if spec_email_format(s@) {
                let (i, j) = choose|i: int, j: int| spec_email_split(s@, i, j);
                assert(i >= at) by {
                    if i < at {
                        assert(s@[i] != '@');
                    }
                }
                assert(spec_local_char(s@[0]));
            }
        }
        return false;
    }
    // Every character before the '@' must be a local character.
    let mut k: usize = 0;
    while k < at
        invariant
            k <= at < n,
            n == s@.len(),
            s@[at as int] == '@',
            forall|t: int| 0 <= t < at ==> s@[t] != '@',
            forall|t: int| 0 <= t < k ==> spec_local_char(#[trigger] s@[t]),
        decreases at - k,
    {
        if !char_is_local(s.get_char(k)) {
            proof {
                if spec_email_format(s@) {
                    let (i, j) = choose|i: int, j: int| spec_email_split(s@, i, j);
                    assert(i == at) by {
                        if i < at {
                            assert(s@[i] != '@');
                        }
                        if i > at {
                            if at < i {
                                assert(spec_local_char(s@[at as int]));
                            }
                        }
                    }
                    assert(spec_local_char(s@[k as int]));
                }
            }
            return false;
        }
        k = k + 1;
    }
    // Find the last '.' in the whole string.
    let mut dot: usize = n;
    let mut scan: usize = 0;
    while scan < n
        invariant
            scan <= n,
            dot == n || dot < scan,
            n == s@.len(),
            dot < n ==> s@[dot as int] == '.',
            forall|t: int| dot < t < scan ==> s@[t] != '.',
            dot == n ==> forall|t: int| 0 <= t < scan ==> s@[t] != '.',
        decreases n - scan,
    {
        if s.get_char(scan) == '.' {
            dot = scan;
        }
        scan = scan + 1;
    }
    proof {
        assert(s@[at as int] == '@');
        assert(forall|t: int| 0 <= t < at ==> s@[t] != '@');
        assert(forall|t: int| 0 <= t < at ==> spec_local_char(#[trigger] s@[t]));
        if spec_email_format(s@) {
            let (i, j) = choose|i: int, j: int| spec_email_split(s@, i, j);
            assert(i == at) by {
                if i < at {
                    assert(s@[i] != '@');
                }
                if i > at {
                    assert(spec_local_char(s@[at as int]));
                }
            }
            assert(s@[j] == '.');
            assert(dot < n) by {
                if dot == n {
                    assert(s@[j] != '.');
                }
            }
            assert(j == dot) by {
                if j < dot {
                    assert(spec_alpha(s@[dot as int]));
                }
                if j > dot {
                    assert(s@[j] != '.');
                }
            }
            assert(at + 2 <= dot);
            assert(dot + 3 <= n);
            assert(forall|t: int| at < t < dot ==> spec_domain_char(#[trigger] s@[t]));
            assert(forall|t: int| dot < t < n ==> spec_alpha(#[trigger] s@[t]));
        }
    }
    if dot >= n {
        return false;
    }
    if dot <= at {
        return false;
    }
    if dot - at < 2 {
        return false;
    }
    if n - dot < 3 {
        return false;
    }
    // The domain between '@' and the last dot.
    let mut domain_ok = true;
    let mut d: usize = at + 1;
    while d < dot
        invariant
            at < d <= dot < n,
            n == s@.len(),
            domain_ok == (forall|t: int| at < t < d ==> spec_domain_char(#[trigger] s@[t])),
        decreases dot - d,
    {
        if !char_is_domain(s.get_char(d)) {
            domain_ok = false;
            proof {
                assert(!spec_domain_char(s@[d as int]));
            }
        }
        d = d + 1;
    }
    // The final label after the last dot: letters only.
    let mut alpha_ok = true;
    let mut a: usize = dot + 1;
    while a < n
        invariant
            dot < a <= n,
            n == s@.len(),
            alpha_ok == (forall|t: int| dot < t < a ==> spec_alpha(#[trigger] s@[t])),
        decreases n - a,
    {
        if !char_is_alpha(s.get_char(a)) {
            alpha_ok = false;
            proof {
                assert(!spec_alpha(s@[a as int]));
            }
        }
        a = a + 1;
    }
    let accept = domain_ok && alpha_ok;
    proof {
        if accept {
            assert(spec_email_split(s@, at as int, dot as int));
        }
        if spec_email_format(s@) {
            assert(domain_ok);
            assert(alpha_ok);
        }
    }
    accept
}

impl EmailString {
    /// The address's characters.
    pub closed spec fn spec_str(self) -> Seq<char> {
        self.0@
    }

    /// The address as text.
    pub fn as_str(&self) -> (r: &str)
        ensures
            r@ == self.spec_str(),
    {
        self.0.as_str()
    }
}

impl TryFrom<String> for EmailString {
    type Error = InvalidEmailFormat;

    /// Accepts exactly the strings in the email address pattern.
    fn try_from(s_email: String) -> (r: Result<Self, InvalidEmailFormat>)
        ensures
            match r {
                Ok(em) => spec_email_format(s_email@) && em.spec_str() == s_email@,
                Err(e) => !spec_email_format(s_email@) && e == InvalidEmailFormat,
            },
    {
        if matches_email_format(s_email.as_str()) {
            Ok(Self(s_email))
        } else {
            Err(InvalidEmailFormat)
        }
    }
}

/// The std-level conversion specification stays unused (`obeys` is
/// false): the exact contract stands on `try_from` itself, where the
/// error value's text can be related to the input.
impl vstd::std_specs::convert::TryFromSpecImpl<String> for EmailString {
    open spec fn obeys_try_from_spec() -> bool {
        false
    }

    closed spec fn try_from_spec(s_email: String) -> Result<Self, InvalidEmailFormat> {
        arbitrary()
    }
}

impl From<EmailString> for String {
    /// Unwraps the validated address.
    fn from(value: EmailString) -> (r: String) {
        value.0
    }
}

impl vstd::std_specs::convert::FromSpecImpl<EmailString> for String {
    open spec fn obeys_from_spec() -> bool {
        true
    }

    closed spec fn from_spec(value: EmailString) -> String {
        value.0
    }
}

} // verus!
