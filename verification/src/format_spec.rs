//! A parser for format specifiers like `>+8.*` or `name$`: an optional
//! fill/alignment, sign, `#`, `0`, width, precision and type. Two
//! implementations agree on this grammar: a hand-written descent parser,
//! verified against a functional specification of the grammar, and one
//! that delegates the splitting to a regular-expression engine and runs
//! the verified field parsers over the captured groups.
//!
//! Identifier characters are classified by the `unicode-ident` crate; the
//! classification enters the specification as two named, uninterpreted
//! character predicates.

use vstd::prelude::*;
use vstd::string::StrSliceExecFns;

verus! {

/// What `unicode_ident::is_xid_start` returns; a function of the
/// character alone.
pub uninterp spec fn spec_xid_start(c: char) -> bool;

/// What `unicode_ident::is_xid_continue` returns; a function of the
/// character alone.
pub uninterp spec fn spec_xid_continue(c: char) -> bool;

/// Relies on `unicode_ident::is_xid_start`: whether the character has the
/// Unicode `XID_Start` property, a function of the character alone.
#[verifier::external_body]
fn xid_start(c: char) -> (r: bool)
    ensures
        r == spec_xid_start(c),
{
    unicode_ident::is_xid_start(c)
}

/// Relies on `unicode_ident::is_xid_continue`: whether the character has
/// the Unicode `XID_Continue` property, a function of the character alone.
#[verifier::external_body]
fn xid_continue(c: char) -> (r: bool)
    ensures
        r == spec_xid_continue(c),
{
    unicode_ident::is_xid_continue(c)
}

/// A sign flag.
#[derive(Debug, Clone, Copy, PartialEq, Eq, Structural)]
pub enum Sign {
    Plus,
    Minus,
}

/// A width or precision argument: positional or named.
#[derive(Debug, Clone, PartialEq, Eq)]
pub enum Argument {
    Position(usize),
    Identifier(String),
}

/// A count: a literal integer or a `$`-terminated argument.
#[derive(Debug, Clone, PartialEq, Eq)]
pub enum Count {
    Integer(usize),
    Parameter(Argument),
}

/// A precision: a count, or `*` taking the next positional argument.
#[derive(Debug, Clone, PartialEq, Eq)]
pub enum Precision {
    Count(Count),
    Asterisk,
}

/// The parts of a parsed format specifier that this parser reports.
#[derive(Debug, Clone, PartialEq, Eq)]
pub struct ParsedFormatSpec {
    pub sign: Option<Sign>,
    pub width: Option<Count>,
    pub precision: Option<Precision>,
}

/// Why parsing failed.
#[derive(Debug, Clone, PartialEq, Eq)]
pub enum ParseError {
    /// The input does not match the format-spec grammar.
    InvalidFormatSpec { input: String },
    /// A width or precision number does not fit.
    InvalidInteger { field: &'static str, raw: String },
}

/// Ghost mirror of `Argument`, over plain sequences.
pub enum ArgumentV {
    Position(int),
    Identifier(Seq<char>),
}

/// Ghost mirror of `Count`.
pub enum CountV {
    Integer(int),
    Parameter(ArgumentV),
}

/// Ghost mirror of `Precision`.
pub enum PrecisionV {
    Count(CountV),
    Asterisk,
}

/// Ghost mirror of `ParsedFormatSpec`.
pub struct ParsedV {
    pub sign: Option<Sign>,
    pub width: Option<CountV>,
    pub precision: Option<PrecisionV>,
}

/// Which failure the grammar reports.
pub enum ParseIssue {
    /// The input does not match the grammar.
    BadSpec,
    /// The width number (these digits) does not fit.
    BadWidth(Seq<char>),
    /// The precision number (these digits) does not fit.
    BadPrecision(Seq<char>),
}

/// Whether an exec argument equals its ghost mirror.
pub open spec fn arg_matches(a: Argument, v: ArgumentV) -> bool {
    match (a, v) {
        (Argument::Position(p), ArgumentV::Position(q)) => p == q,
        (Argument::Identifier(s), ArgumentV::Identifier(t)) => s@ == t,
        _ => false,
    }
}

/// Whether an exec count equals its ghost mirror.
pub open spec fn count_matches(c: Count, v: CountV) -> bool {
    match (c, v) {
        (Count::Integer(a), CountV::Integer(b)) => a == b,
        (Count::Parameter(a), CountV::Parameter(b)) => arg_matches(a, b),
        _ => false,
    }
}

/// Whether an exec precision equals its ghost mirror.
pub open spec fn precision_matches(p: Precision, v: PrecisionV) -> bool {
    match (p, v) {
        (Precision::Count(a), PrecisionV::Count(b)) => count_matches(a, b),
        (Precision::Asterisk, PrecisionV::Asterisk) => true,
        _ => false,
    }
}

/// Whether optional exec and ghost counts agree.
pub open spec fn opt_count_matches(c: Option<Count>, v: Option<CountV>) -> bool {
    match (c, v) {
        (None, None) => true,
        (Some(a), Some(b)) => count_matches(a, b),
        _ => false,
    }
}

/// Whether optional exec and ghost precisions agree.
pub open spec fn opt_precision_matches(p: Option<Precision>, v: Option<PrecisionV>) -> bool {
    match (p, v) {
        (None, None) => true,
        (Some(a), Some(b)) => precision_matches(a, b),
        _ => false,
    }
}

/// Whether an exec parse result equals its ghost mirror.
pub open spec fn parsed_matches(p: ParsedFormatSpec, v: ParsedV) -> bool {
    &&& p.sign == v.sign
    &&& opt_count_matches(p.width, v.width)
    &&& opt_precision_matches(p.precision, v.precision)
}

/// An ASCII digit.
pub open spec fn spec_digit(c: char) -> bool {
    '0' <= c && c <= '9'
}

/// An alignment marker.
pub open spec fn spec_align(c: char) -> bool {
    c == '<' || c == '^' || c == '>'
}

/// A character that may start an identifier here: an underscore or an
/// `XID_Start` character.
pub open spec fn spec_ident_start(c: char) -> bool {
    c == '_' || spec_xid_start(c)
}

/// How many consecutive ASCII digits start at `i`.
pub open spec fn spec_digit_run(s: Seq<char>, i: int) -> int
    decreases s.len() - i,
{
    if 0 <= i < s.len() && spec_digit(s[i]) {
        1 + spec_digit_run(s, i + 1)
    } else {
        0
    }
}

/// How many consecutive `XID_Continue` characters start at `i`.
pub open spec fn spec_xid_run(s: Seq<char>, i: int) -> int
    decreases s.len() - i,
{
    if 0 <= i < s.len() && spec_xid_continue(s[i]) {
        1 + spec_xid_run(s, i + 1)
    } else {
        0
    }
}

/// Where the identifier starting at `i` ends, if one starts there: an
/// underscore must be followed by at least one `XID_Continue` character,
/// any other start must be `XID_Start`; either way the identifier extends
/// over every following `XID_Continue` character.
pub open spec fn spec_ident_end(s: Seq<char>, i: int) -> Option<int> {
    if 0 <= i < s.len() {
        if s[i] == '_' {
            if i + 1 < s.len() && spec_xid_continue(s[i + 1]) {
                Some(i + 2 + spec_xid_run(s, i + 2))
            } else {
                None
            }
        } else if spec_xid_start(s[i]) {
            Some(i + 1 + spec_xid_run(s, i + 1))
        } else {
            None
        }
    } else {
        None
    }
}

/// The index after the optional fill and alignment: an alignment marker
/// here, or any one character followed by an alignment marker; otherwise
/// nothing is consumed.
pub open spec fn spec_after_alignment(s: Seq<char>, i: int) -> int {
    if i < s.len() && spec_align(s[i]) {
        i + 1
    } else if i + 1 < s.len() && spec_align(s[i + 1]) {
        i + 2
    } else {
        i
    }
}

/// The sign parsed at `i`, if any, and the index after it.
pub open spec fn spec_after_sign(s: Seq<char>, i: int) -> (Option<Sign>, int) {
    if i < s.len() && s[i] == '+' {
        (Some(Sign::Plus), i + 1)
    } else if i < s.len() && s[i] == '-' {
        (Some(Sign::Minus), i + 1)
    } else {
        (None, i)
    }
}

/// The index after an optional single occurrence of `c` at `i`.
pub open spec fn spec_after_opt_char(s: Seq<char>, i: int, c: char) -> int {
    if i < s.len() && s[i] == c {
        i + 1
    } else {
        i
    }
}

/// The numeric value of a digit string, or nothing if it is empty, holds
/// a non-digit, or exceeds `usize`.
pub open spec fn spec_usize_of(t: Seq<char>) -> Option<int> {
    if t.len() == 0 {
        None
    } else if exists|k: int| 0 <= k < t.len() && !spec_digit(#[trigger] t[k]) {
        None
    } else if crate::guessing::spec_digits_val(t) > usize::MAX {
        None
    } else {
        Some(crate::guessing::spec_digits_val(t))
    }
}

/// The width parsed at `i`: digits followed by `$` are a positional
/// parameter, bare digits are a literal width, an identifier followed by
/// `$` is a named parameter, and anything else leaves the width absent.
/// Digits that do not fit in `usize` are the error case.
pub open spec fn spec_parse_width(s: Seq<char>, i: int) -> Result<(Option<CountV>, int), Seq<
    char,
>> {
    if i < s.len() && spec_digit(s[i]) {
        let nd = spec_digit_run(s, i);
        let digits = s.subrange(i, i + nd);
        match spec_usize_of(digits) {
            None => Err(digits),
            Some(v) => {
                if i + nd < s.len() && s[i + nd] == '$' {
                    (Ok((Some(CountV::Parameter(ArgumentV::Position(v))), i + nd + 1)))
                } else {
                    (Ok((Some(CountV::Integer(v)), i + nd)))
                }
            },
        }
    } else if i < s.len() && spec_ident_start(s[i]) {
        match spec_ident_end(s, i) {
            None => Ok((None, i)),
            Some(e) => {
                if e < s.len() && s[e] == '$' {
                    (Ok((Some(CountV::Parameter(ArgumentV::Identifier(s.subrange(i, e)))), e + 1)))
                } else {
                    (Ok((None, i)))
                }
            },
        }
    } else {
        Ok((None, i))
    }
}

/// A required count at `i` (after the dot of a precision): digits with an
/// optional `$`, or an identifier that must end in `$`.
pub open spec fn spec_parse_required_count(s: Seq<char>, i: int) -> Result<(CountV, int), ParseIssue> {
    if i >= s.len() {
        Err(ParseIssue::BadSpec)
    } else if spec_digit(s[i]) {
        let nd = spec_digit_run(s, i);
        let digits = s.subrange(i, i + nd);
        match spec_usize_of(digits) {
            None => Err(ParseIssue::BadPrecision(digits)),
            Some(v) => {
                if i + nd < s.len() && s[i + nd] == '$' {
                    (Ok((CountV::Parameter(ArgumentV::Position(v)), i + nd + 1)))
                } else {
                    (Ok((CountV::Integer(v), i + nd)))
                }
            },
        }
    } else if !spec_ident_start(s[i]) {
        Err(ParseIssue::BadSpec)
    } else {
        match spec_ident_end(s, i) {
            None => Err(ParseIssue::BadSpec),
            Some(e) => {
                if e < s.len() && s[e] == '$' {
                    (Ok((CountV::Parameter(ArgumentV::Identifier(s.subrange(i, e))), e + 1)))
                } else {
                    Err(ParseIssue::BadSpec)
                }
            },
        }
    }
}

/// The precision parsed at `i`: absent without a leading dot; after a dot
/// either `*` or a required count.
pub open spec fn spec_parse_precision(s: Seq<char>, i: int) -> Result<(Option<PrecisionV>, int), ParseIssue> {
    if !(i < s.len() && s[i] == '.') {
        Ok((None, i))
    } else if i + 1 < s.len() && s[i + 1] == '*' {
        Ok((Some(PrecisionV::Asterisk), i + 2))
    } else {
        match spec_parse_required_count(s, i + 1) {
            Err(e) => Err(e),
            Ok((c, e)) => Ok((Some(PrecisionV::Count(c)), e)),
        }
    }
}

/// The index after the optional type marker: nothing at the end of input,
/// `x?`, `X?` or `?`, or an identifier; anything else is an error.
pub open spec fn spec_parse_type(s: Seq<char>, i: int) -> Result<int, ParseIssue> {
    if i >= s.len() {
        Ok(i)
    } else if i + 2 <= s.len() && (s[i] == 'x' || s[i] == 'X') && s[i + 1] == '?' {
        Ok(i + 2)
    } else if s[i] == '?' {
        Ok(i + 1)
    } else {
        match spec_ident_end(s, i) {
            Some(e) => Ok(e),
            None => Err(ParseIssue::BadSpec),
        }
    }
}

/// The whole grammar: alignment, sign, optional `#` and `0`, width,
/// precision and type, with nothing left over.
pub open spec fn spec_parse_format(s: Seq<char>) -> Result<ParsedV, ParseIssue> {
    let i1 = spec_after_alignment(s, 0);
    let (sign, i2) = spec_after_sign(s, i1);
    let i3 = spec_after_opt_char(s, i2, '#');
    let i4 = spec_after_opt_char(s, i3, '0');
    match spec_parse_width(s, i4) {
        Err(digits) => Err(ParseIssue::BadWidth(digits)),
        Ok((width, i5)) => match spec_parse_precision(s, i5) {
            Err(e) => Err(e),
            Ok((precision, i6)) => match spec_parse_type(s, i6) {
                Err(e) => Err(e),
                Ok(i7) => {
                    if i7 == s.len() {
                        Ok(ParsedV { sign, width, precision })
                    } else {
                        Err(ParseIssue::BadSpec)
                    }
                },
            },
        },
    }
}

/// Whether the exec outcome of a parse equals the grammar's ghost
/// outcome, error cases included.
pub open spec fn outcome_matches(r: Result<ParsedFormatSpec, ParseError>, input: Seq<char>) -> bool {
    match r {
        Ok(p) => spec_parse_format(input) matches Ok(v) && parsed_matches(p, v),
        Err(ParseError::InvalidFormatSpec { input: inp }) => spec_parse_format(input)
            == Err::<ParsedV, ParseIssue>(ParseIssue::BadSpec) && inp@ == input,
        Err(ParseError::InvalidInteger { field, raw }) => {
            ||| (field@ == "width"@ && spec_parse_format(input) == Err::<ParsedV, ParseIssue>(
                ParseIssue::BadWidth(raw@),
            ))
            ||| (field@ == "precision"@ && spec_parse_format(input) == Err::<ParsedV, ParseIssue>(
                ParseIssue::BadPrecision(raw@),
            ))
        },
    }
}

/// The hand-written descent parser over a format specifier. It walks the
/// input by character index.
pub struct CustomParser {
    input: String,
    index: usize,
}

impl CustomParser {
    #[verifier::type_invariant]
    spec fn type_inv(self) -> bool {
        self.index <= self.input@.len()
    }

    /// The text being parsed.
    pub closed spec fn spec_text(self) -> Seq<char> {
        self.input@
    }

    /// The current position, as a character index.
    pub closed spec fn spec_index(self) -> int {
        self.index as int
    }

    /// Starts at the beginning of a copy of the input.
    pub fn new(input: &str) -> (r: Self)
        ensures
            r.spec_text() == input@,
            r.spec_index() == 0,
    {
        CustomParser { input: input.to_owned(), index: 0 }
    }

    /// Whether the whole input has been consumed.
    pub fn is_eof(&self) -> (r: bool)
        ensures
            r == (self.spec_index() >= self.spec_text().len()),
    {
        proof {
            use_type_invariant(self);
        }
        self.index >= self.input.as_str().unicode_len()
    }

    /// The character at the current position, if any; consumes nothing.
    fn peek_char(&self) -> (r: Option<char>)
        ensures
            match r {
                Some(c) => self.spec_index() < self.spec_text().len() && c == self.spec_text()[self.spec_index()],
                None => self.spec_index() >= self.spec_text().len(),
            },
    {
        proof {
            use_type_invariant(self);
        }
        let s = self.input.as_str();
        if self.index < s.unicode_len() {
            Some(s.get_char(self.index))
        } else {
            None
        }
    }

    /// Steps over one character; at the end of input it does nothing.
    fn bump_char(&mut self)
        ensures
            final(self).spec_text() == old(self).spec_text(),
            old(self).spec_index() < old(self).spec_text().len() ==> final(self).spec_index()
                == old(self).spec_index() + 1,
            old(self).spec_index() >= old(self).spec_text().len() ==> final(self).spec_index()
                == old(self).spec_index(),
    {
        proof {
            use_type_invariant(&*self);
        }
        if self.index < self.input.as_str().unicode_len() {
            self.index = self.index + 1;
        }
    }

    /// Steps over `expected` if it is next; reports whether it did.
    fn consume_if(&mut self, expected: char) -> (r: bool)
        ensures
            final(self).spec_text() == old(self).spec_text(),
            r == (old(self).spec_index() < old(self).spec_text().len() && old(self).spec_text()[old(self).spec_index()] == expected),
            final(self).spec_index() == spec_after_opt_char(
                old(self).spec_text(),
                old(self).spec_index(),
                expected,
            ),
    {
        match self.peek_char() {
            None => false,
            Some(c) => {
                if c == expected {
                    self.bump_char();
                    true
                } else {
                    false
                }
            },
        }
    }

    /// Steps over `token` if the input continues with exactly its
    /// characters; reports whether it did.
    fn consume_str(&mut self, token: &str) -> (r: bool)
        ensures
            final(self).spec_text() == old(self).spec_text(),
            r == (old(self).spec_index() + token@.len() <= old(self).spec_text().len() && old(self).spec_text().subrange(
                old(self).spec_index(),
                old(self).spec_index() + token@.len(),
            ) == token@),
            r ==> final(self).spec_index() == old(self).spec_index() + token@.len(),
            !r ==> final(self).spec_index() == old(self).spec_index(),
    {
        proof {
            use_type_invariant(&*self);
        }
        let s_len = self.input.as_str().unicode_len();
        let t_len = token.unicode_len();
        if t_len > s_len || self.index > s_len - t_len {
            proof {
                assert(old(self).spec_index() + token@.len() > old(self).spec_text().len());
            }
            return false;
        }
        let mut j: usize = 0;
        while j < t_len
            invariant
                j <= t_len,
                t_len == token@.len(),
                s_len == self.spec_text().len(),
                self == old(self),
                self.index + t_len <= s_len,
                forall|k: int|
                    0 <= k < j ==> self.spec_text()[self.spec_index() + k] == #[trigger] token@[k],
            decreases t_len - j,
        {
            if self.input.as_str().get_char(self.index + j) != token.get_char(j) {
                proof {
                    let i0 = self.spec_index();
                    if self.spec_text().subrange(i0, i0 + token@.len()) == token@ {
                        assert(self.spec_text().subrange(i0, i0 + token@.len())[j as int]
                            == token@[j as int]);
                    }
                }
                return false;
            }
            j = j + 1;
        }
        proof {
            let i0 = self.spec_index();
            assert(self.spec_text().subrange(i0, i0 + token@.len()) =~= token@);
        }
        self.index = self.index + t_len;
        true
    }

    /// Steps over the run of ASCII digits at the current position and
    /// returns them.
    fn consume_digits(&mut self) -> (r: String)
        ensures
            final(self).spec_text() == old(self).spec_text(),
            final(self).spec_index() == old(self).spec_index() + spec_digit_run(
                old(self).spec_text(),
                old(self).spec_index(),
            ),
            r@ == old(self).spec_text().subrange(old(self).spec_index(), final(self).spec_index()),
    {
        proof {
            use_type_invariant(&*self);
        }
        let s_len = self.input.as_str().unicode_len();
        let mut end: usize = self.index;
        while end < s_len && is_digit_char(self.input.as_str().get_char(end))
            invariant
                self.index <= end <= s_len,
                s_len == self.spec_text().len(),
                self == old(self),
                forall|k: int|
                    self.spec_index() <= k < end ==> spec_digit(#[trigger] self.spec_text()[k]),
                spec_digit_run(self.spec_text(), self.spec_index()) == (end - self.spec_index())
                    + spec_digit_run(self.spec_text(), end as int),
            decreases s_len - end,
        {
            end = end + 1;
        }
        proof {
            assert(spec_digit_run(self.spec_text(), end as int) == 0);
        }
        let piece = self.input.as_str().substring_char(self.index, end).to_owned();
        self.index = end;
        piece
    }

    /// Steps over an identifier if one starts here, returning it; without
    /// one, nothing is consumed.
    fn consume_identifier(&mut self) -> (r: Option<String>)
        ensures
            final(self).spec_text() == old(self).spec_text(),
            match r {
                Some(id) => {
                    &&& spec_ident_end(old(self).spec_text(), old(self).spec_index()) == Some(
                        final(self).spec_index(),
                    )
                    &&& id@ == old(self).spec_text().subrange(
                        old(self).spec_index(),
                        final(self).spec_index(),
                    )
                },
                None => {
                    &&& spec_ident_end(old(self).spec_text(), old(self).spec_index()) is None
                    &&& final(self).spec_index() == old(self).spec_index()
                },
            },
    {
        proof {
            use_type_invariant(&*self);
        }
        let s_len = self.input.as_str().unicode_len();
        let first = match self.peek_char() {
            None => {
                return None;
            },
            Some(c) => c,
        };
        let scan_from: usize = if first == '_' {
            if self.index + 1 < s_len && xid_continue(self.input.as_str().get_char(self.index + 1)) {
                self.index + 2
            } else {
                return None;
            }
        } else if xid_start(first) {
            self.index + 1
        } else {
            return None;
        };
        let mut end: usize = scan_from;
        while end < s_len && xid_continue(self.input.as_str().get_char(end))
            invariant
                scan_from <= end <= s_len,
                s_len == self.spec_text().len(),
                self == old(self),
                scan_from <= s_len,
                spec_xid_run(self.spec_text(), scan_from as int) == (end - scan_from)
                    + spec_xid_run(self.spec_text(), end as int),
            decreases s_len - end,
        {
            end = end + 1;
        }
        proof {
            assert(spec_xid_run(self.spec_text(), end as int) == 0);
        }
        let piece = self.input.as_str().substring_char(self.index, end).to_owned();
        self.index = end;
        Some(piece)
    }

    /// Steps over an optional fill and alignment.
    pub fn parse_alignment(&mut self)
        ensures
            final(self).spec_text() == old(self).spec_text(),
            final(self).spec_index() == spec_after_alignment(
                old(self).spec_text(),
                old(self).spec_index(),
            ),
    {
        proof {
            use_type_invariant(&*self);
        }
        let first = match self.peek_char() {
            None => {
                return ;
            },
            Some(c) => c,
        };
        if is_align(first) {
            self.bump_char();
            return ;
        }
        let s_len = self.input.as_str().unicode_len();
        if self.index + 1 < s_len && is_align(self.input.as_str().get_char(self.index + 1)) {
            self.bump_char();
            self.bump_char();
        }
    }

    /// Steps over an optional sign and returns it.
    pub fn parse_sign(&mut self) -> (r: Option<Sign>)
        ensures
            final(self).spec_text() == old(self).spec_text(),
            (r, final(self).spec_index()) == spec_after_sign(
                old(self).spec_text(),
                old(self).spec_index(),
            ),
    {
        let sign = match self.peek_char() {
            Some(c) => {
                if c == '+' {
                    Some(Sign::Plus)
                } else if c == '-' {
                    Some(Sign::Minus)
                } else {
                    None
                }
            },
            None => None,
        };
        if sign.is_some() {
            self.bump_char();
        }
        sign
    }
}

/// An ASCII digit.
fn is_digit_char(c: char) -> (r: bool)
    ensures
        r == spec_digit(c),
{
    '0' <= c && c <= '9'
}

/// An alignment marker.
fn is_align(ch: char) -> (r: bool)
    ensures
        r == spec_align(ch),
{
    ch == '<' || ch == '^' || ch == '>'
}

/// Parses a number that must fit in `usize`; the error names the field
/// and carries the offending digits.
pub fn parse_usize(raw: &str, field: &'static str) -> (r: Result<usize, ParseError>)
    ensures
        match r {
            Ok(v) => spec_usize_of(raw@) == Some(v as int),
            Err(ParseError::InvalidInteger { field: f, raw: rw }) => {
                &&& f == field
                &&& rw@ == raw@
                &&& spec_usize_of(raw@) is None
            },
            Err(_) => false,
        },
{
    let n = raw.unicode_len();
    if n == 0 {
        return Err(ParseError::InvalidInteger { field, raw: raw.to_owned() });
    }
    let mut acc: usize = 0;
    let mut too_big = false;
    let mut i: usize = 0;
    while i < n
        invariant
            i <= n,
            n == raw@.len(),
            forall|j: int| 0 <= j < i ==> spec_digit(#[trigger] raw@[j]),
            !too_big ==> acc == crate::guessing::spec_digits_val(raw@.take(i as int)),
            too_big ==> crate::guessing::spec_digits_val(raw@.take(i as int)) > usize::MAX,
        decreases n - i,
    {
        let c = raw.get_char(i);
        if c < '0' || c > '9' {
            proof {
                assert(!spec_digit(raw@[i as int]));
            }
            return Err(ParseError::InvalidInteger { field, raw: raw.to_owned() });
        }
        let d: usize = (c as u32 as usize) - ('0' as u32 as usize);
        proof {
            assert(raw@.take(i + 1).drop_last() =~= raw@.take(i as int));
            assert(raw@.take(i + 1).last() == raw@[i as int]);
            lemma_digits_val_nonneg_here(raw@.take(i as int));
        }
        if too_big {
            proof {
                let prev = crate::guessing::spec_digits_val(raw@.take(i as int));
                assert(crate::guessing::spec_digits_val(raw@.take(i + 1)) == 10 * prev + (
                raw@[i as int] as int - '0' as int));
            }
        } else {
            match acc.checked_mul(10) {
                None => {
                    too_big = true;
                },
                Some(m) => {
                    match m.checked_add(d) {
                        None => {
                            too_big = true;
                        },
                        Some(x) => {
                            acc = x;
                        },
                    }
                },
            }
        }
        i = i + 1;
    }
    proof {
        assert(raw@.take(n as int) =~= raw@);
    }
    if too_big {
        Err(ParseError::InvalidInteger { field, raw: raw.to_owned() })
    } else {
        Ok(acc)
    }
}

proof fn lemma_digits_val_nonneg_here(s: Seq<char>)
    requires
        forall|i: int| 0 <= i < s.len() ==> spec_digit(#[trigger] s[i]),
    ensures
        crate::guessing::spec_digits_val(s) >= 0,
    decreases s.len(),
{
    if s.len() > 0 {
        lemma_digits_val_nonneg_here(s.drop_last());
    }
}

impl CustomParser {
    /// Parses an optional width: bare digits, digits with `$`, or an
    /// identifier that must end in `$`.
    pub fn parse_optional_width(&mut self) -> (r: Result<Option<Count>, ParseError>)
        ensures
            final(self).spec_text() == old(self).spec_text(),
            match r {
                Ok(w) => spec_parse_width(old(self).spec_text(), old(self).spec_index()) matches Ok(
                    (wv, ni),
                ) && opt_count_matches(w, wv) && final(self).spec_index() == ni,
                Err(ParseError::InvalidInteger { field, raw }) => field@ == "width"@
                    && spec_parse_width(old(self).spec_text(), old(self).spec_index()) == Err::<
                    (Option<CountV>, int),
                    Seq<char>,
                >(raw@),
                Err(_) => false,
            },
    {
        let first = match self.peek_char() {
            None => {
                return Ok(None);
            },
            Some(c) => c,
        };
        if is_digit_char(first) {
            let number = self.consume_digits();
            if self.consume_if('$') {
                match parse_usize(number.as_str(), "width") {
                    Ok(v) => {
                        return Ok(Some(Count::Parameter(Argument::Position(v))));
                    },
                    Err(e) => {
                        return Err(e);
                    },
                }
            }
            match parse_usize(number.as_str(), "width") {
                Ok(v) => {
                    return Ok(Some(Count::Integer(v)));
                },
                Err(e) => {
                    return Err(e);
                },
            }
        }
        if !is_identifier_start(first) {
            return Ok(None);
        }
        let checkpoint = self.index;
        let identifier = match self.consume_identifier() {
            None => {
                return Ok(None);
            },
            Some(id) => id,
        };
        if self.consume_if('$') {
            return Ok(Some(Count::Parameter(Argument::Identifier(identifier))));
        }
        proof {
            use_type_invariant(&*self);
        }
        self.index = checkpoint;
        Ok(None)
    }

    /// Parses an optional precision: nothing without a dot; after a dot,
    /// `*` or a required count.
    pub fn parse_optional_precision(&mut self) -> (r: Result<Option<Precision>, ParseError>)
        ensures
            final(self).spec_text() == old(self).spec_text(),
            match r {
                Ok(p) => spec_parse_precision(old(self).spec_text(), old(self).spec_index())
                    matches Ok((pv, ni)) && opt_precision_matches(p, pv) && final(self).spec_index() == ni,
                Err(ParseError::InvalidInteger { field, raw }) => field@ == "precision"@
                    && spec_parse_precision(old(self).spec_text(), old(self).spec_index()) == Err::<
                    (Option<PrecisionV>, int),
                    ParseIssue,
                >(ParseIssue::BadPrecision(raw@)),
                Err(ParseError::InvalidFormatSpec { input }) => input@ == old(self).spec_text()
                    && spec_parse_precision(old(self).spec_text(), old(self).spec_index()) == Err::<
                    (Option<PrecisionV>, int),
                    ParseIssue,
                >(ParseIssue::BadSpec),
            },
    {
        if !self.consume_if('.') {
            return Ok(None);
        }
        if self.consume_if('*') {
            return Ok(Some(Precision::Asterisk));
        }
        match self.parse_required_count("precision") {
            Ok(c) => Ok(Some(Precision::Count(c))),
            Err(e) => Err(e),
        }
    }

    /// Parses the count that must follow the dot of a precision.
    fn parse_required_count(&mut self, field: &'static str) -> (r: Result<Count, ParseError>)
        requires
            field@ == "precision"@,
        ensures
            final(self).spec_text() == old(self).spec_text(),
            match r {
                Ok(c) => spec_parse_required_count(old(self).spec_text(), old(self).spec_index())
                    matches Ok((cv, ni)) && count_matches(c, cv) && final(self).spec_index() == ni,
                Err(ParseError::InvalidInteger { field: f, raw }) => f == field
                    && spec_parse_required_count(old(self).spec_text(), old(self).spec_index())
                    == Err::<(CountV, int), ParseIssue>(ParseIssue::BadPrecision(raw@)),
                Err(ParseError::InvalidFormatSpec { input }) => input@ == old(self).spec_text()
                    && spec_parse_required_count(old(self).spec_text(), old(self).spec_index())
                    == Err::<(CountV, int), ParseIssue>(ParseIssue::BadSpec),
            },
    {
        let first = match self.peek_char() {
            None => {
                return Err(ParseError::InvalidFormatSpec { input: self.input.clone() });
            },
            Some(c) => c,
        };
        if is_digit_char(first) {
            let number = self.consume_digits();
            if self.consume_if('$') {
                match parse_usize(number.as_str(), field) {
                    Ok(v) => {
                        return Ok(Count::Parameter(Argument::Position(v)));
                    },
                    Err(e) => {
                        return Err(e);
                    },
                }
            }
            match parse_usize(number.as_str(), field) {
                Ok(v) => {
                    return Ok(Count::Integer(v));
                },
                Err(e) => {
                    return Err(e);
                },
            }
        }
        if !is_identifier_start(first) {
            return Err(ParseError::InvalidFormatSpec { input: self.input.clone() });
        }
        let identifier = match self.consume_identifier() {
            None => {
                return Err(ParseError::InvalidFormatSpec { input: self.input.clone() });
            },
            Some(id) => id,
        };
        if !self.consume_if('$') {
            return Err(ParseError::InvalidFormatSpec { input: self.input.clone() });
        }
        Ok(Count::Parameter(Argument::Identifier(identifier)))
    }

    /// Steps over the optional type marker.
    pub fn parse_type(&mut self) -> (r: Result<(), ParseError>)
        ensures
            final(self).spec_text() == old(self).spec_text(),
            match r {
                Ok(()) => spec_parse_type(old(self).spec_text(), old(self).spec_index()) == Ok::<
                    int,
                    ParseIssue,
                >(final(self).spec_index()),
                Err(ParseError::InvalidFormatSpec { input }) => input@ == old(self).spec_text()
                    && spec_parse_type(old(self).spec_text(), old(self).spec_index()) == Err::<
                    int,
                    ParseIssue,
                >(ParseIssue::BadSpec),
                Err(_) => false,
            },
    {
        let ghost s0 = self.spec_text();
        let ghost i0 = self.spec_index();
        if self.is_eof() {
            proof {
                assert(spec_parse_type(s0, i0) == Ok::<int, ParseIssue>(i0));
            }
            return Ok(());
        }
        proof {
            reveal_strlit("x?");
            reveal_strlit("X?");
            assert("x?"@.len() == 2 && "x?"@[0] == 'x' && "x?"@[1] == '?');
            assert("X?"@.len() == 2 && "X?"@[0] == 'X' && "X?"@[1] == '?');
        }
        if self.consume_str("x?") {
            proof {
                assert(s0.subrange(i0, i0 + 2)[0] == 'x');
                assert(s0.subrange(i0, i0 + 2)[1] == '?');
                assert(s0[i0] == 'x' && s0[i0 + 1] == '?');
            }
            return Ok(());
        }
        if self.consume_str("X?") {
            proof {
                assert(s0.subrange(i0, i0 + 2)[0] == 'X');
                assert(s0.subrange(i0, i0 + 2)[1] == '?');
                assert(s0[i0] == 'X' && s0[i0 + 1] == '?');
            }
            return Ok(());
        }
        proof {
            if i0 + 2 <= s0.len() && (s0[i0] == 'x' || s0[i0] == 'X') && s0[i0 + 1] == '?' {
                assert(s0.subrange(i0, i0 + 2) =~= "x?"@ || s0.subrange(i0, i0 + 2) =~= "X?"@);
            }
        }
        if self.consume_if('?') {
            return Ok(());
        }
        match self.consume_identifier() {
            Some(_) => Ok(()),
            None => Err(ParseError::InvalidFormatSpec { input: self.input.clone() }),
        }
    }
}

/// A character that may start an identifier: an underscore or an
/// `XID_Start` character.
fn is_identifier_start(ch: char) -> (r: bool)
    ensures
        r == spec_ident_start(ch),
{
    ch == '_' || xid_start(ch)
}

/// Parses a format specifier with the hand-written descent parser. The
/// result and every error case follow the grammar exactly.
pub fn parse_custom(input: &str) -> (r: Result<ParsedFormatSpec, ParseError>)
    ensures
        outcome_matches(r, input@),
{
    let ghost s0 = input@;
    let mut parser = CustomParser::new(input);

    parser.parse_alignment();
    let sign = parser.parse_sign();
    parser.consume_if('#');
    parser.consume_if('0');
    let ghost i4 = parser.spec_index();
    proof {
        let i1 = spec_after_alignment(s0, 0);
        assert(i4 == spec_after_opt_char(
            s0,
            spec_after_opt_char(s0, spec_after_sign(s0, i1).1, '#'),
            '0',
        ));
        assert(sign == spec_after_sign(s0, i1).0);
    }

    let width = match parser.parse_optional_width() {
        Ok(w) => w,
        Err(e) => {
            proof {
                assert(spec_parse_width(s0, i4) is Err);
            }
            return Err(e);
        },
    };
    let ghost i5 = parser.spec_index();
    proof {
        assert(spec_parse_width(s0, i4) matches Ok((wv, ni)) && opt_count_matches(width, wv) && ni
            == i5);
    }
    let precision = match parser.parse_optional_precision() {
        Ok(p) => p,
        Err(e) => {
            proof {
                assert(spec_parse_precision(s0, i5) is Err);
            }
            return Err(e);
        },
    };
    let ghost i6 = parser.spec_index();
    proof {
        assert(spec_parse_precision(s0, i5) matches Ok((pv, ni)) && opt_precision_matches(
            precision,
            pv,
        ) && ni == i6);
    }
    match parser.parse_type() {
        Ok(()) => {},
        Err(e) => {
            proof {
                assert(spec_parse_type(s0, i6) == Err::<int, ParseIssue>(ParseIssue::BadSpec));
            }
            return Err(e);
        },
    }
    let ghost i7 = parser.spec_index();
    proof {
        assert(spec_parse_type(s0, i6) == Ok::<int, ParseIssue>(i7));
    }

    if !parser.is_eof() {
        proof {
            assert(i7 != s0.len());
            assert(spec_parse_format(s0) == Err::<ParsedV, ParseIssue>(ParseIssue::BadSpec));
        }
        return Err(ParseError::InvalidFormatSpec { input: input.to_owned() });
    }
    proof {
        use_type_invariant(&parser);
        assert(i7 == s0.len());
        assert(spec_parse_format(s0) is Ok);
    }
    Ok(ParsedFormatSpec { sign, width, precision })
}

/// What the format-spec regular expression captures on the given input:
/// nothing on a non-match, else the optional sign, width and precision
/// groups. A function of the input alone.
pub uninterp spec fn spec_format_spec_captures(s: Seq<char>) -> Option<
    (Option<Seq<char>>, Option<Seq<char>>, Option<Seq<char>>),
>;

/// Whether an optional captured string equals an optional ghost capture.
pub open spec fn opt_capture_matches(a: Option<String>, b: Option<Seq<char>>) -> bool {
    match (a, b) {
        (None, None) => true,
        (Some(s), Some(t)) => s@ == t,
        _ => false,
    }
}

/// Relies on `regex::Regex`: matches the anchored format-spec pattern
/// against the input and hands back the sign, width and precision groups.
/// The pattern is fixed, so the outcome depends on the input alone.
#[verifier::external_body]
fn capture_format_spec(input: &str) -> (r: Option<(Option<String>, Option<String>, Option<String>)>)
    ensures
        ({
            let c = spec_format_spec_captures(input@);
            match r {
                None => c is None,
                Some(t) => c matches Some(v) && opt_capture_matches(t.0, v.0)
                    && opt_capture_matches(t.1, v.1) && opt_capture_matches(t.2, v.2),
            }
        }),
{
    let re = regex::Regex::new(
        r"^(?:.?[<^>])?(?P<sign>[+-])?#?0?(?P<width>(?:(?:\d+|(?:\p{XID_Start}\p{XID_Continue}*|_\p{XID_Continue}+))\$|\d+))?(?:\.(?P<precision>\*|(?:(?:\d+|(?:\p{XID_Start}\p{XID_Continue}*|_\p{XID_Continue}+))\$|\d+)))?(?:\?|x\?|X\?|(?:\p{XID_Start}\p{XID_Continue}*|_\p{XID_Continue}+))?$",
    ).unwrap();
    let caps = re.captures(input)?;
    Some((
        caps.name("sign").map(|m| m.as_str().to_owned()),
        caps.name("width").map(|m| m.as_str().to_owned()),
        caps.name("precision").map(|m| m.as_str().to_owned()),
    ))
}

/// The sign a captured token stands for: `+`, `-`, or nothing.
pub open spec fn spec_sign_token(t: Seq<char>) -> Option<Sign> {
    if t.len() == 1 && t[0] == '+' {
        Some(Sign::Plus)
    } else if t.len() == 1 && t[0] == '-' {
        Some(Sign::Minus)
    } else {
        None
    }
}

/// Reads a captured sign token.
pub fn parse_sign_token(token: &str) -> (r: Option<Sign>)
    ensures
        r == spec_sign_token(token@),
{
    if token.unicode_len() != 1 {
        return None;
    }
    let c = token.get_char(0);
    if c == '+' {
        Some(Sign::Plus)
    } else if c == '-' {
        Some(Sign::Minus)
    } else {
        None
    }
}

/// Whether the whole text is one identifier.
pub open spec fn spec_valid_identifier(t: Seq<char>) -> bool {
    spec_ident_end(t, 0) == Some(t.len() as int)
}

/// Whether the whole text is one identifier.
pub fn is_valid_identifier(identifier: &str) -> (r: bool)
    ensures
        r == spec_valid_identifier(identifier@),
{
    let mut parser = CustomParser::new(identifier);
    match parser.consume_identifier() {
        None => false,
        Some(_) => {
            proof {
                use_type_invariant(&parser);
            }
            parser.is_eof()
        },
    }
}

/// How a captured count token reads: either digits ending in `$` or an
/// identifier ending in `$` (a parameter), or bare digits (a literal). A
/// number that does not fit reports its digits; any other malformed token
/// reports the token.
pub open spec fn spec_count_of(t: Seq<char>) -> Result<CountV, ParseIssue> {
    if t.len() > 0 && t.last() == '$' {
        let u = t.drop_last();
        if forall|k: int| 0 <= k < u.len() ==> spec_digit(#[trigger] u[k]) {
            match spec_usize_of(u) {
                None => Err(ParseIssue::BadWidth(u)),
                Some(v) => Ok(CountV::Parameter(ArgumentV::Position(v))),
            }
        } else if spec_valid_identifier(u) {
            Ok(CountV::Parameter(ArgumentV::Identifier(u)))
        } else {
            Err(ParseIssue::BadSpec)
        }
    } else {
        match spec_usize_of(t) {
            None => Err(ParseIssue::BadWidth(t)),
            Some(v) => Ok(CountV::Integer(v)),
        }
    }
}

/// Reads a captured argument token: all digits make a position, an
/// identifier makes a name, anything else is malformed.
fn parse_argument(raw: &str, field: &'static str) -> (r: Result<Argument, ParseError>)
    ensures
        match r {
            Ok(Argument::Position(v)) => (forall|k: int|
                0 <= k < raw@.len() ==> spec_digit(#[trigger] raw@[k])) && spec_usize_of(raw@)
                == Some(v as int),
            Ok(Argument::Identifier(id)) => (exists|k: int|
                0 <= k < raw@.len() && !spec_digit(#[trigger] raw@[k])) && spec_valid_identifier(
                raw@,
            ) && id@ == raw@,
            Err(ParseError::InvalidInteger { field: f, raw: rw }) => f == field && rw@ == raw@ && (
            forall|k: int| 0 <= k < raw@.len() ==> spec_digit(#[trigger] raw@[k]))
                && spec_usize_of(raw@) is None,
            Err(ParseError::InvalidFormatSpec { input }) => input@ == raw@ && (exists|k: int|
                0 <= k < raw@.len() && !spec_digit(#[trigger] raw@[k])) && !spec_valid_identifier(
                raw@,
            ),
        },
{
    let n = raw.unicode_len();
    let mut all_digits = true;
    let mut k: usize = 0;
    while k < n
        invariant
            k <= n,
            n == raw@.len(),
            all_digits == (forall|j: int| 0 <= j < k ==> spec_digit(#[trigger] raw@[j])),
        decreases n - k,
    {
        if !is_digit_char(raw.get_char(k)) {
            proof {
                assert(!spec_digit(raw@[k as int]));
            }
            all_digits = false;
        }
        k = k + 1;
    }
    if all_digits {
        match parse_usize(raw, field) {
            Ok(v) => {
                return Ok(Argument::Position(v));
            },
            Err(e) => {
                return Err(e);
            },
        }
    }
    if is_valid_identifier(raw) {
        return Ok(Argument::Identifier(raw.to_owned()));
    }
    Err(ParseError::InvalidFormatSpec { input: raw.to_owned() })
}

/// Reads a captured count token.
fn parse_count(raw: &str, field: &'static str) -> (r: Result<Count, ParseError>)
    ensures
        match r {
            Ok(c) => spec_count_of(raw@) matches Ok(cv) && count_matches(c, cv),
            Err(ParseError::InvalidInteger { field: f, raw: rw }) => f == field && spec_count_of(
                raw@,
            ) == Err::<CountV, ParseIssue>(ParseIssue::BadWidth(rw@)),
            Err(ParseError::InvalidFormatSpec { input }) => spec_count_of(raw@) == Err::<
                CountV,
                ParseIssue,
            >(ParseIssue::BadSpec) && input@ == raw@.drop_last(),
        },
{
    let n = raw.unicode_len();
    if n > 0 && raw.get_char(n - 1) == '$' {
        let argument = raw.substring_char(0, n - 1);
        proof {
            assert(argument@ =~= raw@.drop_last());
        }
        match parse_argument(argument, field) {
            Ok(a) => {
                return Ok(Count::Parameter(a));
            },
            Err(e) => {
                return Err(e);
            },
        }
    }
    match parse_usize(raw, field) {
        Ok(v) => Ok(Count::Integer(v)),
        Err(e) => Err(e),
    }
}

/// How a captured precision token reads: `*`, or a count.
pub open spec fn spec_precision_of(t: Seq<char>) -> Result<PrecisionV, ParseIssue> {
    if t.len() == 1 && t[0] == '*' {
        Ok(PrecisionV::Asterisk)
    } else {
        match spec_count_of(t) {
            Ok(c) => Ok(PrecisionV::Count(c)),
            Err(e) => Err(e),
        }
    }
}

/// Reads a captured precision token.
fn parse_precision(raw: &str) -> (r: Result<Precision, ParseError>)
    ensures
        match r {
            Ok(p) => spec_precision_of(raw@) matches Ok(pv) && precision_matches(p, pv),
            Err(ParseError::InvalidInteger { field: f, raw: rw }) => f@ == "precision"@
                && spec_precision_of(raw@) == Err::<PrecisionV, ParseIssue>(
                ParseIssue::BadWidth(rw@),
            ),
            Err(ParseError::InvalidFormatSpec { input }) => spec_precision_of(raw@) == Err::<
                PrecisionV,
                ParseIssue,
            >(ParseIssue::BadSpec) && input@ == raw@.drop_last(),
        },
{
    if raw.unicode_len() == 1 && raw.get_char(0) == '*' {
        return Ok(Precision::Asterisk);
    }
    match parse_count(raw, "precision") {
        Ok(c) => Ok(Precision::Count(c)),
        Err(e) => Err(e),
    }
}

/// Whether the exec outcome of the regex-backed parse matches the named
/// captures and the verified field readers.
pub open spec fn regex_outcome_matches(
    r: Result<ParsedFormatSpec, ParseError>,
    input: Seq<char>,
) -> bool {
    match spec_format_spec_captures(input) {
        None => r matches Err(ParseError::InvalidFormatSpec { input: inp }) && inp@ == input,
        Some(v) => {
            let sign = match v.0 {
                None => None,
                Some(t) => spec_sign_token(t),
            };
            match r {
                Ok(p) => {
                    &&& p.sign == sign
                    &&& match v.1 {
                        None => p.width is None,
                        Some(t) => spec_count_of(t) matches Ok(cv) && p.width matches Some(w)
                            && count_matches(w, cv),
                    }
                    &&& match v.2 {
                        None => p.precision is None,
                        Some(t) => spec_precision_of(t) matches Ok(pv) && p.precision matches Some(
                            q,
                        ) && precision_matches(q, pv),
                    }
                },
                Err(ParseError::InvalidInteger { field, raw }) => {
                    ||| (v.1 matches Some(t) && field@ == "width"@ && spec_count_of(t) == Err::<
                        CountV,
                        ParseIssue,
                    >(ParseIssue::BadWidth(raw@)))
                    ||| (v.2 matches Some(t) && field@ == "precision"@ && spec_precision_of(t)
                        == Err::<PrecisionV, ParseIssue>(ParseIssue::BadWidth(raw@)))
                },
                Err(ParseError::InvalidFormatSpec { input: inp }) => {
                    ||| (v.1 matches Some(t) && spec_count_of(t) == Err::<CountV, ParseIssue>(
                        ParseIssue::BadSpec,
                    ) && inp@ == t.drop_last())
                    ||| (v.2 matches Some(t) && spec_precision_of(t) == Err::<
                        PrecisionV,
                        ParseIssue,
                    >(ParseIssue::BadSpec) && inp@ == t.drop_last())
                },
            }
        },
    }
}

/// Parses a format specifier by letting the regular expression split the
/// input into groups and running the verified field readers on them.
pub fn parse_regex(input: &str) -> (r: Result<ParsedFormatSpec, ParseError>)
    ensures
        regex_outcome_matches(r, input@),
{
    let captures = match capture_format_spec(input) {
        None => {
            return Err(ParseError::InvalidFormatSpec { input: input.to_owned() });
        },
        Some(c) => c,
    };
    let (sign_m, width_m, precision_m) = captures;

    let sign = match sign_m {
        None => None,
        Some(t) => parse_sign_token(t.as_str()),
    };

    let width = match width_m {
        None => None,
        Some(t) => {
            match parse_count(t.as_str(), "width") {
                Ok(c) => Some(c),
                Err(e) => {
                    return Err(e);
                },
            }
        },
    };

    let precision = match precision_m {
        None => None,
        Some(t) => {
            match parse_precision(t.as_str()) {
                Ok(p) => Some(p),
                Err(e) => {
                    return Err(e);
                },
            }
        },
    };

    Ok(ParsedFormatSpec { sign, width, precision })
}

} // verus!
