//! The guessing game's logic, free of any input or output. Parsing the
//! secret number and the guesses is exact decimal parsing with overflow
//! rejection; playing the game turns a list of input lines into the list
//! of messages the game emits and its final outcome. A surrounding program
//! only has to read lines, hand them in, and print the messages.

use crate::text;
use vstd::prelude::*;
use vstd::string::StrSliceExecFns;

verus! {

/// Why the secret number could not be parsed.
#[derive(Debug, Clone, Copy, PartialEq, Eq, Structural)]
pub enum SecretNumberError {
    NotANumber,
}

/// Why a game run ended without a win.
#[derive(Debug, Clone, Copy, PartialEq, Eq, Structural)]
pub enum AppError {
    /// No secret number was given on the command line.
    MissingSecretNumber,
    /// The given secret number is not a number.
    InvalidSecretNumber,
    /// The input ended before the number was guessed.
    InputEnded,
}

/// One message the game emits, in order.
#[derive(Debug, Clone, Copy, PartialEq, Eq, Structural)]
pub enum GameMsg {
    /// The greeting at the start of a game.
    Start,
    /// The prompt before each read.
    Prompt,
    /// Echo of an accepted guess.
    Guessed(u32),
    /// The guess was below the secret number.
    TooSmall,
    /// The guess was above the secret number.
    TooBig,
    /// The guess hit the secret number.
    Win,
}

/// Whether `c` is a decimal digit.
pub open spec fn spec_is_digit(c: char) -> bool {
    '0' <= c && c <= '9'
}

/// The value of a digit string read as a decimal number.
pub open spec fn spec_digits_val(s: Seq<char>) -> int
    decreases s.len(),
{
    if s.len() == 0 {
        0
    } else {
        10 * spec_digits_val(s.drop_last()) + (s.last() as int - '0' as int)
    }
}

proof fn lemma_digits_val_nonneg(s: Seq<char>)
    requires
        forall|i: int| 0 <= i < s.len() ==> spec_is_digit(#[trigger] s[i]),
    ensures
        spec_digits_val(s) >= 0,
    decreases s.len(),
{
    if s.len() > 0 {
        lemma_digits_val_nonneg(s.drop_last());
    }
}

/// Decimal parsing of a digit string: at least one digit, nothing but
/// digits, and the value must fit in 32 bits.
pub open spec fn spec_parse_digits_u32(t: Seq<char>) -> Option<u32> {
    if t.len() == 0 {
        None
    } else if exists|i: int| 0 <= i < t.len() && !spec_is_digit(#[trigger] t[i]) {
        None
    } else if spec_digits_val(t) > u32::MAX {
        None
    } else {
        Some(spec_digits_val(t) as u32)
    }
}

/// Decimal parsing of an unsigned 32-bit number, as `u32` parses text: an
/// optional leading plus sign, then at least one digit, and the value must
/// fit.
pub open spec fn spec_parse_u32(s: Seq<char>) -> Option<u32> {
    if s.len() > 0 && s[0] == '+' {
        spec_parse_digits_u32(s.drop_first())
    } else {
        spec_parse_digits_u32(s)
    }
}

/// Parses the digit part of a number; `start` skips a leading sign.
fn parse_digits(s: &str, start: usize) -> (r: Option<u32>)
    requires
        start <= s@.len(),
    ensures
        ({
            let t = s@.skip(start as int);
            match r {
                Some(v) => {
                    &&& t.len() > 0
                    &&& forall|i: int| 0 <= i < t.len() ==> spec_is_digit(#[trigger] t[i])
                    &&& spec_digits_val(t) == v
                },
                None => t.len() == 0 || (exists|i: int|
                    0 <= i < t.len() && !spec_is_digit(#[trigger] t[i])) || spec_digits_val(t)
                    > u32::MAX,
            }
        }),
{
    let n = s.unicode_len();
    if start >= n {
        return None;
    }
    let ghost t = s@.skip(start as int);
    let mut acc: u64 = 0;
    let mut too_big = false;
    let mut i: usize = start;
    while i < n
        invariant
            start <= i <= n,
            n == s@.len(),
            t == s@.skip(start as int),
            forall|j: int| 0 <= j < i - start ==> spec_is_digit(#[trigger] t[j]),
            !too_big ==> acc == spec_digits_val(t.take(i - start)) && acc <= u32::MAX,
            too_big ==> spec_digits_val(t.take(i - start)) > u32::MAX,
        decreases n - i,
    {
        let c = s.get_char(i);
        proof {
            assert(t[i - start] == s@[i as int]);
        }
        if c < '0' || c > '9' {
            proof {
                assert(!spec_is_digit(t[i - start]));
            }
            return None;
        }
        let d: u64 = (c as u32 as u64) - ('0' as u32 as u64);
        proof {
            assert(t.take(i - start + 1).drop_last() =~= t.take(i - start));
            assert(t.take(i - start + 1).last() == t[i - start]);
            lemma_digits_val_nonneg(t.take(i - start));
        }
        if too_big {
            proof {
                let prev = spec_digits_val(t.take(i - start));
                let next = spec_digits_val(t.take(i - start + 1));
                assert(next == 10 * prev + (t[i - start] as int - '0' as int));
                assert(next > u32::MAX);
            }
        } else {
            let next = acc * 10 + d;
            if next > u32::MAX as u64 {
                too_big = true;
            } else {
                acc = next;
            }
        }
        i = i + 1;
    }
    proof {
        assert(t.take(n - start) =~= t);
    }
    if too_big {
        None
    } else {
        Some(acc as u32)
    }
}

/// Parses text as `u32` does: optional plus sign, digits, value in range.
pub fn parse_u32_text(s: &str) -> (r: Option<u32>)
    ensures
        r == spec_parse_u32(s@),
{
    let n = s.unicode_len();
    if n > 0 && s.get_char(0) == '+' {
        let r = parse_digits(s, 1);
        proof {
            assert(s@.skip(1) =~= s@.drop_first());
        }
        r
    } else {
        let r = parse_digits(s, 0);
        proof {
            assert(s@.skip(0) =~= s@);
        }
        r
    }
}

/// Parses the secret number: the input is trimmed, then read as a decimal
/// `u32`; anything else is `NotANumber`.
pub fn parse_secret_number(input: &str) -> (r: Result<u32, SecretNumberError>)
    ensures
        r == match spec_parse_u32(text::spec_trim(input@)) {
            Some(v) => Result::<u32, SecretNumberError>::Ok(v),
            None => Result::<u32, SecretNumberError>::Err(SecretNumberError::NotANumber),
        },
{
    let trimmed = text::trim(input);
    match parse_u32_text(trimmed) {
        Some(v) => Ok(v),
        None => Err(SecretNumberError::NotANumber),
    }
}

/// Parses a guess line: the input is trimmed, then read as a decimal
/// `u32`; anything else is `None`.
pub fn parse_guess(input: &str) -> (r: Option<u32>)
    ensures
        r == spec_parse_u32(text::spec_trim(input@)),
{
    let trimmed = text::trim(input);
    parse_u32_text(trimmed)
}

/// The messages emitted and the outcome reached when the game over
/// `secret` consumes `lines` in order: each line is prompted for, invalid
/// guesses are skipped silently, valid guesses are echoed and compared,
/// and input that runs out before a win is an error.
pub open spec fn spec_play(secret: u32, lines: Seq<Seq<char>>) -> (Seq<GameMsg>, Result<
    (),
    AppError,
>)
    decreases lines.len(),
{
    if lines.len() == 0 {
        (seq![GameMsg::Prompt], Result::<(), AppError>::Err(AppError::InputEnded))
    } else {
        match spec_parse_u32(text::spec_trim(lines[0])) {
            None => {
                let rec = spec_play(secret, lines.drop_first());
                (seq![GameMsg::Prompt] + rec.0, rec.1)
            },
            Some(g) => {
                if g < secret {
                    let rec = spec_play(secret, lines.drop_first());
                    (
                        seq![GameMsg::Prompt, GameMsg::Guessed(g), GameMsg::TooSmall] + rec.0,
                        rec.1,
                    )
                } else if g > secret {
                    let rec = spec_play(secret, lines.drop_first());
                    (seq![GameMsg::Prompt, GameMsg::Guessed(g), GameMsg::TooBig] + rec.0, rec.1)
                } else {
                    (
                        seq![GameMsg::Prompt, GameMsg::Guessed(g), GameMsg::Win],
                        Result::<(), AppError>::Ok(()),
                    )
                }
            },
        }
    }
}

/// Runs the game over the given input lines, returning the emitted
/// messages (starting with the greeting) and the outcome.
pub fn run_game(secret_number: u32, lines: &Vec<String>) -> (r: (Vec<GameMsg>, Result<
    (),
    AppError,
>))
    ensures
        ({
            let p = spec_play(secret_number, lines@.map_values(|l: String| l@));
            r.0@ == seq![GameMsg::Start] + p.0 && r.1 == p.1
        }),
{
    let ghost all: Seq<Seq<char>> = lines@.map_values(|l: String| l@);
    let mut msgs: Vec<GameMsg> = Vec::new();
    msgs.push(GameMsg::Start);
    let n = lines.len();
    let mut i: usize = 0;
    proof {
        assert(all.skip(0) =~= all);
        assert(msgs@ =~= seq![GameMsg::Start]);
    }
    while i < n
        invariant
            i <= n,
            n == all.len(),
            all == lines@.map_values(|l: String| l@),
            msgs@.len() >= 1,
            msgs@[0] == GameMsg::Start,
            spec_play(secret_number, all).0 == msgs@.skip(1) + spec_play(
                secret_number,
                all.skip(i as int),
            ).0,
            spec_play(secret_number, all).1 == spec_play(secret_number, all.skip(i as int)).1,
        decreases n - i,
    {
        proof {
            assert(all.skip(i as int)[0] == all[i as int]);
            assert(all.skip(i as int).drop_first() =~= all.skip(i + 1));
            assert(all[i as int] == lines@[i as int]@);
        }
        msgs.push(GameMsg::Prompt);
        let guess = parse_guess(lines[i].as_str());
        match guess {
            None => {
                proof {
                    assert(msgs@.skip(1) =~= (msgs@.skip(1).drop_last() + seq![GameMsg::Prompt]));
                }
            },
            Some(g) => {
                msgs.push(GameMsg::Guessed(g));
                if g < secret_number {
                    msgs.push(GameMsg::TooSmall);
                    proof {
                        assert(msgs@.skip(1) =~= (msgs@.skip(1).subrange(
                            0,
                            msgs@.skip(1).len() - 3,
                        ) + seq![GameMsg::Prompt, GameMsg::Guessed(g), GameMsg::TooSmall]));
                    }
                } else if g > secret_number {
                    msgs.push(GameMsg::TooBig);
                    proof {
                        assert(msgs@.skip(1) =~= (msgs@.skip(1).subrange(
                            0,
                            msgs@.skip(1).len() - 3,
                        ) + seq![GameMsg::Prompt, GameMsg::Guessed(g), GameMsg::TooBig]));
                    }
                } else {
                    msgs.push(GameMsg::Win);
                    proof {
                        assert(msgs@.skip(1) =~= (msgs@.skip(1).subrange(
                            0,
                            msgs@.skip(1).len() - 3,
                        ) + seq![GameMsg::Prompt, GameMsg::Guessed(g), GameMsg::Win]));
                    }
                    return (msgs, Ok(()));
                }
            },
        }
        i = i + 1;
    }
    msgs.push(GameMsg::Prompt);
    proof {
        assert(all.skip(n as int).len() == 0);
        assert(msgs@.skip(1) =~= (msgs@.skip(1).drop_last() + seq![GameMsg::Prompt]));
        assert(msgs@.skip(1) =~= spec_play(secret_number, all).0);
        assert(msgs@ =~= seq![GameMsg::Start] + spec_play(secret_number, all).0);
    }
    (msgs, Err(AppError::InputEnded))
}

/// Runs the whole program logic: the first argument is the program name,
/// the second the secret number; the remaining input lines feed the game.
pub fn run_app(args: &Vec<String>, lines: &Vec<String>) -> (r: (Vec<GameMsg>, Result<
    (),
    AppError,
>))
    ensures
        args@.len() < 2 ==> r.0@ == Seq::<GameMsg>::empty() && r.1 == Result::<(), AppError>::Err(
            AppError::MissingSecretNumber,
        ),
        args@.len() >= 2 ==> ({
            match spec_parse_u32(text::spec_trim(args@[1]@)) {
                None => r.0@ == Seq::<GameMsg>::empty() && r.1 == Result::<(), AppError>::Err(
                    AppError::InvalidSecretNumber,
                ),
                Some(secret) => {
                    let p = spec_play(secret, lines@.map_values(|l: String| l@));
                    r.0@ == seq![GameMsg::Start] + p.0 && r.1 == p.1
                },
            }
        }),
{
    if args.len() < 2 {
        return (Vec::new(), Err(AppError::MissingSecretNumber));
    }
    let secret = match parse_secret_number(args[1].as_str()) {
        Ok(v) => v,
        Err(_) => {
            return (Vec::new(), Err(AppError::InvalidSecretNumber));
        },
    };
    run_game(secret, lines)
}

} // verus!
