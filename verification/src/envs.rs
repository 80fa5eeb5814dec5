//! Reading configuration out of the values of environment variables. The
//! variables themselves are read by the caller, once, at start.
use crate::text::{chars_of, same_text};
use vstd::prelude::*;

verus! {

/// Why a configuration value could not be had.
#[derive(Debug, Clone, Copy)]
pub enum Error {
    MissingEnv(&'static str),
    WrongFormat(&'static str),
}

pub type Result<T> = core::result::Result<T, Error>;

/// The mathematical value of an `Error`.
pub enum ErrorView {
    MissingEnv(Seq<char>),
    WrongFormat(Seq<char>),
}

impl View for Error {
    type V = ErrorView;

    open spec fn view(&self) -> ErrorView {
        match self {
            Error::MissingEnv(name) => ErrorView::MissingEnv(name@),
            Error::WrongFormat(name) => ErrorView::WrongFormat(name@),
        }
    }
}

/// Whether `c` is a decimal digit.
pub open spec fn is_digit(c: char) -> bool {
    '0' <= c && c <= '9'
}

/// The number that a text of decimal digits stands for.
pub open spec fn decimal_value(digits: Seq<char>) -> nat
    decreases digits.len(),
{
    if digits.len() == 0 {
        0
    } else {
        decimal_value(digits.drop_last()) * 10 + (digits.last() as nat - '0' as nat) as nat
    }
}

/// Every character of `s` is a decimal digit.
pub open spec fn all_digits(s: Seq<char>) -> bool {
    forall|i: int| 0 <= i < s.len() ==> is_digit(#[trigger] s[i])
}

/// `s` without its leading `+`, where it has one.
pub open spec fn unsigned_part(s: Seq<char>) -> Seq<char> {
    if s.len() > 0 && s[0] == '+' {
        s.skip(1)
    } else {
        s
    }
}

/// The port that a text stands for: an optional `+`, then one or more
/// decimal digits, with a value that fits sixteen bits.
pub open spec fn port_of(s: Seq<char>) -> Option<u16> {
    let digits = unsigned_part(s);
    if digits.len() > 0 && all_digits(digits) && decimal_value(digits) <= u16::MAX {
        Some(decimal_value(digits) as u16)
    } else {
        None
    }
}

/// The truth value that a text stands for: `true` or `false`, nothing else.
pub open spec fn flag_of(s: Seq<char>) -> Option<bool> {
    if s == "true"@ {
        Some(true)
    } else if s == "false"@ {
        Some(false)
    } else {
        None
    }
}

/// The number of a text of digits is no less than that of any of its
/// beginnings.
proof fn lemma_decimal_value_grows(digits: Seq<char>, n: int)
    requires
        0 <= n <= digits.len(),
        all_digits(digits),
    ensures
        decimal_value(digits.take(n)) <= decimal_value(digits),
    decreases digits.len() - n,
{
    if n == digits.len() {
        assert(digits.take(n) =~= digits);
    } else {
        lemma_decimal_value_grows(digits, n + 1);
        let longer = digits.take(n + 1);
        assert(longer.drop_last() =~= digits.take(n));
        assert(is_digit(digits[n]));
        assert(longer.last() == digits[n]);
    }
}

/// The value of a variable that must be set.
pub fn get_env(name: &'static str, value: Option<String>) -> (r: Result<String>)
    ensures
        match r {
            Ok(v) => value == Some(v),
            Err(e) => value is None && e@ == ErrorView::MissingEnv(name@),
        },
{
    match value {
        Some(v) => Ok(v),
        None => Err(Error::MissingEnv(name)),
    }
}

/// The port held by a variable that must be set.
pub fn get_env_port(name: &'static str, value: Option<String>) -> (r: Result<u16>)
    ensures
        match r {
            Ok(port) => value matches Some(v) && port_of(v@) == Some(port),
            Err(e) => match value {
                None => e@ == ErrorView::MissingEnv(name@),
                Some(v) => port_of(v@) is None && e@ == ErrorView::WrongFormat(name@),
            },
        },
{
    let text = match value {
        Some(v) => v,
        None => { return Err(Error::MissingEnv(name)); },
    };
    let s = chars_of(text.as_str());
    let start: usize = if s.len() > 0 && s[0] == '+' {
        1
    } else {
        0
    };
    let ghost digits = unsigned_part(s@);
    assert(digits =~= s@.skip(start as int));
    if start == s.len() {
        return Err(Error::WrongFormat(name));
    }
    let mut port: u32 = 0;
    let mut i: usize = start;
    while i < s.len()
        invariant
            start <= i <= s.len(),
            s@ == text@,
            value == Some(text),
            digits == unsigned_part(s@),
            digits == s@.skip(start as int),
            all_digits(digits.take(i - start)),
            port == decimal_value(digits.take(i - start)),
            port <= u16::MAX,
        decreases s.len() - i,
    {
        let c = s[i];
        if c < '0' || c > '9' {
            assert(digits[i - start] == c);
            assert(!is_digit(digits[i - start]));
            assert(!all_digits(digits));
            return Err(Error::WrongFormat(name));
        }
        let d: u32 = (c as u32) - ('0' as u32);
        let next: u32 = port * 10 + d;
        proof {
            let shorter = digits.take(i - start);
            let longer = digits.take(i + 1 - start);
            assert(longer.drop_last() =~= shorter);
            assert(longer.last() == c);
            assert(next == decimal_value(longer));
            assert forall|k: int| 0 <= k < longer.len() implies is_digit(#[trigger] longer[k]) by {
                if k < shorter.len() {
                    assert(longer[k] == shorter[k]);
                }
            }
        }
        if next > 65535 {
            proof {
                if all_digits(digits) {
                    lemma_decimal_value_grows(digits, i + 1 - start);
                    assert(decimal_value(digits) > u16::MAX);
                }
                assert(port_of(text@) is None);
            }
            return Err(Error::WrongFormat(name));
        }
        port = next;
        i += 1;
    }
    assert(digits.take(s.len() - start) =~= digits);
    Ok(port as u16)
}

/// The truth value held by a variable that must be set.
pub fn get_env_flag(name: &'static str, value: Option<String>) -> (r: Result<bool>)
    ensures
        match r {
            Ok(flag) => value matches Some(v) && flag_of(v@) == Some(flag),
            Err(e) => match value {
                None => e@ == ErrorView::MissingEnv(name@),
                Some(v) => flag_of(v@) is None && e@ == ErrorView::WrongFormat(name@),
            },
        },
{
    let text = match value {
        Some(v) => v,
        None => { return Err(Error::MissingEnv(name)); },
    };
    if same_text(text.as_str(), "true") {
        Ok(true)
    } else if same_text(text.as_str(), "false") {
        proof {
            reveal_strlit("true");
            reveal_strlit("false");
            assert("true"@.len() != "false"@.len());
        }
        Ok(false)
    } else {
        Err(Error::WrongFormat(name))
    }
}

} // verus!
