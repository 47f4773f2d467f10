use vstd::prelude::*;
use vstd::string::*;

verus! {

/// The character of a decimal digit.
pub open spec fn digit_char(d: nat) -> char {
    if d == 0 {
        '0'
    } else if d == 1 {
        '1'
    } else if d == 2 {
        '2'
    } else if d == 3 {
        '3'
    } else if d == 4 {
        '4'
    } else if d == 5 {
        '5'
    } else if d == 6 {
        '6'
    } else if d == 7 {
        '7'
    } else if d == 8 {
        '8'
    } else {
        '9'
    }
}

/// The decimal digits of `n`, most significant first, without leading zeros.
pub open spec fn decimal(n: nat) -> Seq<char>
    decreases n,
{
    if n < 10 {
        seq![digit_char(n)]
    } else {
        decimal(n / 10).push(digit_char(n % 10))
    }
}

fn digit_str(d: u8) -> (r: &'static str)
    requires
        d < 10,
    ensures
        r@ == seq![digit_char(d as nat)],
{
    proof {
        reveal_strlit("0");
        reveal_strlit("1");
        reveal_strlit("2");
        reveal_strlit("3");
        reveal_strlit("4");
        reveal_strlit("5");
        reveal_strlit("6");
        reveal_strlit("7");
        reveal_strlit("8");
        reveal_strlit("9");
    }
    let r = if d == 0 {
        "0"
    } else if d == 1 {
        "1"
    } else if d == 2 {
        "2"
    } else if d == 3 {
        "3"
    } else if d == 4 {
        "4"
    } else if d == 5 {
        "5"
    } else if d == 6 {
        "6"
    } else if d == 7 {
        "7"
    } else if d == 8 {
        "8"
    } else {
        "9"
    };
    assert(r@ =~= seq![digit_char(d as nat)]);
    r
}

/// `n` written in decimal.
pub fn decimal_string(n: u128) -> (r: String)
    ensures
        r@ == decimal(n as nat),
    decreases n,
{
    if n < 10 {
        String::from_str(digit_str(n as u8))
    } else {
        let mut s = decimal_string(n / 10);
        s.append(digit_str((n % 10) as u8));
        assert(s@ =~= decimal(n as nat));
        s
    }
}

pub open spec fn is_digit(c: char) -> bool {
    48 <= c as u32 && c as u32 <= 57
}

pub open spec fn digit_value(c: char) -> nat {
    (c as u32 - 48) as nat
}

pub open spec fn all_digits(s: Seq<char>) -> bool {
    forall|i: int| 0 <= i < s.len() ==> is_digit(#[trigger] s[i])
}

/// The number that a string of decimal digits denotes.
pub open spec fn digits_value(s: Seq<char>) -> nat
    decreases s.len(),
{
    if s.len() == 0 {
        0
    } else {
        digits_value(s.drop_last()) * 10 + digit_value(s.last())
    }
}

/// The digits of a number as typed: the text without one leading `+`.
pub open spec fn unsigned_body(s: Seq<char>) -> Seq<char> {
    if s.len() > 0 && s[0] == '+' {
        s.drop_first()
    } else {
        s
    }
}

/// Why a typed page number was refused.
#[derive(Debug, Clone, Copy, PartialEq, Eq, Structural)]
pub enum PageInputError {
    /// Nothing was typed.
    Empty,
    /// The text is not a run of decimal digits after an optional `+`.
    InvalidDigit,
    /// The number does not fit in `usize`.
    TooLarge,
    /// Pages are counted from 1.
    Zero,
}

/// The zero-based page index that a typed one-based page number names.
pub open spec fn page_input(s: Seq<char>) -> Result<usize, PageInputError> {
    let body = unsigned_body(s);
    if s.len() == 0 {
        Err(PageInputError::Empty)
    } else if body.len() == 0 || !all_digits(body) {
        Err(PageInputError::InvalidDigit)
    } else if digits_value(body) > usize::MAX {
        Err(PageInputError::TooLarge)
    } else if digits_value(body) == 0 {
        Err(PageInputError::Zero)
    } else {
        Ok((digits_value(body) - 1) as usize)
    }
}

proof fn lemma_digits_value_grows(s: Seq<char>, k: int)
    requires
        0 <= k <= s.len(),
    ensures
        digits_value(s.take(k)) <= digits_value(s),
    decreases s.len(),
{
    if k < s.len() {
        assert(s.drop_last().take(k) =~= s.take(k));
        lemma_digits_value_grows(s.drop_last(), k);
    } else {
        assert(s.take(k) =~= s);
    }
}

impl PageInputError {
    /// A short description for the user.
    pub fn message(&self) -> (r: &'static str)
        ensures
            r@ == match self {
                PageInputError::Empty => "cannot parse integer from empty string"@,
                PageInputError::InvalidDigit => "invalid digit found in string"@,
                PageInputError::TooLarge => "number too large to fit in target type"@,
                PageInputError::Zero => "page numbers start at 1"@,
            },
    {
        proof {
            reveal_strlit("cannot parse integer from empty string");
            reveal_strlit("invalid digit found in string");
            reveal_strlit("number too large to fit in target type");
            reveal_strlit("page numbers start at 1");
        }
        match self {
            PageInputError::Empty => "cannot parse integer from empty string",
            PageInputError::InvalidDigit => "invalid digit found in string",
            PageInputError::TooLarge => "number too large to fit in target type",
            PageInputError::Zero => "page numbers start at 1",
        }
    }
}

/// Reads a one-based page number as typed by a user and gives the zero-based
/// page index it names.
pub fn parse_page_number(text: &str) -> (r: Result<usize, PageInputError>)
    ensures
        r == page_input(text@),
{
    let n = text.unicode_len();
    if n == 0 {
        return Err(PageInputError::Empty);
    }
    let start: usize = if text.get_char(0) == '+' { 1 } else { 0 };
    let ghost body = unsigned_body(text@);
    assert(body =~= text@.subrange(start as int, n as int));
    if start == n {
        return Err(PageInputError::InvalidDigit);
    }
    let mut i: usize = start;
    while i < n
        invariant
            start <= i <= n,
            n == text@.len(),
            body == text@.subrange(start as int, n as int),
            body == unsigned_body(text@),
            forall|j: int| start <= j < i ==> is_digit(#[trigger] text@[j]),
        decreases n - i,
    {
        let c = text.get_char(i);
        if !((c as u32) >= 48 && (c as u32) <= 57) {
            assert(body[i - start] == c);
            assert(!is_digit(body[i - start]));
            assert(!all_digits(body));
            return Err(PageInputError::InvalidDigit);
        }
        i = i + 1;
    }
    assert(all_digits(body)) by {
        assert forall|j: int| 0 <= j < body.len() implies is_digit(#[trigger] body[j]) by {
            assert(body[j] == text@[j + start]);
        }
    }
    let mut value: usize = 0;
    let mut i: usize = start;
    while i < n
        invariant
            start <= i <= n,
            n == text@.len(),
            body == text@.subrange(start as int, n as int),
            body == unsigned_body(text@),
            all_digits(body),
            value == digits_value(body.take(i - start)),
        decreases n - i,
    {
        let c = text.get_char(i);
        let ghost k = i - start;
        assert(body.take(k + 1).drop_last() =~= body.take(k));
        assert(body.take(k + 1).last() == c);
        assert(is_digit(body[k]));
        let d = (c as u32 - 48) as usize;
        if value > (usize::MAX - d) / 10 {
            proof {
                assert(value * 10 + d > usize::MAX) by (nonlinear_arith)
                    requires
                        value > (usize::MAX - d) / 10,
                        d <= 9,
                ;
                assert(digits_value(body.take(k + 1)) == value * 10 + d);
                lemma_digits_value_grows(body, k + 1);
            }
            return Err(PageInputError::TooLarge);
        }
        proof {
            assert(value * 10 + d <= usize::MAX) by (nonlinear_arith)
                requires
                    value <= (usize::MAX - d) / 10,
                    d <= 9,
            ;
        }
        value = value * 10 + d;
        i = i + 1;
    }
    assert(body.take(n - start) =~= body);
    if value == 0 {
        Err(PageInputError::Zero)
    } else {
        Ok(value - 1)
    }
}

/// The notice for a jump to the zero-based index `page`, which names no page.
pub fn missing_page_text(page: usize) -> (r: String)
    ensures
        r@ == "Page "@ + decimal(page as nat + 1) + " does not exist."@,
{
    let mut s = String::from_str("Page ");
    s.append(decimal_string(page as u128 + 1).as_str());
    s.append(" does not exist.");
    s
}

proof fn lemma_digit_char(d: nat)
    ensures
        is_digit(digit_char(d)),
        d < 10 ==> digit_value(digit_char(d)) == d,
{
}

/// The decimal form of a number is a non-empty run of digits that denotes
/// that number.
pub proof fn lemma_decimal_value(n: nat)
    ensures
        decimal(n).len() > 0,
        all_digits(decimal(n)),
        digits_value(decimal(n)) == n,
    decreases n,
{
    lemma_digit_char(n % 10);
    lemma_digit_char(n);
    if n < 10 {
        assert(decimal(n).drop_last() =~= Seq::<char>::empty());
        assert(decimal(n).last() == digit_char(n));
        assert(digits_value(Seq::<char>::empty()) == 0);
        assert(digits_value(decimal(n)) == digits_value(decimal(n).drop_last()) * 10 + digit_value(decimal(n).last()));
    } else {
        lemma_decimal_value(n / 10);
        let s = decimal(n);
        assert(s.drop_last() =~= decimal(n / 10));
        assert(s.last() == digit_char(n % 10));
        assert((n / 10) * 10 + n % 10 == n) by (nonlinear_arith);
        assert(digits_value(s) == digits_value(decimal(n / 10)) * 10 + digit_value(s.last()));
        assert(all_digits(s)) by {
            assert forall|i: int| 0 <= i < s.len() implies is_digit(#[trigger] s[i]) by {
                if i < s.len() - 1 {
                    assert(s[i] == decimal(n / 10)[i]);
                }
            }
        }
    }
}

/// Distinct numbers have distinct decimal forms.
pub proof fn lemma_decimal_injective(a: nat, b: nat)
    ensures
        decimal(a) == decimal(b) ==> a == b,
{
    lemma_decimal_value(a);
    lemma_decimal_value(b);
}

/// A page number written in decimal, as the counter shows it, reads back as
/// the index of that page.
pub proof fn lemma_page_number_round_trip(index: usize)
    requires
        index < usize::MAX,
    ensures
        page_input(decimal(index as nat + 1)) == Ok::<usize, PageInputError>(index),
{
    let s = decimal(index as nat + 1);
    lemma_decimal_value(index as nat + 1);
    assert(is_digit(s[0]));
    assert(unsigned_body(s) == s);
}

} // verus!
