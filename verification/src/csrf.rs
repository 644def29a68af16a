//! The single-use value that ties a redirect to the flow that asked for it.

use vstd::prelude::*;
use vstd::string::*;

verus! {

/// The character of one decimal digit.
pub open spec fn digit_char(digit: nat) -> char {
    if digit == 0 {
        '0'
    } else if digit == 1 {
        '1'
    } else if digit == 2 {
        '2'
    } else if digit == 3 {
        '3'
    } else if digit == 4 {
        '4'
    } else if digit == 5 {
        '5'
    } else if digit == 6 {
        '6'
    } else if digit == 7 {
        '7'
    } else if digit == 8 {
        '8'
    } else {
        '9'
    }
}

/// The decimal numeral of `n`, without sign or leading zeros.
pub open spec fn decimal(n: nat) -> Seq<char>
    decreases n,
{
    if n < 10 {
        seq![digit_char(n)]
    } else {
        decimal(n / 10).push(digit_char(n % 10))
    }
}

/// A numeral of one digit stands for a number below ten, a longer one for a
/// number from ten on.
pub proof fn lemma_decimal_len(n: nat)
    ensures
        decimal(n).len() >= 1,
        decimal(n).len() == 1 <==> n < 10,
    decreases n,
{
    if n >= 10 {
        lemma_decimal_len(n / 10);
    }
}

/// Two numbers with the same numeral are the same number, so two tokens are
/// told apart by their rendered form.
pub proof fn lemma_decimal_injective(a: nat, b: nat)
    requires
        decimal(a) == decimal(b),
    ensures
        a == b,
    decreases a,
{
    lemma_decimal_len(a);
    lemma_decimal_len(b);
    if a < 10 {
        assert(decimal(a)[0] == digit_char(a));
        assert(decimal(b)[0] == digit_char(b));
    } else {
        assert(decimal(a).last() == digit_char(a % 10));
        assert(decimal(b).last() == digit_char(b % 10));
        assert(decimal(a).drop_last() == decimal(a / 10));
        assert(decimal(b).drop_last() == decimal(b / 10));
        lemma_decimal_injective(a / 10, b / 10);
        assert(a % 10 == b % 10);
    }
}

fn digit_str(digit: u8) -> (text: &'static str)
    requires
        digit < 10,
    ensures
        text@ == seq![digit_char(digit as nat)],
{
    proof {
        reveal_strlit("0");
        reveal_strlit("1");
        reveal_strlit("2");
        reveal_strlit("3");
        reveal_strlit("4");
        reveal_strlit("5");
        reveal_strlit("6");
        reveal_strlit("7");
        reveal_strlit("8");
        reveal_strlit("9");
    }
    let text = if digit == 0 {
        "0"
    } else if digit == 1 {
        "1"
    } else if digit == 2 {
        "2"
    } else if digit == 3 {
        "3"
    } else if digit == 4 {
        "4"
    } else if digit == 5 {
        "5"
    } else if digit == 6 {
        "6"
    } else if digit == 7 {
        "7"
    } else if digit == 8 {
        "8"
    } else {
        "9"
    };
    assert(text@ =~= seq![digit_char(digit as nat)]);
    text
}

/// Renders `n` in decimal.
pub fn render_decimal(n: u128) -> (text: String)
    ensures
        text@ == decimal(n as nat),
    decreases n,
{
    if n < 10 {
        String::from_str(digit_str(n as u8))
    } else {
        let mut text = render_decimal(n / 10);
        text.append(digit_str((n % 10) as u8));
        assert(text@ =~= decimal(n as nat));
        text
    }
}

/// Calls `rand::thread_rng()` and `Rng::gen::<u128>` on it: 128 bits from
/// the thread-local generator, which `rand` seeds from the operating system.
/// Nothing is claimed of the value.
#[verifier::external_body]
fn random_u128() -> (value: u128) {
    rand::Rng::gen::<u128>(&mut rand::thread_rng())
}

/// A 128-bit value minted once per flow and carried as the `state`
/// parameter. It is compared in its decimal form.
pub struct CsrfToken {
    value: u128,
}

impl View for CsrfToken {
    type V = nat;

    closed spec fn view(&self) -> nat {
        self.value as nat
    }
}

impl CsrfToken {
    /// The form in which the token travels and is compared.
    pub open spec fn rendered(self) -> Seq<char> {
        decimal(self@)
    }

    /// Mints a fresh token.
    pub fn mint() -> (token: CsrfToken) {
        CsrfToken { value: random_u128() }
    }

    /// The token with the given value.
    pub fn from_value(value: u128) -> (token: CsrfToken)
        ensures
            token@ == value,
    {
        CsrfToken { value }
    }

    pub fn value(&self) -> (value: u128)
        ensures
            value == self@,
    {
        self.value
    }

    /// The token as a decimal string.
    pub fn render(&self) -> (text: String)
        ensures
            text@ == self.rendered(),
    {
        render_decimal(self.value)
    }

    /// Whether `candidate` is this token's decimal string.
    pub fn matches(&self, candidate: &String) -> (same: bool)
        ensures
            same == (candidate@ == self.rendered()),
    {
        let expected = self.render();
        *candidate == expected
    }
}

/// Tokens of different value never match each other's rendered form.
pub proof fn lemma_tokens_differ(a: CsrfToken, b: CsrfToken)
    requires
        a@ != b@,
    ensures
        a.rendered() != b.rendered(),
{
    if a.rendered() == b.rendered() {
        lemma_decimal_injective(a@, b@);
    }
}

} // verus!
