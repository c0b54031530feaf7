use vstd::prelude::*;
use vstd::string::*;
use crate::text::{digit_char, nat_decimal};

verus! {

/// The server's settings: the address to listen on and the default port.
#[derive(Debug, Clone)]
pub struct Configuration {
    pub ip: String,
    pub port: String,
}

/// Whether a character is an ASCII decimal digit.
pub open spec fn is_digit(c: char) -> bool {
    '0' <= c && c <= '9'
}

/// The value of a decimal digit character.
pub open spec fn digit_value(c: char) -> nat {
    (c as int - 48) as nat
}

/// The value of a string of decimal digits, most significant first.
pub open spec fn decimal_value(digits: Seq<char>) -> nat
    decreases digits.len(),
{
    if digits.len() == 0 {
        0
    } else {
        decimal_value(digits.drop_last()) * 10 + digit_value(digits.last())
    }
}

/// The digits of a number as `u16`'s parser reads them: after one optional `+`.
pub open spec fn unsigned_digits(s: Seq<char>) -> Seq<char> {
    if s.len() > 0 && s[0] == '+' {
        s.drop_first()
    } else {
        s
    }
}

/// What parsing a `u16` gives: an optional `+` followed by at least one
/// decimal digit and nothing else, whose value fits in 16 bits.
pub open spec fn spec_parse_u16(s: Seq<char>) -> Option<u16> {
    let digits = unsigned_digits(s);
    if digits.len() > 0 && (forall|i: int| 0 <= i < digits.len() ==> is_digit(#[trigger] digits[i]))
        && decimal_value(digits) <= u16::MAX {
        Some(decimal_value(digits) as u16)
    } else {
        None
    }
}

proof fn lemma_value_grows(digits: Seq<char>, k: int)
    requires
        0 <= k <= digits.len(),
    ensures
        decimal_value(digits.take(k)) <= decimal_value(digits),
    decreases digits.len() - k,
{
    if k < digits.len() {
        lemma_value_grows(digits, k + 1);
        assert(digits.take(k + 1).drop_last() =~= digits.take(k));
    } else {
        assert(digits.take(k) =~= digits);
    }
}

/// Reads a port number the way `str::parse::<u16>` does.
pub fn parse_port(s: &str) -> (r: Option<u16>)
    ensures
        r == spec_parse_u16(s@),
{
    let n: usize = s.unicode_len();
    let mut start: usize = 0;
    if n > 0 && s.get_char(0) == '+' {
        start = 1;
    }
    let ghost digits = unsigned_digits(s@);
    proof {
        assert(digits =~= s@.subrange(start as int, n as int));
    }
    if start == n {
        return None;
    }
    let mut value: u32 = 0;
    let mut i: usize = start;
    while i < n
        invariant
            n == s@.len(),
            start <= i <= n,
            start < n,
            digits =~= s@.subrange(start as int, n as int),
            digits == unsigned_digits(s@),
            forall|j: int| 0 <= j < i - start ==> is_digit(#[trigger] digits[j]),
            value == decimal_value(digits.take(i - start)),
            value <= u16::MAX,
        decreases n - i,
    {
        let c = s.get_char(i);
        if !('0' <= c && c <= '9') {
            assert(!is_digit(digits[i - start]));
            return None;
        }
        let d: u32 = (c as u32) - 48;
        proof {
            assert(digits.take(i - start + 1).drop_last() =~= digits.take(i - start));
        }
        value = value * 10 + d;
        if value > 65535 {
            proof {
                if forall|j: int| 0 <= j < digits.len() ==> is_digit(#[trigger] digits[j]) {
                    lemma_value_grows(digits, i - start + 1);
                }
            }
            return None;
        }
        i = i + 1;
    }
    proof {
        assert(digits.take(i - start) =~= digits);
    }
    Some(value as u16)
}

/// The port to listen on: the one given by the environment if any, else the
/// configured one, read as a `u16`.
pub fn resolve_port(env_port: Option<String>, config: &Configuration) -> (r: Option<u16>)
    ensures
        r == spec_parse_u16(match env_port {
            Some(p) => p@,
            None => config.port@,
        }),
{
    match env_port {
        Some(p) => parse_port(p.as_str()),
        None => parse_port(config.port.as_str()),
    }
}

/// The server: its port and settings.
#[derive(Debug, Clone)]
pub struct AuthServer {
    port: u16,
    config: Configuration,
}

impl AuthServer {
    pub closed spec fn spec_port(self) -> u16 {
        self.port
    }

    pub closed spec fn spec_config(self) -> Configuration {
        self.config
    }

    pub fn new(port: u16, config: Configuration) -> (s: Self)
        ensures
            s.spec_port() == port,
            s.spec_config() == config,
    {
        AuthServer { port, config }
    }

    pub fn port(&self) -> (p: u16)
        ensures
            p == self.spec_port(),
    {
        self.port
    }

    pub fn config(&self) -> (c: &Configuration)
        ensures
            *c == self.spec_config(),
    {
        &self.config
    }
}

/// The decimal text of a number is a non-empty string of digits that reads
/// back as that number.
pub proof fn lemma_decimal_text_reads_back(n: nat)
    ensures
        nat_decimal(n).len() > 0,
        forall|i: int| 0 <= i < nat_decimal(n).len() ==> is_digit(#[trigger] nat_decimal(n)[i]),
        decimal_value(nat_decimal(n)) == n,
    decreases n,
{
    let text = nat_decimal(n);
    if n >= 10 {
        lemma_decimal_text_reads_back(n / 10);
        let prefix = nat_decimal(n / 10);
        assert(text == prefix.push(digit_char(n % 10)));
        assert(text.drop_last() =~= prefix);
        vstd::arithmetic::div_mod::lemma_fundamental_div_mod(n as int, 10);
        assert(digit_value(text.last()) == n % 10);
        assert(decimal_value(text) == decimal_value(prefix) * 10 + digit_value(text.last()));
        assert forall|i: int| 0 <= i < text.len() implies is_digit(#[trigger] text[i]) by {
            if i < prefix.len() {
                assert(text[i] == prefix[i]);
            }
        }
    } else {
        assert(text.drop_last() =~= Seq::<char>::empty());
        assert(decimal_value(text) == decimal_value(text.drop_last()) * 10 + digit_value(text.last()));
        assert(digit_value(text.last()) == n);
    }
}

/// Reading a port gives back every `u16` from its decimal text, with or
/// without a leading `+` and with any number of leading zeros: no port number
/// is refused.
pub proof fn law_every_port_reads_back(n: u16, zeros: nat)
    ensures
        spec_parse_u16(nat_decimal(n as nat)) == Some(n),
        spec_parse_u16(seq!['+'] + nat_decimal(n as nat)) == Some(n),
        spec_parse_u16(Seq::new(zeros, |i: int| '0') + nat_decimal(n as nat)) == Some(n),
{
    let text = nat_decimal(n as nat);
    lemma_decimal_text_reads_back(n as nat);
    assert(is_digit(text[0]));
    assert(unsigned_digits(text) == text);
    let plus = seq!['+'] + text;
    assert(plus.drop_first() =~= text);
    assert(unsigned_digits(plus) == text);
    let padded = Seq::new(zeros, |i: int| '0') + text;
    lemma_leading_zeros(zeros, text);
    if zeros > 0 {
        assert(padded[0] == '0');
    } else {
        assert(padded =~= text);
    }
    assert(unsigned_digits(padded) == padded);
    assert forall|i: int| 0 <= i < padded.len() implies is_digit(#[trigger] padded[i]) by {
        if i >= zeros {
            assert(padded[i] == text[i - zeros]);
        }
    }
}

proof fn lemma_leading_zeros(zeros: nat, text: Seq<char>)
    ensures
        decimal_value(Seq::new(zeros, |i: int| '0') + text) == decimal_value(text) + decimal_value(Seq::new(zeros, |i: int| '0')) * pow10(text.len()),
        decimal_value(Seq::new(zeros, |i: int| '0')) == 0,
    decreases text.len(), zeros,
{
    lemma_zeros_value(zeros);
    if text.len() == 0 {
        assert(Seq::new(zeros, |i: int| '0') + text =~= Seq::new(zeros, |i: int| '0'));
    } else {
        lemma_leading_zeros(zeros, text.drop_last());
        assert((Seq::new(zeros, |i: int| '0') + text).drop_last() =~= Seq::new(zeros, |i: int| '0') + text.drop_last());
    }
}

proof fn lemma_zeros_value(zeros: nat)
    ensures
        decimal_value(Seq::new(zeros, |i: int| '0')) == 0,
    decreases zeros,
{
    if zeros > 0 {
        lemma_zeros_value((zeros - 1) as nat);
        assert(Seq::new(zeros, |i: int| '0').drop_last() =~= Seq::new((zeros - 1) as nat, |i: int| '0'));
    }
}

/// Ten to the power `k`.
pub open spec fn pow10(k: nat) -> nat
    decreases k,
{
    if k == 0 {
        1
    } else {
        10 * pow10((k - 1) as nat)
    }
}

} // verus!
