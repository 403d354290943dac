//! Building text one character at a time: decimal numerals, and a counter that
//! is kept as its numeral and so never runs out of numbers.

use vstd::prelude::*;

verus! {

/// `String::push` of std appends the character `c` to the end of `s` and
/// leaves the characters before it as they were.
pub assume_specification[ String::push ](s: &mut String, c: char)
    ensures
        final(s)@ == old(s)@.push(c),
;

/// The character of the decimal digit `d`.
pub open spec fn digit_char(d: int) -> char {
    ((48 + d) as u8) as char
}

/// The decimal numeral of `n`, without sign or leading zeros.
pub open spec fn decimal(n: nat) -> Seq<char>
    decreases n,
{
    if n < 10 {
        seq![digit_char(n as int)]
    } else {
        decimal(n / 10).push(digit_char(n as int % 10))
    }
}

/// Appends the decimal numeral of `n` to `s`.
pub fn push_decimal(s: &mut String, n: u64)
    ensures
        final(s)@ == old(s)@ + decimal(n as nat),
    decreases n,
{
    if n >= 10 {
        push_decimal(s, n / 10);
    }
    let d: u8 = (n % 10) as u8;
    s.push((48 + d) as char);
    assert(s@ =~= old(s)@ + decimal(n as nat));
}


/// The number that the decimal digits `s` spell, the first digit the most
/// significant.
pub open spec fn digits_value(s: Seq<u8>) -> nat
    decreases s.len(),
{
    if s.len() == 0 {
        0
    } else {
        digits_value(s.drop_last()) * 10 + s.last() as nat
    }
}

/// Whether every element of `s` is a decimal digit.
pub open spec fn all_digits(s: Seq<u8>) -> bool {
    forall|i: int| 0 <= i < s.len() ==> #[trigger] s[i] < 10
}

/// Whether `s` is the numeral of a number: at least one digit, and no zero in
/// front of another digit.
pub open spec fn is_numeral(s: Seq<u8>) -> bool {
    &&& s.len() >= 1
    &&& all_digits(s)
    &&& s.len() > 1 ==> s[0] != 0
}

/// The digits of the number after the one that `s` spells.
pub open spec fn next_digits(s: Seq<u8>) -> Seq<u8>
    decreases s.len(),
{
    if s.len() == 0 {
        seq![1u8]
    } else if s.last() < 9 {
        s.drop_last().push((s.last() + 1) as u8)
    } else {
        next_digits(s.drop_last()).push(0u8)
    }
}

/// The characters of the digits `s`.
pub open spec fn digit_chars(s: Seq<u8>) -> Seq<char> {
    Seq::new(s.len(), |i: int| digit_char(s[i] as int))
}

/// Digits with one more digit behind them spell ten times as much, and that
/// digit more.
proof fn lemma_value_push(s: Seq<u8>, d: u8)
    ensures
        digits_value(s.push(d)) == digits_value(s) * 10 + d as nat,
{
    assert(s.push(d).drop_last() =~= s);
}

/// One digit spells itself.
proof fn lemma_value_single(d: u8)
    ensures
        digits_value(seq![d]) == d as nat,
{
    lemma_value_push(Seq::<u8>::empty(), d);
    assert(seq![d] =~= Seq::<u8>::empty().push(d));
}

/// The next digits spell the next number.
proof fn lemma_next_value(s: Seq<u8>)
    requires
        all_digits(s),
    ensures
        digits_value(next_digits(s)) == digits_value(s) + 1,
    decreases s.len(),
{
    if s.len() == 0 {
        lemma_value_single(1u8);
    } else if s.last() < 9 {
        let d = (s.last() + 1) as u8;
        lemma_value_push(s.drop_last(), d);
        assert(next_digits(s) == s.drop_last().push(d));
        assert(digits_value(s) == digits_value(s.drop_last()) * 10 + s.last() as nat);
    } else {
        lemma_next_value(s.drop_last());
        lemma_value_push(next_digits(s.drop_last()), 0u8);
        assert(next_digits(s) == next_digits(s.drop_last()).push(0u8));
        assert(digits_value(s) == digits_value(s.drop_last()) * 10 + s.last() as nat);
    }
}

/// The next digits are digits, at least as many as before, and begin with no
/// zero where the digits before began with none.
proof fn lemma_next_shape(s: Seq<u8>)
    requires
        all_digits(s),
    ensures
        all_digits(next_digits(s)),
        next_digits(s).len() >= 1,
        next_digits(s).len() >= s.len(),
        s.len() == 0 || s[0] != 0 ==> next_digits(s)[0] != 0,
    decreases s.len(),
{
    if s.len() == 0 {
    } else if s.last() < 9 {
    } else {
        lemma_next_shape(s.drop_last());
    }
}

/// The number after that of a numeral has the next digits as its numeral.
proof fn lemma_next_numeral(s: Seq<u8>)
    requires
        is_numeral(s),
    ensures
        is_numeral(next_digits(s)),
{
    lemma_next_shape(s);
    if s.len() == 1 && s[0] == 0 {
        assert(next_digits(s) =~= seq![1u8]);
    }
}

/// Digits that begin with no zero spell no less than one.
proof fn lemma_value_positive(s: Seq<u8>)
    requires
        s.len() >= 1,
        s[0] != 0,
    ensures
        digits_value(s) >= 1,
    decreases s.len(),
{
    if s.len() > 1 {
        lemma_value_positive(s.drop_last());
    }
}

/// The decimal numeral of the number that a numeral spells is that numeral.
proof fn lemma_numeral_text(s: Seq<u8>)
    requires
        is_numeral(s),
    ensures
        decimal(digits_value(s)) == digit_chars(s),
    decreases s.len(),
{
    if s.len() == 1 {
        lemma_value_single(s[0]);
        assert(s =~= seq![s[0]]);
        assert(decimal(digits_value(s)) =~= digit_chars(s));
    } else {
        let front = s.drop_last();
        lemma_numeral_text(front);
        lemma_value_positive(front);
        let n = digits_value(s);
        assert(n == digits_value(front) * 10 + s.last() as nat);
        assert(n / 10 == digits_value(front));
        assert(n % 10 == s.last() as nat);
        assert(decimal(n) == decimal(n / 10).push(digit_char(n as int % 10)));
        assert(digit_chars(front).push(digit_char(s.last() as int)) =~= digit_chars(s));
    }
}

/// A counter without an upper bound: a natural number, kept as its decimal
/// numeral.
#[derive(Debug, PartialEq, Eq)]
pub struct Counter {
    digits: Vec<u8>,
}

impl View for Counter {
    type V = nat;

    closed spec fn view(&self) -> nat {
        digits_value(self.digits@)
    }
}

/// The first `n` of `digits`.
fn front_of(digits: &Vec<u8>, n: usize) -> (r: Vec<u8>)
    requires
        n <= digits.len(),
    ensures
        r@ == digits@.take(n as int),
{
    let mut r: Vec<u8> = Vec::new();
    let mut i: usize = 0;
    while i < n
        invariant
            i <= n,
            n <= digits.len(),
            r@ == digits@.take(i as int),
        decreases n - i,
    {
        r.push(digits[i]);
        assert(r@ =~= digits@.take(i as int + 1));
        i = i + 1;
    }
    r
}

/// The digits after those of the first `n` of `digits`.
fn next_of(digits: &Vec<u8>, n: usize) -> (r: Vec<u8>)
    requires
        n <= digits.len(),
        all_digits(digits@),
    ensures
        r@ == next_digits(digits@.take(n as int)),
    decreases n,
{
    let ghost taken = digits@.take(n as int);
    if n == 0 {
        let mut r: Vec<u8> = Vec::new();
        r.push(1);
        assert(r@ =~= next_digits(taken));
        r
    } else {
        assert(taken.drop_last() =~= digits@.take(n as int - 1));
        assert(taken.last() == digits@[n as int - 1]);
        if digits[n - 1] < 9 {
            let mut r = front_of(digits, n - 1);
            r.push(digits[n - 1] + 1);
            r
        } else {
            let mut r = next_of(digits, n - 1);
            r.push(0);
            r
        }
    }
}

impl Counter {
    #[verifier::type_invariant]
    spec fn well_formed(self) -> bool {
        is_numeral(self.digits@)
    }

    /// The counter at zero.
    pub fn new() -> (r: Self)
        ensures
            r@ == 0,
    {
        let mut digits: Vec<u8> = Vec::new();
        digits.push(0);
        proof {
            lemma_value_single(0u8);
            assert(digits@ =~= seq![0u8]);
        }
        Counter { digits }
    }

    /// The counter one further.
    pub fn next(&self) -> (r: Self)
        ensures
            r@ == self@ + 1,
    {
        proof {
            use_type_invariant(self);
            lemma_next_value(self.digits@);
            lemma_next_numeral(self.digits@);
            assert(self.digits@.take(self.digits@.len() as int) =~= self.digits@);
        }
        let digits = next_of(&self.digits, self.digits.len());
        Counter { digits }
    }

    /// Appends the decimal numeral of the counter to `s`.
    pub fn push_to(&self, s: &mut String)
        ensures
            final(s)@ == old(s)@ + decimal(self@),
    {
        proof {
            use_type_invariant(self);
            lemma_numeral_text(self.digits@);
        }
        let mut i: usize = 0;
        while i < self.digits.len()
            invariant
                i <= self.digits.len(),
                all_digits(self.digits@),
                s@ == old(s)@ + digit_chars(self.digits@.take(i as int)),
            decreases self.digits.len() - i,
        {
            let d: u8 = self.digits[i];
            s.push((48 + d) as char);
            assert(s@ =~= old(s)@ + digit_chars(self.digits@.take(i as int + 1)));
            i = i + 1;
        }
        assert(self.digits@.take(i as int) =~= self.digits@);
    }

    /// The decimal numeral of the counter.
    pub fn to_text(&self) -> (r: String)
        ensures
            r@ == decimal(self@),
    {
        let mut s = String::new();
        self.push_to(&mut s);
        assert(s@ =~= decimal(self@));
        s
    }
}

} // verus!
