use vstd::prelude::*;
use vstd::string::StringExecFns;
use crate::scalar::{
    deterministic, from_i32, less_than, minus, plus, rounded, Scalar, spec_from_i32, spec_less_than,
    spec_minus, spec_plus, spec_rounded, spec_times, spec_truncated, spec_zero, times, truncated,
    zero,
};
use crate::util::{a_equal_b, spec_a_equal_b};

verus! {

/// A colour as three channels.
///
/// Channels are not confined to a range: sums and differences of colours
/// may leave the range from zero to one, and only the image encoding
/// brings them back.
#[derive(Clone, Copy, Debug)]
pub struct Colour<T> {
    pub red: T,
    pub green: T,
    pub blue: T,
}

pub fn colour<T>(red: T, green: T, blue: T) -> (c: Colour<T>)
    ensures
        c == (Colour { red, green, blue }),
{
    Colour { red, green, blue }
}

/// The colour with whole channels.
pub open spec fn spec_colour_i<T: Scalar>(red: i32, green: i32, blue: i32) -> Colour<T> {
    Colour {
        red: spec_from_i32::<T>(red),
        green: spec_from_i32::<T>(green),
        blue: spec_from_i32::<T>(blue),
    }
}

pub fn black<T: Scalar>() -> (c: Colour<T>)
    ensures
        deterministic::<T>() ==> c == spec_colour_i::<T>(0, 0, 0),
{
    colour(from_i32(0), from_i32(0), from_i32(0))
}

pub fn white<T: Scalar>() -> (c: Colour<T>)
    ensures
        deterministic::<T>() ==> c == spec_colour_i::<T>(1, 1, 1),
{
    colour(from_i32(1), from_i32(1), from_i32(1))
}

pub fn red<T: Scalar>() -> (c: Colour<T>)
    ensures
        deterministic::<T>() ==> c == spec_colour_i::<T>(1, 0, 0),
{
    colour(from_i32(1), from_i32(0), from_i32(0))
}

pub fn green<T: Scalar>() -> (c: Colour<T>)
    ensures
        deterministic::<T>() ==> c == spec_colour_i::<T>(0, 1, 0),
{
    colour(from_i32(0), from_i32(1), from_i32(0))
}

/// The character that writes the decimal digit `d`.
pub open spec fn digit_char(d: int) -> char {
    if d == 0 {
        '0'
    } else if d == 1 {
        '1'
    } else if d == 2 {
        '2'
    } else if d == 3 {
        '3'
    } else if d == 4 {
        '4'
    } else if d == 5 {
        '5'
    } else if d == 6 {
        '6'
    } else if d == 7 {
        '7'
    } else if d == 8 {
        '8'
    } else {
        '9'
    }
}

/// The decimal numeral of `n`, most significant digit first, without
/// leading zeros.
pub open spec fn decimal(n: nat) -> Seq<char>
    decreases n,
{
    if n < 10 {
        seq![digit_char(n as int)]
    } else {
        decimal(n / 10).push(digit_char((n % 10) as int))
    }
}

/// A numeral has at least one digit.
pub proof fn lemma_decimal_nonempty(n: nat)
    ensures
        decimal(n).len() >= 1,
    decreases n,
{
    if n >= 10 {
        lemma_decimal_nonempty(n / 10);
    }
}

/// A numeral below one thousand has at most three digits.
pub proof fn lemma_decimal_short(n: nat)
    requires
        n < 1000,
    ensures
        1 <= decimal(n).len() <= 3,
{
    reveal_with_fuel(decimal, 4);
}

/// A numeral holds digits only, so neither a space nor a line break.
pub proof fn lemma_decimal_digits(n: nat, i: int)
    requires
        0 <= i < decimal(n).len(),
    ensures
        decimal(n)[i] != ' ',
        decimal(n)[i] != '\n',
    decreases n,
{
    if n >= 10 {
        lemma_decimal_nonempty(n / 10);
        if i < decimal(n / 10).len() {
            lemma_decimal_digits(n / 10, i);
        }
    }
}

fn digit_str(d: u32) -> (s: &'static str)
    requires
        d < 10,
    ensures
        s@ == seq![digit_char(d as int)],
{
    proof {
        reveal_strlit("0");
        reveal_strlit("1");
        reveal_strlit("2");
        reveal_strlit("3");
        reveal_strlit("4");
        reveal_strlit("5");
        reveal_strlit("6");
        reveal_strlit("7");
        reveal_strlit("8");
        reveal_strlit("9");
    }
    let s = if d == 0 {
        "0"
    } else if d == 1 {
        "1"
    } else if d == 2 {
        "2"
    } else if d == 3 {
        "3"
    } else if d == 4 {
        "4"
    } else if d == 5 {
        "5"
    } else if d == 6 {
        "6"
    } else if d == 7 {
        "7"
    } else if d == 8 {
        "8"
    } else {
        "9"
    };
    assert(s@ =~= seq![digit_char(d as int)]);
    s
}

/// Appends the decimal numeral of `n` to `out`.
pub fn push_decimal(out: &mut String, n: u32)
    ensures
        final(out)@ == old(out)@ + decimal(n as nat),
    decreases n,
{
    if n >= 10 {
        push_decimal(out, n / 10);
    }
    out.append(digit_str(n % 10));
    assert(out@ =~= old(out)@ + decimal(n as nat));
}

/// A whole number held within `0 ..= 255`.
pub open spec fn spec_clamp_byte(value: int) -> nat {
    if value < 0 {
        0
    } else if value > 255 {
        255
    } else {
        value as nat
    }
}

/// The image sample of a channel: the channel times 255, rounded to the
/// nearest whole number, and held within `0 ..= 255`.
pub open spec fn spec_normalize_value<T: Scalar>(value: T) -> nat {
    let scaled = spec_rounded(spec_times(value, spec_from_i32::<T>(255)));
    let raised = if spec_less_than(scaled, spec_zero::<T>()) {
        spec_zero::<T>()
    } else {
        scaled
    };
    let held = if spec_less_than(spec_from_i32::<T>(255), raised) {
        spec_from_i32::<T>(255)
    } else {
        raised
    };
    spec_clamp_byte(spec_truncated(held) as int)
}

impl<T: Scalar> Colour<T> {
    /// Channel `i` of the colour: red, green, and for any other index blue.
    pub open spec fn channel(&self, i: int) -> T {
        if i == 0 {
            self.red
        } else if i == 1 {
            self.green
        } else {
            self.blue
        }
    }

    pub open spec fn spec_add(&self, rhs: Colour<T>) -> Colour<T> {
        Colour {
            red: spec_plus(self.red, rhs.red),
            green: spec_plus(self.green, rhs.green),
            blue: spec_plus(self.blue, rhs.blue),
        }
    }

    pub open spec fn spec_sub(&self, rhs: Colour<T>) -> Colour<T> {
        Colour {
            red: spec_minus(self.red, rhs.red),
            green: spec_minus(self.green, rhs.green),
            blue: spec_minus(self.blue, rhs.blue),
        }
    }

    /// Every channel times `rhs`.
    pub open spec fn spec_scale(&self, rhs: T) -> Colour<T> {
        Colour {
            red: spec_times(self.red, rhs),
            green: spec_times(self.green, rhs),
            blue: spec_times(self.blue, rhs),
        }
    }

    /// The colours blended: channel times channel.
    pub open spec fn spec_blend(&self, rhs: Colour<T>) -> Colour<T> {
        Colour {
            red: spec_times(self.red, rhs.red),
            green: spec_times(self.green, rhs.green),
            blue: spec_times(self.blue, rhs.blue),
        }
    }

    /// Whether the three channels count as equal, each within the
    /// tolerance.
    pub open spec fn spec_eq(&self, other: Colour<T>) -> bool {
        &&& spec_a_equal_b(self.red, other.red)
        &&& spec_a_equal_b(self.blue, other.blue)
        &&& spec_a_equal_b(self.green, other.green)
    }

    /// The three image samples as numerals, each followed by one space.
    pub open spec fn spec_to_string(&self) -> Seq<char> {
        decimal(spec_normalize_value(self.red)) + seq![' '] + decimal(
            spec_normalize_value(self.green),
        ) + seq![' '] + decimal(spec_normalize_value(self.blue)) + seq![' ']
    }

    /// The image sample of a channel, between 0 and 255.
    pub fn normalize_value(value: T) -> (v: u32)
        ensures
            v <= 255,
            deterministic::<T>() ==> v == spec_normalize_value(value),
    {
        let scaled = rounded(times(value, from_i32(255)));
        let raised = if less_than(scaled, zero()) {
            zero()
        } else {
            scaled
        };
        let held = if less_than(from_i32(255), raised) {
            from_i32(255)
        } else {
            raised
        };
        let whole: i32 = truncated(held);
        if whole < 0 {
            0
        } else if whole > 255 {
            255
        } else {
            whole as u32
        }
    }

    pub fn to_string(&self) -> (s: String)
        ensures
            deterministic::<T>() ==> s@ == self.spec_to_string(),
    {
        proof {
            reveal_strlit(" ");
            reveal_strlit("");
        }
        let mut s = String::from_str("");
        push_decimal(&mut s, Self::normalize_value(self.red));
        s.append(" ");
        push_decimal(&mut s, Self::normalize_value(self.green));
        s.append(" ");
        push_decimal(&mut s, Self::normalize_value(self.blue));
        s.append(" ");
        proof {
            assert(" "@ =~= seq![' ']);
            if deterministic::<T>() {
                assert(s@ =~= self.spec_to_string());
            }
        }
        s
    }
}

impl<T: Scalar> core::ops::Add for Colour<T> {
    type Output = Self;

    fn add(self, rhs: Self) -> (r: Self) {
        Colour {
            red: plus(self.red, rhs.red),
            green: plus(self.green, rhs.green),
            blue: plus(self.blue, rhs.blue),
        }
    }
}

impl<T: Scalar> vstd::std_specs::ops::AddSpecImpl for Colour<T> {
    open spec fn obeys_add_spec() -> bool {
        deterministic::<T>()
    }

    open spec fn add_req(self, rhs: Self) -> bool {
        true
    }

    open spec fn add_spec(self, rhs: Self) -> Self {
        self.spec_add(rhs)
    }
}

impl<T: Scalar> core::ops::Sub for Colour<T> {
    type Output = Self;

    fn sub(self, rhs: Self) -> (r: Self) {
        Colour {
            red: minus(self.red, rhs.red),
            green: minus(self.green, rhs.green),
            blue: minus(self.blue, rhs.blue),
        }
    }
}

impl<T: Scalar> vstd::std_specs::ops::SubSpecImpl for Colour<T> {
    open spec fn obeys_sub_spec() -> bool {
        deterministic::<T>()
    }

    open spec fn sub_req(self, rhs: Self) -> bool {
        true
    }

    open spec fn sub_spec(self, rhs: Self) -> Self {
        self.spec_sub(rhs)
    }
}

impl<T: Scalar> core::ops::Mul<i32> for Colour<T> {
    type Output = Self;

    /// Every channel times a whole number.
    fn mul(self, rhs: i32) -> (r: Self) {
        let rhs: T = from_i32(rhs);
        Colour {
            red: times(self.red, rhs),
            green: times(self.green, rhs),
            blue: times(self.blue, rhs),
        }
    }
}

impl<T: Scalar> vstd::std_specs::ops::MulSpecImpl<i32> for Colour<T> {
    open spec fn obeys_mul_spec() -> bool {
        deterministic::<T>()
    }

    open spec fn mul_req(self, rhs: i32) -> bool {
        true
    }

    open spec fn mul_spec(self, rhs: i32) -> Self {
        self.spec_scale(spec_from_i32::<T>(rhs))
    }
}

impl<T: Scalar> core::ops::Mul<T> for Colour<T> {
    type Output = Self;

    /// Every channel times `rhs`.
    fn mul(self, rhs: T) -> (r: Self) {
        Colour {
            red: times(self.red, rhs),
            green: times(self.green, rhs),
            blue: times(self.blue, rhs),
        }
    }
}

impl<T: Scalar> vstd::std_specs::ops::MulSpecImpl<T> for Colour<T> {
    open spec fn obeys_mul_spec() -> bool {
        deterministic::<T>()
    }

    open spec fn mul_req(self, rhs: T) -> bool {
        true
    }

    open spec fn mul_spec(self, rhs: T) -> Self {
        self.spec_scale(rhs)
    }
}

impl<T: Scalar> core::ops::Mul<Colour<T>> for Colour<T> {
    type Output = Self;

    /// The colours blended: channel times channel.
    fn mul(self, rhs: Colour<T>) -> (r: Self) {
        Colour {
            red: times(self.red, rhs.red),
            green: times(self.green, rhs.green),
            blue: times(self.blue, rhs.blue),
        }
    }
}

impl<T: Scalar> vstd::std_specs::ops::MulSpecImpl<Colour<T>> for Colour<T> {
    open spec fn obeys_mul_spec() -> bool {
        deterministic::<T>()
    }

    open spec fn mul_req(self, rhs: Colour<T>) -> bool {
        true
    }

    open spec fn mul_spec(self, rhs: Colour<T>) -> Self {
        self.spec_blend(rhs)
    }
}

impl<T: Scalar> PartialEq for Colour<T> {
    /// Whether the two colours count as equal.
    fn eq(&self, other: &Self) -> (same: bool) {
        a_equal_b(self.red, other.red) && a_equal_b(self.blue, other.blue) && a_equal_b(
            self.green,
            other.green,
        )
    }
}

impl<T: Scalar> vstd::std_specs::cmp::PartialEqSpecImpl for Colour<T> {
    open spec fn obeys_eq_spec() -> bool {
        deterministic::<T>()
    }

    open spec fn eq_spec(&self, other: &Self) -> bool {
        self.spec_eq(*other)
    }
}

} // verus!
