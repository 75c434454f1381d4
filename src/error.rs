//! Errors of the driver.
use vstd::prelude::*;
use vstd::string::StrSliceExecFns;
use vstd::string::StringExecFns;

verus! {

#[verifier::external_type_specification]
#[verifier::external_body]
pub struct ExIoError(std::io::Error);

/// Every way in which opening the converter or reading from it can fail.
#[derive(Debug)]
pub enum Mcp3008Error {
    /// The bus failed to open, to take its configuration, or to carry a
    /// transaction; the operating system's error is kept.
    SpidevError(std::io::Error),
    /// A read named a channel past the last one; the value asked for is kept.
    AdcOutOfRangeError(u8),
    /// The platform has no spidev bus.
    UnsupportedOSError,
}

/// Relies on the deprecated `std::error::Error::description` of `io::Error`:
/// a short text for the error.
#[verifier::external_body]
#[allow(deprecated)]
fn io_error_description(e: &std::io::Error) -> &str {
    std::error::Error::description(e)
}

/// The character of a decimal digit.
pub open spec fn digit_char(d: nat) -> char {
    if d == 0 {
        '0'
    } else if d == 1 {
        '1'
    } else if d == 2 {
        '2'
    } else if d == 3 {
        '3'
    } else if d == 4 {
        '4'
    } else if d == 5 {
        '5'
    } else if d == 6 {
        '6'
    } else if d == 7 {
        '7'
    } else if d == 8 {
        '8'
    } else {
        '9'
    }
}

/// The decimal digits of `n`, most significant first, without leading zeros.
pub open spec fn decimal_text(n: nat) -> Seq<char>
    decreases n,
{
    if n < 10 {
        seq![digit_char(n)]
    } else {
        decimal_text(n / 10).push(digit_char(n % 10))
    }
}

/// The message of an out-of-range channel error.
pub open spec fn out_of_range_text(channel: u8) -> Seq<char> {
    "invalid adc number ("@ + decimal_text(channel as nat) + ")"@
}

/// Appends the decimal digit `d` to `s`.
fn push_digit(s: &mut String, d: u8)
    requires
        d < 10,
    ensures
        final(s)@ == old(s)@ + seq![digit_char(d as nat)],
{
    let digits = "0123456789";
    proof {
        reveal_strlit("0123456789");
    }
    let one = digits.substring_char(d as usize, d as usize + 1);
    assert(one@ =~= seq![digit_char(d as nat)]);
    s.append(one);
}

/// Appends the decimal text of `n` to `s`.
fn push_decimal(s: &mut String, n: u8)
    ensures
        final(s)@ == old(s)@ + decimal_text(n as nat),
{
    let ghost start = s@;
    reveal_with_fuel(decimal_text, 3);
    if n >= 100 {
        push_digit(s, n / 100);
    }
    if n >= 10 {
        push_digit(s, (n / 10) % 10);
    }
    push_digit(s, n % 10);
    proof {
        if n >= 100 {
            assert((n as nat / 10) / 10 == n as nat / 100);
            assert(decimal_text(n as nat) =~= seq![
                digit_char(n as nat / 100),
                digit_char((n as nat / 10) % 10),
                digit_char(n as nat % 10),
            ]);
        } else if n >= 10 {
            assert(decimal_text(n as nat) =~= seq![
                digit_char(n as nat / 10),
                digit_char(n as nat % 10),
            ]);
        }
        assert(s@ =~= start + decimal_text(n as nat));
    }
}

impl Mcp3008Error {
    /// A human-readable message: the operating system's own message for a bus
    /// error, and fixed texts for the others.
    pub fn to_string(&self) -> (r: String)
        ensures
            *self matches Mcp3008Error::SpidevError(e)
                ==> vstd::string::to_string_from_display_ensures::<std::io::Error>(&e, r),
            *self matches Mcp3008Error::AdcOutOfRangeError(c) ==> r@ == out_of_range_text(c),
            self is UnsupportedOSError ==> r@ == "unsupported os"@,
    {
        match self {
            Mcp3008Error::SpidevError(err) => err.to_string(),
            Mcp3008Error::AdcOutOfRangeError(adc_number) => {
                let mut s = "invalid adc number (".to_owned();
                push_decimal(&mut s, *adc_number);
                s.append(")");
                s
            },
            Mcp3008Error::UnsupportedOSError => "unsupported os".to_owned(),
        }
    }

    /// A short description of the kind of failure.
    pub fn description(&self) -> (r: &str)
        ensures
            self is AdcOutOfRangeError ==> r@ == "invalid adc number"@,
            self is UnsupportedOSError ==> r@ == "unsupported os"@,
    {
        match self {
            Mcp3008Error::SpidevError(err) => io_error_description(err),
            Mcp3008Error::AdcOutOfRangeError(_) => "invalid adc number",
            Mcp3008Error::UnsupportedOSError => "unsupported os",
        }
    }

    /// The underlying bus error, where there is one.
    pub fn cause(&self) -> (r: Option<&std::io::Error>)
        ensures
            *self matches Mcp3008Error::SpidevError(e) ==> r == Some(&e),
            !(self is SpidevError) ==> r is None,
    {
        match self {
            Mcp3008Error::SpidevError(err) => Some(err),
            Mcp3008Error::AdcOutOfRangeError(_) => None,
            Mcp3008Error::UnsupportedOSError => None,
        }
    }
}

impl From<std::io::Error> for Mcp3008Error {
    fn from(err: std::io::Error) -> (r: Mcp3008Error)
        ensures
            r == Mcp3008Error::SpidevError(err),
    {
        Mcp3008Error::SpidevError(err)
    }
}

impl vstd::std_specs::convert::FromSpecImpl<std::io::Error> for Mcp3008Error {
    open spec fn obeys_from_spec() -> bool {
        true
    }

    open spec fn from_spec(err: std::io::Error) -> Mcp3008Error {
        Mcp3008Error::SpidevError(err)
    }
}

} // verus!
