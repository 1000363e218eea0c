use vstd::prelude::*;

use raw_window_handle::HandleError;

verus! {

/// The error a handle lookup of `raw-window-handle` reports.
#[verifier::external_type_specification]
#[verifier::external_body]
pub struct ExHandleError(raw_window_handle::HandleError);

/// Why applying or clearing an effect failed.
#[derive(Debug)]
pub enum Error {
    /// The window does not belong to a supported windowing system.
    UnsupportedPlatform(&'static str),
    /// The running Windows version lacks the requested effect.
    UnsupportedPlatformVersion(&'static str),
    /// A Windows API call reported failure.
    WindowsApi { function: &'static str, code: i32 },
    /// A Windows API function could not be resolved at run time.
    MissingFunction(&'static str),
    /// The window handle could not be obtained.
    NoWindowHandle(HandleError),
}


/// The text that `raw-window-handle`'s `Display` writes for a `HandleError`.
pub uninterp spec fn handle_error_text_of(e: HandleError) -> Seq<char>;

/// The text of a `HandleError`, as its `Display` impl in `raw-window-handle`
/// writes it: one fixed text per kind of error, a function of the error
/// alone, named `handle_error_text_of`.
#[verifier::external_body]
fn handle_error_text(e: &HandleError) -> (r: String)
    ensures
        r@ == handle_error_text_of(*e),
{
    format!("{}", e)
}

/// The lowercase hexadecimal digit for `d < 16`.
pub open spec fn hex_digit(d: nat) -> char {
    if d < 10 {
        (d + 48) as char
    } else {
        (d + 87) as char
    }
}

/// The lowercase hexadecimal digits of `n`, without leading zeros.
pub open spec fn hex_lower(n: nat) -> Seq<char>
    decreases n,
{
    if n < 16 {
        seq![hex_digit(n)]
    } else {
        hex_lower(n / 16).push(hex_digit(n % 16))
    }
}

fn hex_digit_str(d: u32) -> (r: &'static str)
    requires
        d < 16,
    ensures
        r@ == seq![hex_digit(d as nat)],
{
    let digits = "0123456789abcdef";
    proof {
        reveal_strlit("0123456789abcdef");
    }
    assert(digits.is_ascii());
    let r = digits.substring_ascii(d as usize, d as usize + 1);
    assert(r@ =~= seq![hex_digit(d as nat)]);
    r
}

/// Appends the lowercase hexadecimal digits of `n`.
fn push_hex(s: &mut String, n: u32)
    ensures
        final(s)@ == old(s)@ + hex_lower(n as nat),
    decreases n,
{
    if n >= 16 {
        push_hex(s, n / 16);
    }
    s.append(hex_digit_str(n % 16));
    assert(old(s)@ + hex_lower(n as nat) =~= s@);
}

impl Error {
    /// The text of the error.
    pub open spec fn spec_message(self) -> Seq<char> {
        match self {
            Error::UnsupportedPlatform(e) => e@,
            Error::UnsupportedPlatformVersion(e) => e@,
            Error::WindowsApi { function, code } => function@ + " failed with code "@ + "0x"@
                + hex_lower((code as u32) as nat),
            Error::MissingFunction(function) => function@ + " is not available"@,
            Error::NoWindowHandle(e) => handle_error_text_of(e),
        }
    }

    /// The text of the error: the message itself, "FUNCTION failed with code
    /// 0xCODE" (the code's 32 bits in lowercase hexadecimal), "FUNCTION is not
    /// available", or the handle error's own text.
    pub fn message(&self) -> (m: String)
        ensures
            m@ == self.spec_message(),
    {
        match self {
            Error::UnsupportedPlatform(e) => String::from_str(e),
            Error::UnsupportedPlatformVersion(e) => String::from_str(e),
            Error::WindowsApi { function, code } => {
                let mut m = String::from_str(function);
                m.append(" failed with code ");
                m.append("0x");
                push_hex(&mut m, *code as u32);
                m
            },
            Error::MissingFunction(function) => {
                let mut m = String::from_str(function);
                m.append(" is not available");
                m
            },
            Error::NoWindowHandle(e) => handle_error_text(e),
        }
    }
}

impl From<HandleError> for Error {
    fn from(err: HandleError) -> (r: Self) {
        Error::NoWindowHandle(err)
    }
}

impl vstd::std_specs::convert::FromSpecImpl<HandleError> for Error {
    open spec fn obeys_from_spec() -> bool {
        true
    }

    open spec fn from_spec(v: HandleError) -> Self {
        Error::NoWindowHandle(v)
    }
}

} // verus!
