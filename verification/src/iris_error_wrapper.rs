use vstd::prelude::*;

verus! {

/// The distinct classes of failure a transport operation can surface.
///
/// The underlying transport multiplexes small integers as both
/// distinguished error signals and generic failures; callers that need
/// machine-readable dispatch match on this kind (or on the numeric
/// code), never on the message text.
#[derive(Clone, Copy, Debug, PartialEq, Eq, Structural)]
pub enum IrisErrorKind {
    /// A bind was rejected because of an invalid scope or instance-range
    /// combination (the transport's distinguished `-1` status).
    ScopeError,
    /// A send transferred fewer bytes than requested; the numeric code
    /// carries the count actually transferred, and the caller must treat
    /// the remainder as unsent.
    PartialTransfer,
    /// A zero-length receive: not necessarily an error, but a control or
    /// membership event on group sockets.
    NoData,
    /// Any other operation failure, with the platform's last-error code
    /// attached where available.
    GenericFailure,
    /// Service discovery did not find the target service in time.
    Timeout,
}

/// A uniform failure value: a human-readable description, a numeric
/// code, and the enumerated kind of the failure.
///
/// When no code is supplied explicitly, the platform's last-error value
/// is recorded instead.
#[derive(Debug)]
pub struct IrisErrorWrapper {
    desc: String,
    error_code: i32,
    kind: IrisErrorKind,
}

/// Relies on errno::errno: reads the calling thread's platform
/// last-error value. Which value comes back depends on what the thread
/// did last, so nothing is promised of it.
#[verifier::external_body]
fn last_error_code() -> i32 {
    errno::errno().0
}

/// The character of a single decimal digit.
pub open spec fn decimal_digit(d: int) -> char {
    if d == 0 {
        '0'
    } else if d == 1 {
        '1'
    } else if d == 2 {
        '2'
    } else if d == 3 {
        '3'
    } else if d == 4 {
        '4'
    } else if d == 5 {
        '5'
    } else if d == 6 {
        '6'
    } else if d == 7 {
        '7'
    } else if d == 8 {
        '8'
    } else {
        '9'
    }
}

/// The decimal rendering of a non-negative number, most significant
/// digit first.
pub open spec fn spec_decimal_nat(n: int) -> Seq<char>
    decreases n,
{
    if n < 10 {
        seq![decimal_digit(n)]
    } else {
        spec_decimal_nat(n / 10).push(decimal_digit(n % 10))
    }
}

/// The decimal rendering of a number, a leading minus sign for a
/// negative one.
pub open spec fn spec_decimal(n: int) -> Seq<char> {
    if n < 0 {
        seq!['-'] + spec_decimal_nat(-n)
    } else {
        spec_decimal_nat(n)
    }
}

/// The description every constructor stores: the caller's text, then
/// `": "`, then the decimal rendering of the numeric code.
pub open spec fn error_message(base: Seq<char>, code: int) -> Seq<char> {
    base + ": "@ + spec_decimal(code)
}

fn decimal_digit_str(d: u32) -> (s: &'static str)
    requires
        d < 10,
    ensures
        s@ == seq![decimal_digit(d as int)],
{
    proof {
        reveal_strlit("0");
        reveal_strlit("1");
        reveal_strlit("2");
        reveal_strlit("3");
        reveal_strlit("4");
        reveal_strlit("5");
        reveal_strlit("6");
        reveal_strlit("7");
        reveal_strlit("8");
        reveal_strlit("9");
    }
    let s = match d {
        0 => "0",
        1 => "1",
        2 => "2",
        3 => "3",
        4 => "4",
        5 => "5",
        6 => "6",
        7 => "7",
        8 => "8",
        _ => "9",
    };
    proof {
        assert(s@ =~= seq![decimal_digit(d as int)]);
    }
    s
}

fn decimal_string_nat(n: u32) -> (s: String)
    ensures
        s@ == spec_decimal_nat(n as int),
    decreases n,
{
    if n < 10 {
        String::from_str(decimal_digit_str(n))
    } else {
        let mut s = decimal_string_nat(n / 10);
        s.append(decimal_digit_str(n % 10));
        proof {
            assert(s@ =~= spec_decimal_nat(n as int));
        }
        s
    }
}

/// Renders a numeric code in decimal, exactly as it appears at the tail
/// of an error description.
pub fn decimal_string(n: i32) -> (s: String)
    ensures
        s@ == spec_decimal(n as int),
{
    if n >= 0 {
        decimal_string_nat(n as u32)
    } else {
        let mag: u32 = (-(n as i64)) as u32;
        assert(mag as int == -(n as int));
        let mut s = String::from_str("-");
        proof {
            reveal_strlit("-");
            assert(s@ =~= seq!['-']);
        }
        let tail = decimal_string_nat(mag);
        s.append(tail.as_str());
        proof {
            assert(s@ =~= spec_decimal(n as int));
        }
        s
    }
}

impl IrisErrorWrapper {
    /// The description, as a sequence of characters.
    pub closed spec fn spec_desc(&self) -> Seq<char> {
        self.desc@
    }

    /// The numeric error code.
    pub closed spec fn spec_code(&self) -> i32 {
        self.error_code
    }

    /// The enumerated kind of the failure.
    pub closed spec fn spec_kind(&self) -> IrisErrorKind {
        self.kind
    }

    /// A generic failure carrying the platform's last-error code, the
    /// code appended in decimal to the description.
    pub fn new(desc: &str) -> (r: Self)
        ensures
            r.spec_desc() == error_message(desc@, r.spec_code() as int),
            r.spec_kind() == IrisErrorKind::GenericFailure,
    {
        let e_code = last_error_code();
        Self::new_with_code(desc, e_code)
    }

    /// A generic failure with an explicitly supplied code, the code
    /// appended in decimal to the description.
    pub fn new_with_code(desc: &str, e_code: i32) -> (r: Self)
        ensures
            r.spec_desc() == error_message(desc@, e_code as int),
            r.spec_code() == e_code,
            r.spec_kind() == IrisErrorKind::GenericFailure,
    {
        Self::with_kind_and_code(desc, e_code, IrisErrorKind::GenericFailure)
    }

    /// A failure of the given kind carrying the platform's last-error
    /// code, the code appended in decimal to the description.
    pub fn with_kind(desc: &str, kind: IrisErrorKind) -> (r: Self)
        ensures
            r.spec_desc() == error_message(desc@, r.spec_code() as int),
            r.spec_kind() == kind,
    {
        let e_code = last_error_code();
        Self::with_kind_and_code(desc, e_code, kind)
    }

    /// A failure of the given kind with an explicitly supplied code, the
    /// code appended in decimal to the description.
    pub fn with_kind_and_code(desc: &str, e_code: i32, kind: IrisErrorKind) -> (r: Self)
        ensures
            r.spec_desc() == error_message(desc@, e_code as int),
            r.spec_code() == e_code,
            r.spec_kind() == kind,
    {
        let mut full = desc.to_owned();
        full.append(": ");
        let rendered = decimal_string(e_code);
        full.append(rendered.as_str());
        proof {
            assert(full@ =~= error_message(desc@, e_code as int));
        }
        IrisErrorWrapper { desc: full, error_code: e_code, kind }
    }

    pub fn error_code(&self) -> (c: i32)
        ensures
            c == self.spec_code(),
    {
        self.error_code
    }

    pub fn desc(&self) -> (d: &str)
        ensures
            d@ == self.spec_desc(),
    {
        self.desc.as_str()
    }

    pub fn kind(&self) -> (k: IrisErrorKind)
        ensures
            k == self.spec_kind(),
    {
        self.kind
    }
}

} // verus!
