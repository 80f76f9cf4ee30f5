//! The errors of a connection.
use quiche::Error as TransportError;
use vstd::prelude::*;
use vstd::std_specs::convert::{FromSpec, FromSpecImpl};
use vstd::string::StringExecFns;

verus! {

/// `std::io::Error`.
#[verifier::external_type_specification]
#[verifier::external_body]
pub struct ExIoError(std::io::Error);

/// `std::io::ErrorKind`.
#[verifier::external_type_specification]
#[verifier::external_body]
pub struct ExIoErrorKind(std::io::ErrorKind);

/// What can go wrong.
#[derive(Debug)]
pub enum Error {
    /// There is an open stream with this ID.
    IdAlreadyTaken(u64),
    /// The socket failed.
    IoError(std::io::Error),
    /// The protocol failed.
    BackendError(TransportError),
}

/// The conversion of `std::io::ErrorKind` to `std::io::Error`, by `From`.
#[verifier::external_body]
fn io_error_of_kind(kind: std::io::ErrorKind) -> (r: std::io::Error)
    ensures
        r == <std::io::Error as FromSpec<std::io::ErrorKind>>::from_spec(kind),
{
    std::io::Error::from(kind)
}

/// What `std::io::Error::new` makes of the kind `Other` and a protocol error.
pub uninterp spec fn other_io_error(err: TransportError) -> std::io::Error;

/// `std::io::Error::new` with the kind `Other` and a protocol error inside: the error that
/// [`other_io_error`] names.
#[verifier::external_body]
pub(crate) fn to_io_error(err: TransportError) -> (r: std::io::Error)
    ensures
        r == other_io_error(err),
{
    std::io::Error::new(std::io::ErrorKind::Other, err)
}

/// What `Display` of `quiche::Error` writes.
pub uninterp spec fn transport_error_text(err: TransportError) -> Seq<char>;

/// `Display` of `quiche::Error`: the text that [`transport_error_text`] names.
#[verifier::external_body]
fn show_transport_error(err: &TransportError) -> (text: String)
    ensures
        text@ == transport_error_text(*err),
{
    format!("{}", err)
}

/// Whether `Display` of `std::io::Error` can write this text for an error.
pub uninterp spec fn can_read(err: std::io::Error, text: Seq<char>) -> bool;

/// `Display` of `std::io::Error`: a text that [`can_read`] names. Nothing else is claimed of it: it
/// depends on the system.
#[verifier::external_body]
fn show_io_error(err: &std::io::Error) -> (text: String)
    ensures
        can_read(*err, text@),
{
    format!("{}", err)
}

/// A decimal digit.
pub open spec fn digit(d: nat) -> char {
    ('0' as u8 + d) as char
}

/// A number in decimal notation.
pub open spec fn decimal(n: nat) -> Seq<char>
    decreases n,
{
    if n < 10 {
        seq![digit(n)]
    } else {
        decimal(n / 10).push(digit(n % 10))
    }
}

fn digit_text(d: u64) -> (text: &'static str)
    requires
        d < 10,
    ensures
        text@ == seq![digit(d as nat)],
{
    proof {
        reveal_strlit("0");
        reveal_strlit("1");
        reveal_strlit("2");
        reveal_strlit("3");
        reveal_strlit("4");
        reveal_strlit("5");
        reveal_strlit("6");
        reveal_strlit("7");
        reveal_strlit("8");
        reveal_strlit("9");
    }
    let text: &'static str = match d {
        0 => "0",
        1 => "1",
        2 => "2",
        3 => "3",
        4 => "4",
        5 => "5",
        6 => "6",
        7 => "7",
        8 => "8",
        _ => "9",
    };
    assert(text@ =~= seq![digit(d as nat)]);
    text
}

fn decimal_text(n: u64) -> (text: String)
    ensures
        text@ == decimal(n as nat),
    decreases n,
{
    if n < 10 {
        digit_text(n).to_owned()
    } else {
        let mut text = decimal_text(n / 10);
        text.append(digit_text(n % 10));
        assert(text@ =~= decimal((n / 10) as nat).push(digit((n % 10) as nat)));
        text
    }
}

/// Whether the text is one for the error.
pub open spec fn reads_as(err: Error, text: Seq<char>) -> bool {
    match err {
        Error::IdAlreadyTaken(id) => text == "Id: "@ + decimal(id as nat)
            + " is already taken by another open stream."@,
        Error::BackendError(inner) => text == transport_error_text(inner),
        Error::IoError(inner) => can_read(inner, text),
    }
}

/// The number that decimal digits denote.
pub open spec fn decimal_value(digits: Seq<char>) -> int
    decreases digits.len(),
{
    if digits.len() == 0 {
        0
    } else {
        decimal_value(digits.drop_last()) * 10 + (digits.last() as int - '0' as int)
    }
}

impl Error {
    /// The text of the error.
    pub fn to_string(&self) -> (text: String)
        ensures
            reads_as(*self, text@),
            match self {
                Error::IdAlreadyTaken(id) => text@ == "Id: "@ + decimal(*id as nat)
                    + " is already taken by another open stream."@,
                Error::BackendError(err) => text@ == transport_error_text(*err),
                Error::IoError(err) => can_read(*err, text@),
            },
    {
        match self {
            Error::IdAlreadyTaken(id) => {
                let mut text = "Id: ".to_owned();
                text.append(decimal_text(*id).as_str());
                text.append(" is already taken by another open stream.");
                text
            },
            Error::IoError(err) => show_io_error(err),
            Error::BackendError(err) => show_transport_error(err),
        }
    }
}

impl FromSpecImpl<std::io::Error> for Error {
    open spec fn obeys_from_spec() -> bool {
        true
    }

    open spec fn from_spec(value: std::io::Error) -> Error {
        Error::IoError(value)
    }
}

impl From<std::io::Error> for Error {
    fn from(value: std::io::Error) -> (r: Error) {
        Error::IoError(value)
    }
}

impl FromSpecImpl<std::io::ErrorKind> for Error {
    open spec fn obeys_from_spec() -> bool {
        true
    }

    open spec fn from_spec(value: std::io::ErrorKind) -> Error {
        Error::IoError(<std::io::Error as FromSpec<std::io::ErrorKind>>::from_spec(value))
    }
}

impl From<std::io::ErrorKind> for Error {
    fn from(value: std::io::ErrorKind) -> (r: Error) {
        Error::IoError(io_error_of_kind(value))
    }
}

impl FromSpecImpl<TransportError> for Error {
    open spec fn obeys_from_spec() -> bool {
        true
    }

    open spec fn from_spec(value: TransportError) -> Error {
        Error::BackendError(value)
    }
}

impl From<TransportError> for Error {
    fn from(value: TransportError) -> (r: Error) {
        Error::BackendError(value)
    }
}

/// The code that a protocol error has on the wire, in a CONNECTION_CLOSE frame.
pub open spec fn wire_code(err: TransportError) -> u64 {
    match err {
        TransportError::Done => 0x0,
        TransportError::FlowControl => 0x3,
        TransportError::StreamLimit => 0x4,
        TransportError::InvalidStreamState(_) => 0x5,
        TransportError::FinalSize => 0x6,
        TransportError::InvalidFrame => 0x7,
        TransportError::InvalidTransportParam => 0x8,
        TransportError::IdLimit => 0x9,
        TransportError::CryptoBufferExceeded => 0xd,
        TransportError::KeyUpdate => 0xe,
        _ => 0xa,
    }
}

/// The code that a protocol error has on the wire.
pub fn to_wire(err: TransportError) -> (code: u64)
    ensures
        code == wire_code(err),
{
    match err {
        TransportError::Done => 0x0,
        TransportError::FlowControl => 0x3,
        TransportError::StreamLimit => 0x4,
        TransportError::InvalidStreamState(_) => 0x5,
        TransportError::FinalSize => 0x6,
        TransportError::InvalidFrame => 0x7,
        TransportError::InvalidTransportParam => 0x8,
        TransportError::IdLimit => 0x9,
        TransportError::CryptoBufferExceeded => 0xd,
        TransportError::KeyUpdate => 0xe,
        _ => 0xa,
    }
}

/// A number in decimal notation is made of digits, does not start with a zero unless it is zero,
/// and denotes that number.
pub proof fn lemma_decimal(n: nat)
    ensures
        decimal(n).len() > 0,
        decimal_value(decimal(n)) == n,
        forall|i: int| 0 <= i < decimal(n).len() ==> '0' <= #[trigger] decimal(n)[i] <= '9',
        n > 0 ==> decimal(n)[0] != '0',
        n == 0 ==> decimal(n).len() == 1,
    decreases n,
{
    if n < 10 {
        assert(decimal(n).drop_last() =~= Seq::<char>::empty());
        assert(decimal_value(decimal(n).drop_last()) == 0);
    } else {
        lemma_decimal(n / 10);
        assert(decimal(n).drop_last() =~= decimal(n / 10));
    }
}

/// The text about an ID that is taken is a sentence with the ID in it, in decimal notation, and
/// nothing else. The text of a protocol error is its own, and so is that of an I/O error.
pub proof fn lemma_text_names_the_error(err: Error, text: Seq<char>)
    requires
        reads_as(err, text),
    ensures
        err matches Error::IdAlreadyTaken(id) ==> exists|digits: Seq<char>|
            {
                &&& text == "Id: "@ + digits + " is already taken by another open stream."@
                &&& #[trigger] decimal_value(digits) == id
                &&& digits.len() > 0
                &&& id > 0 ==> digits[0] != '0'
            },
        err matches Error::BackendError(inner) ==> text == transport_error_text(inner),
        err matches Error::IoError(inner) ==> can_read(inner, text),
{
    if let Error::IdAlreadyTaken(id) = err {
        lemma_decimal(id as nat);
        assert(decimal_value(decimal(id as nat)) == id);
    }
}

/// The codes on the wire are those of the transport: no error is zero, each error that has a code
/// of its own has that code, and all others are a violation of the protocol.
pub proof fn lemma_wire_codes(err: TransportError)
    ensures
        wire_code(err) == 0x0 <==> err is Done,
        wire_code(err) == 0x3 <==> err is FlowControl,
        wire_code(err) == 0x4 <==> err is StreamLimit,
        wire_code(err) == 0x5 <==> err is InvalidStreamState,
        wire_code(err) == 0x6 <==> err is FinalSize,
        wire_code(err) == 0x7 <==> err is InvalidFrame,
        wire_code(err) == 0x8 <==> err is InvalidTransportParam,
        wire_code(err) == 0x9 <==> err is IdLimit,
        wire_code(err) == 0xd <==> err is CryptoBufferExceeded,
        wire_code(err) == 0xe <==> err is KeyUpdate,
        !(err is Done || err is FlowControl || err is StreamLimit || err is InvalidStreamState
            || err is FinalSize || err is InvalidFrame || err is InvalidTransportParam
            || err is IdLimit || err is CryptoBufferExceeded || err is KeyUpdate) ==> wire_code(err)
            == 0xa,
{
}

} // verus!
