//! The one error type of the control plane.

use vstd::prelude::*;

verus! {

/// `std::io::Error`, carried through unread.
#[verifier::external_type_specification]
#[verifier::external_body]
pub struct ExIoError(std::io::Error);

/// What went wrong, by kind. No operation retries or reclassifies: the kind
/// that a failure got where it arose is the kind the caller sees.
#[derive(Debug)]
pub enum Error {
    /// No interface of that name is known to the kernel.
    InterfaceNotFound { name: String },
    /// The text is no network in `address/prefix` form.
    InvalidCidr { input: String },
    /// The text is no hardware address of six groups of hex digits.
    InvalidMacAddress { input: String },
    /// The kernel refused a netlink request or the channel failed; the text
    /// is the cause as it was reported.
    Netlink(String),
    /// A call to a daemon failed; the text is the cause as it was reported.
    Dbus(String),
    /// Reading or writing failed.
    Io(std::io::Error),
    /// Anything else, among it what is not implemented yet.
    Generic(String),
}

/// An [`Error`] as plain values: the kind and the text it carries. An I/O
/// error carries its cause as the standard library holds it.
pub enum ErrorModel {
    InterfaceNotFound { name: Seq<char> },
    InvalidCidr { input: Seq<char> },
    InvalidMacAddress { input: Seq<char> },
    Netlink(Seq<char>),
    Dbus(Seq<char>),
    Io(std::io::Error),
    Generic(Seq<char>),
}

impl ErrorModel {
    /// The text that comes before what the error carries.
    pub open spec fn lead(self) -> Seq<char> {
        match self {
            ErrorModel::InterfaceNotFound { .. } => "interface '"@,
            ErrorModel::InvalidCidr { .. } => "invalid CIDR: "@,
            ErrorModel::InvalidMacAddress { .. } => "invalid MAC: "@,
            ErrorModel::Netlink(_) => "netlink error: "@,
            ErrorModel::Dbus(_) => "D-Bus error: "@,
            ErrorModel::Io(_) => "I/O error: "@,
            ErrorModel::Generic(_) => ""@,
        }
    }

    /// The text that the error carries; for an I/O error, whose cause is
    /// written by the standard library, nothing is known of it.
    pub open spec fn detail(self) -> Seq<char> {
        match self {
            ErrorModel::InterfaceNotFound { name } => name,
            ErrorModel::InvalidCidr { input } => input,
            ErrorModel::InvalidMacAddress { input } => input,
            ErrorModel::Netlink(msg) => msg,
            ErrorModel::Dbus(msg) => msg,
            ErrorModel::Io(_) => Seq::<char>::empty(),
            ErrorModel::Generic(msg) => msg,
        }
    }

    /// The text that comes after what the error carries.
    pub open spec fn trail(self) -> Seq<char> {
        match self {
            ErrorModel::InterfaceNotFound { .. } => "' not found"@,
            _ => ""@,
        }
    }

    /// The whole message of an error that is no I/O error.
    pub open spec fn message(self) -> Seq<char> {
        self.lead() + self.detail() + self.trail()
    }
}

impl View for Error {
    type V = ErrorModel;

    open spec fn view(&self) -> ErrorModel {
        match self {
            Error::InterfaceNotFound { name } => ErrorModel::InterfaceNotFound { name: name@ },
            Error::InvalidCidr { input } => ErrorModel::InvalidCidr { input: input@ },
            Error::InvalidMacAddress { input } => ErrorModel::InvalidMacAddress { input: input@ },
            Error::Netlink(msg) => ErrorModel::Netlink(msg@),
            Error::Dbus(msg) => ErrorModel::Dbus(msg@),
            Error::Io(cause) => ErrorModel::Io(*cause),
            Error::Generic(msg) => ErrorModel::Generic(msg@),
        }
    }
}

/// `Display` of `std::io::Error`: the cause of an I/O error as text. What
/// the text is depends on the error and on the platform, so nothing is
/// claimed of it.
#[verifier::external_body]
fn io_error_text(e: &std::io::Error) -> (text: String) {
    format!("{}", e)
}

impl Error {
    /// A netlink error with the given cause.
    pub fn netlink(msg: &str) -> (e: Error)
        ensures
            e@ == ErrorModel::Netlink(msg@),
    {
        Error::Netlink(msg.to_owned())
    }

    /// A daemon call error with the given cause.
    pub fn dbus(msg: &str) -> (e: Error)
        ensures
            e@ == ErrorModel::Dbus(msg@),
    {
        Error::Dbus(msg.to_owned())
    }

    /// The message of the error: its lead, what it carries, and its trail.
    /// For an I/O error the cause is written by the standard library.
    pub fn to_string(&self) -> (text: String)
        ensures
            !(self@ is Io) ==> text@ == self@.message(),
            self@ is Io ==> text@.len() >= self@.lead().len() && text@.take(
                self@.lead().len() as int,
            ) == self@.lead(),
    {
        proof {
            reveal_strlit("");
        }
        let detail: String = match self {
            Error::InterfaceNotFound { name } => {
                let mut text = "interface '".to_owned();
                text.append(name.as_str());
                text.append("' not found");
                return text;
            },
            Error::InvalidCidr { input } => {
                let mut text = "invalid CIDR: ".to_owned();
                text.append(input.as_str());
                assert(text@ =~= self@.message());
                return text;
            },
            Error::InvalidMacAddress { input } => {
                let mut text = "invalid MAC: ".to_owned();
                text.append(input.as_str());
                assert(text@ =~= self@.message());
                return text;
            },
            Error::Netlink(msg) => {
                let mut text = "netlink error: ".to_owned();
                text.append(msg.as_str());
                assert(text@ =~= self@.message());
                return text;
            },
            Error::Dbus(msg) => {
                let mut text = "D-Bus error: ".to_owned();
                text.append(msg.as_str());
                assert(text@ =~= self@.message());
                return text;
            },
            Error::Io(e) => io_error_text(e),
            Error::Generic(msg) => {
                let text = msg.clone();
                assert(text@ =~= self@.message());
                return text;
            },
        };
        let mut text = "I/O error: ".to_owned();
        text.append(detail.as_str());
        assert(text@.take(self@.lead().len() as int) =~= self@.lead());
        text
    }
}

impl From<std::io::Error> for Error {
    fn from(e: std::io::Error) -> (r: Error) {
        Error::Io(e)
    }
}

impl vstd::std_specs::convert::FromSpecImpl<std::io::Error> for Error {
    open spec fn obeys_from_spec() -> bool {
        true
    }

    open spec fn from_spec(e: std::io::Error) -> Error {
        Error::Io(e)
    }
}

/// Success or an error, as plain values.
pub open spec fn unit_result(r: Result<(), Error>) -> Result<(), ErrorModel> {
    match r {
        Ok(_) => Ok(()),
        Err(e) => Err(e@),
    }
}

/// Whether `r` is success, and the error if not, as plain values: what
/// was handed back on success is left out.
pub open spec fn bare_result<V>(r: Result<V, Error>) -> Result<(), ErrorModel> {
    match r {
        Ok(_) => Ok(()),
        Err(e) => Err(e@),
    }
}

/// A text or an error, as plain values.
pub open spec fn text_result(r: Result<String, Error>) -> Result<Seq<char>, ErrorModel> {
    match r {
        Ok(text) => Ok(text@),
        Err(e) => Err(e@),
    }
}

} // verus!
