//! Failures of the facade and of the process around it.

use vstd::prelude::*;
use vstd::string::*;

verus! {

/// Why a chain query was given up.
#[derive(Debug, Clone, PartialEq, Eq)]
pub enum BlockchainServiceError {
    /// The node could not be reached; the cause as text.
    EthProviderError(String),
    /// A contract read reverted or returned malformed data; the cause as text.
    EthContractError(String),
    /// A raw amount could not be scaled; the cause as text.
    EthConversionError(String),
    /// A string is no chain address: the string as it was supplied and, where
    /// the parser gave one, its diagnostic.
    InvalidAddress { raw: String, diagnostic: Option<String> },
    /// A text is no whole number; the cause as text.
    ParseError(String),
}

/// A `BlockchainServiceError` with its texts as sequences of characters.
pub enum ServiceFault {
    Provider(Seq<char>),
    Contract(Seq<char>),
    Conversion(Seq<char>),
    InvalidAddress { raw: Seq<char>, diagnostic: Option<Seq<char>> },
    Parse(Seq<char>),
}

/// The view of an optional text.
pub open spec fn optional_text(text: Option<String>) -> Option<Seq<char>> {
    match text {
        Some(t) => Some(t@),
        None => None,
    }
}

impl View for BlockchainServiceError {
    type V = ServiceFault;

    open spec fn view(&self) -> ServiceFault {
        match *self {
            BlockchainServiceError::EthProviderError(cause) => ServiceFault::Provider(cause@),
            BlockchainServiceError::EthContractError(cause) => ServiceFault::Contract(cause@),
            BlockchainServiceError::EthConversionError(cause) => ServiceFault::Conversion(cause@),
            BlockchainServiceError::InvalidAddress { raw, diagnostic } => ServiceFault::InvalidAddress {
                raw: raw@,
                diagnostic: optional_text(diagnostic),
            },
            BlockchainServiceError::ParseError(cause) => ServiceFault::Parse(cause@),
        }
    }
}

/// How a fault reads to a person: its kind, then what it holds.
pub open spec fn fault_text(fault: ServiceFault) -> Seq<char> {
    match fault {
        ServiceFault::Provider(cause) => "Provider error: "@ + cause,
        ServiceFault::Contract(cause) => "Contract error: "@ + cause,
        ServiceFault::Conversion(cause) => "Conversion error: "@ + cause,
        ServiceFault::InvalidAddress { raw, diagnostic: Some(said) } => "Invalid address: ["@ + raw
            + "] "@ + said,
        ServiceFault::InvalidAddress { raw, diagnostic: None } => "Invalid address: ["@ + raw
            + "]"@,
        ServiceFault::Parse(cause) => "Parse error: "@ + cause,
    }
}

/// The `Debug` form of a text: what `{:?}` writes for a `str`, the text in
/// double quotes with its escapes.
pub uninterp spec fn debug_form(text: Seq<char>) -> Seq<char>;

/// Formats a text with `{:?}`, that is with the `Debug` of `str`. What comes
/// back depends on the text alone.
#[verifier::external_body]
fn debug_quoted(text: &str) -> (quoted: String)
    ensures
        quoted@ == debug_form(text@),
{
    format!("{:?}", text)
}

/// The `Debug` form of a fault: the name of its kind, then what it holds,
/// each text in its own `Debug` form.
pub open spec fn fault_debug_text(fault: ServiceFault) -> Seq<char> {
    match fault {
        ServiceFault::Provider(cause) => "EthProviderError("@ + debug_form(cause) + ")"@,
        ServiceFault::Contract(cause) => "EthContractError("@ + debug_form(cause) + ")"@,
        ServiceFault::Conversion(cause) => "EthConversionError("@ + debug_form(cause) + ")"@,
        ServiceFault::InvalidAddress { raw, diagnostic: Some(said) } => "InvalidAddress { raw: "@
            + debug_form(raw) + ", diagnostic: Some("@ + debug_form(said) + ") }"@,
        ServiceFault::InvalidAddress { raw, diagnostic: None } => "InvalidAddress { raw: "@
            + debug_form(raw) + ", diagnostic: None }"@,
        ServiceFault::Parse(cause) => "ParseError("@ + debug_form(cause) + ")"@,
    }
}

/// The name of a fault's kind.
pub open spec fn kind_name(fault: ServiceFault) -> Seq<char> {
    match fault {
        ServiceFault::Provider(_) => "EthProviderError"@,
        ServiceFault::Contract(_) => "EthContractError"@,
        ServiceFault::Conversion(_) => "EthConversionError"@,
        ServiceFault::InvalidAddress { .. } => "InvalidAddress"@,
        ServiceFault::Parse(_) => "ParseError"@,
    }
}

/// The `Debug` form of a fault begins with the name of its kind, whatever the
/// fault holds.
pub proof fn lemma_debug_text_names_the_kind(fault: ServiceFault)
    ensures
        kind_name(fault).len() <= fault_debug_text(fault).len(),
        fault_debug_text(fault).subrange(0, kind_name(fault).len() as int) == kind_name(fault),
{
    reveal_strlit("EthProviderError(");
    reveal_strlit("EthProviderError");
    reveal_strlit("EthContractError(");
    reveal_strlit("EthContractError");
    reveal_strlit("EthConversionError(");
    reveal_strlit("EthConversionError");
    reveal_strlit("InvalidAddress { raw: ");
    reveal_strlit("InvalidAddress");
    reveal_strlit("ParseError(");
    reveal_strlit("ParseError");
    assert(fault_debug_text(fault).subrange(0, kind_name(fault).len() as int) =~= kind_name(
        fault,
    ));
}

/// The `Debug` form of an address failure holds, behind the name of the kind,
/// the `Debug` form of the text that was rejected.
pub proof fn lemma_debug_text_holds_the_address(raw: Seq<char>, diagnostic: Option<Seq<char>>)
    ensures
        ({
            let text = fault_debug_text(ServiceFault::InvalidAddress { raw, diagnostic });
            let head = "InvalidAddress { raw: "@;
            &&& head.len() + debug_form(raw).len() <= text.len()
            &&& text.subrange(0, head.len() as int) == head
            &&& text.subrange(head.len() as int, (head.len() + debug_form(raw).len()) as int) == debug_form(
                raw,
            )
        }),
{
    let text = fault_debug_text(ServiceFault::InvalidAddress { raw, diagnostic });
    let head = "InvalidAddress { raw: "@;
    assert(text.subrange(0, head.len() as int) =~= head);
    assert(text.subrange(head.len() as int, (head.len() + debug_form(raw).len()) as int) =~= debug_form(
        raw,
    ));
}

impl BlockchainServiceError {
    /// The failure as a line of text: its kind, then the cause, or for an
    /// address the text in brackets and the parser's diagnostic if there is
    /// one.
    pub fn message(&self) -> (text: String)
        ensures
            text@ == fault_text(self@),
    {
        match self {
            BlockchainServiceError::EthProviderError(cause) => String::from_str(
                "Provider error: ",
            ).concat(cause.as_str()),
            BlockchainServiceError::EthContractError(cause) => String::from_str(
                "Contract error: ",
            ).concat(cause.as_str()),
            BlockchainServiceError::EthConversionError(cause) => String::from_str(
                "Conversion error: ",
            ).concat(cause.as_str()),
            BlockchainServiceError::InvalidAddress { raw, diagnostic } => {
                let head = String::from_str("Invalid address: [").concat(raw.as_str());
                match diagnostic {
                    Some(said) => head.concat("] ").concat(said.as_str()),
                    None => head.concat("]"),
                }
            },
            BlockchainServiceError::ParseError(cause) => String::from_str("Parse error: ").concat(
                cause.as_str(),
            ),
        }
    }

    /// The failure in its `Debug` form: the name of its kind, then what it
    /// holds, each text quoted.
    pub fn debug_text(&self) -> (text: String)
        ensures
            text@ == fault_debug_text(self@),
    {
        match self {
            BlockchainServiceError::EthProviderError(cause) => String::from_str(
                "EthProviderError(",
            ).concat(debug_quoted(cause.as_str()).as_str()).concat(")"),
            BlockchainServiceError::EthContractError(cause) => String::from_str(
                "EthContractError(",
            ).concat(debug_quoted(cause.as_str()).as_str()).concat(")"),
            BlockchainServiceError::EthConversionError(cause) => String::from_str(
                "EthConversionError(",
            ).concat(debug_quoted(cause.as_str()).as_str()).concat(")"),
            BlockchainServiceError::InvalidAddress { raw, diagnostic } => {
                let head = String::from_str("InvalidAddress { raw: ").concat(
                    debug_quoted(raw.as_str()).as_str(),
                );
                match diagnostic {
                    Some(said) => head.concat(", diagnostic: Some(").concat(
                        debug_quoted(said.as_str()).as_str(),
                    ).concat(") }"),
                    None => head.concat(", diagnostic: None }"),
                }
            },
            BlockchainServiceError::ParseError(cause) => String::from_str("ParseError(").concat(
                debug_quoted(cause.as_str()).as_str(),
            ).concat(")"),
        }
    }
}

/// Why the process could not start or serve.
#[derive(Debug, Clone, PartialEq, Eq)]
pub enum AppServerError {
    /// An input or output operation failed; the cause as text.
    IoError(String),
    /// The configuration is missing or malformed.
    ConfigError(String),
    /// A chain query failed.
    BlockchainServiceError(BlockchainServiceError),
}

/// An `AppServerError` with its texts as sequences of characters.
pub enum ServerFault {
    Io(Seq<char>),
    Config(Seq<char>),
    Service(ServiceFault),
}

impl View for AppServerError {
    type V = ServerFault;

    open spec fn view(&self) -> ServerFault {
        match *self {
            AppServerError::IoError(cause) => ServerFault::Io(cause@),
            AppServerError::ConfigError(message) => ServerFault::Config(message@),
            AppServerError::BlockchainServiceError(e) => ServerFault::Service(e@),
        }
    }
}

/// How a failure of the process reads to a person: its kind, then what it
/// holds.
pub open spec fn server_fault_text(fault: ServerFault) -> Seq<char> {
    match fault {
        ServerFault::Io(cause) => "I/O error: "@ + cause,
        ServerFault::Config(message) => "Configuration error: "@ + message,
        ServerFault::Service(inner) => "Blockchain service error: "@ + fault_text(inner),
    }
}

impl AppServerError {
    /// The failure as a line of text: its kind, then the cause.
    pub fn message(&self) -> (text: String)
        ensures
            text@ == server_fault_text(self@),
    {
        match self {
            AppServerError::IoError(cause) => String::from_str("I/O error: ").concat(
                cause.as_str(),
            ),
            AppServerError::ConfigError(message) => String::from_str(
                "Configuration error: ",
            ).concat(message.as_str()),
            AppServerError::BlockchainServiceError(inner) => String::from_str(
                "Blockchain service error: ",
            ).concat(inner.message().as_str()),
        }
    }
}

} // verus!
