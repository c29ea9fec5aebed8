//! Error taxonomy for the tool, and the single-line diagnostics each error
//! produces.

use vstd::prelude::*;
use vstd::string::StringExecFns;

verus! {

/// The two allow-list grammars a raw token can be held against.
#[derive(Clone, Copy, PartialEq, Eq, Structural, Debug)]
pub enum TokenClass {
    /// One or more characters, each a digit, a lower-case letter or `-`.
    /// Used for namespace and bridge/network names.
    Identifier,
    /// One or more characters, each a digit, `.` or `/`.
    /// Used for IPv4 addresses and CIDR blocks.
    IpLiteral,
}

/// Everything that can go wrong in one invocation, each fatal.
#[derive(Debug)]
pub enum ToolError {
    /// A raw token did not match the grammar of its required class.
    Validation { input: String, class: TokenClass },
    /// The namespace's backing file could not be opened.
    NamespaceOpen { namespace: String },
    /// The kernel refused the network-namespace switch.
    NamespaceSwitch,
    /// Asserting root identity failed (the binary is not installed setuid).
    PrivilegeRaise,
    /// Dropping back to the caller's identity failed; nothing may run after.
    PrivilegeDrop,
    /// The caller's program could not be launched.
    Launch,
    /// An invocation of the external network-configuration tool failed.
    ExternalTool,
}

/// The name under which a token class appears in diagnostics.
pub open spec fn spec_class_name(class: TokenClass) -> Seq<char> {
    match class {
        TokenClass::Identifier => "identifier"@,
        TokenClass::IpLiteral => "ip-literal"@,
    }
}

/// What the diagnostic for each error reads, as a sequence of characters.
pub open spec fn spec_message(e: ToolError) -> Seq<char> {
    match e {
        ToolError::Validation { input, class } => input@ + " is not a valid "@
            + spec_class_name(class),
        ToolError::NamespaceOpen { namespace } => "could not open namespace "@ + namespace@,
        ToolError::NamespaceSwitch => "setns failed"@,
        ToolError::PrivilegeRaise => "privilege escalation failed"@,
        ToolError::PrivilegeDrop => "priv drop failed"@,
        ToolError::Launch => "could not launch command"@,
        ToolError::ExternalTool => "external tool invocation failed"@,
    }
}

impl ToolError {
    /// The single-line diagnostic for this error, naming the offending
    /// input where there is one.
    pub fn message(&self) -> (r: String)
        ensures
            r@ == spec_message(*self),
    {
        match self {
            ToolError::Validation { input, class } => {
                let mut m = input.clone();
                m.append(" is not a valid ");
                match class {
                    TokenClass::Identifier => m.append("identifier"),
                    TokenClass::IpLiteral => m.append("ip-literal"),
                }
                m
            },
            ToolError::NamespaceOpen { namespace } => {
                let mut m = "could not open namespace ".to_owned();
                m.append(namespace.as_str());
                m
            },
            ToolError::NamespaceSwitch => "setns failed".to_owned(),
            ToolError::PrivilegeRaise => "privilege escalation failed".to_owned(),
            ToolError::PrivilegeDrop => "priv drop failed".to_owned(),
            ToolError::Launch => "could not launch command".to_owned(),
            ToolError::ExternalTool => "external tool invocation failed".to_owned(),
        }
    }
}

} // verus!
