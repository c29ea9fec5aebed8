use user_netns::errors::{TokenClass, ToolError};
use user_netns::validate::{token_matches, validate_token};

#[test]
fn identifier_accepts_allow_listed_strings() {
    for s in ["abc", "a-b-1", "0", "net55", "h1", "-", "9z", "bridge-0"] {
        assert!(token_matches(s, TokenClass::Identifier), "{} should be accepted", s);
    }
}

#[test]
fn identifier_rejects_everything_else() {
    for s in ["", "a@b", "A", "aB", "a b", "a/b", "a.b", "notans@!", "br!d", "a_b", "a\nb", " "] {
        assert!(!token_matches(s, TokenClass::Identifier), "{} should be rejected", s);
    }
}

#[test]
fn ip_literal_accepts_allow_listed_strings() {
    for s in ["192.168.1.1", "10.0.0.1/24", "192.168.55.250/24", "0", ".", "/", "1.2.3.4"] {
        assert!(token_matches(s, TokenClass::IpLiteral), "{} should be accepted", s);
    }
}

#[test]
fn ip_literal_rejects_everything_else() {
    for s in ["", "a.b.c.d", "10.0.0.1/24 ", "1,2", "10-0-0-1", "1.2.3.4x", "::1"] {
        assert!(!token_matches(s, TokenClass::IpLiteral), "{} should be rejected", s);
    }
}

#[test]
fn validate_token_returns_the_input_and_class_on_failure() {
    match validate_token("notans@!", TokenClass::Identifier) {
        Ok(()) => panic!("invalid identifier accepted"),
        Err(ToolError::Validation { input, class }) => {
            assert_eq!(input, "notans@!");
            assert_eq!(class, TokenClass::Identifier);
        },
        Err(_) => panic!("wrong error variant"),
    }
    match validate_token("1.2.3.4x", TokenClass::IpLiteral) {
        Ok(()) => panic!("invalid ip literal accepted"),
        Err(ToolError::Validation { input, class }) => {
            assert_eq!(input, "1.2.3.4x");
            assert_eq!(class, TokenClass::IpLiteral);
        },
        Err(_) => panic!("wrong error variant"),
    }
    assert!(validate_token("net55", TokenClass::Identifier).is_ok());
    assert!(validate_token("10.0.0.1/24", TokenClass::IpLiteral).is_ok());
}

#[test]
fn validation_diagnostic_names_input_and_class() {
    let e = ToolError::Validation { input: "br!d".to_string(), class: TokenClass::Identifier };
    assert_eq!(e.message(), "br!d is not a valid identifier");
    let e = ToolError::Validation { input: "1.2.3.4x".to_string(), class: TokenClass::IpLiteral };
    assert_eq!(e.message(), "1.2.3.4x is not a valid ip-literal");
}

#[test]
fn other_diagnostics_name_the_failing_step() {
    let e = ToolError::NamespaceOpen { namespace: "doesnotexist".to_string() };
    assert_eq!(e.message(), "could not open namespace doesnotexist");
    assert_eq!(ToolError::NamespaceSwitch.message(), "setns failed");
    assert_eq!(ToolError::PrivilegeRaise.message(), "privilege escalation failed");
    assert_eq!(ToolError::PrivilegeDrop.message(), "priv drop failed");
    assert_eq!(ToolError::Launch.message(), "could not launch command");
    assert_eq!(ToolError::ExternalTool.message(), "external tool invocation failed");
}
