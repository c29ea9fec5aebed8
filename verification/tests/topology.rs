use user_netns::errors::{TokenClass, ToolError};
use user_netns::topology::{
    bridge_end, namespace_add, namespace_del, namespace_end, net_add, net_del,
    net_link_namespace, net_unlink_namespace,
};

fn words(cmd: &[&str]) -> Vec<String> {
    cmd.iter().map(|w| w.to_string()).collect()
}

#[test]
fn net_add_builds_the_three_bridge_commands() {
    let plan = match net_add("net55", "192.168.55.250/24") {
        Ok(p) => p,
        Err(_) => panic!("valid net-add arguments rejected"),
    };
    assert_eq!(
        plan,
        vec![
            words(&["link", "add", "net55", "type", "bridge"]),
            words(&["addr", "add", "192.168.55.250/24", "dev", "net55"]),
            words(&["link", "set", "net55", "up"]),
        ]
    );
}

#[test]
fn net_add_rejects_a_bad_network_name_before_any_command_exists() {
    match net_add("br!d", "10.0.0.1/24") {
        Ok(_) => panic!("invalid network name accepted"),
        Err(ToolError::Validation { input, class }) => {
            assert_eq!(input, "br!d");
            assert_eq!(class, TokenClass::Identifier);
        },
        Err(_) => panic!("wrong error variant"),
    }
}

#[test]
fn net_add_rejects_a_bad_address() {
    match net_add("net55", "1.2.3.4x") {
        Ok(_) => panic!("invalid address accepted"),
        Err(ToolError::Validation { input, class }) => {
            assert_eq!(input, "1.2.3.4x");
            assert_eq!(class, TokenClass::IpLiteral);
        },
        Err(_) => panic!("wrong error variant"),
    }
}

#[test]
fn net_del_builds_the_delete_command() {
    let plan = net_del("net55").unwrap_or_else(|_| panic!("valid net-del argument rejected"));
    assert_eq!(plan, vec![words(&["link", "del", "net55"])]);
    assert!(net_del("net 55").is_err());
}

#[test]
fn namespace_add_builds_the_three_namespace_commands() {
    let plan = namespace_add("h1").unwrap_or_else(|_| panic!("valid namespace rejected"));
    assert_eq!(
        plan,
        vec![
            words(&["netns", "add", "h1"]),
            words(&["netns", "exec", "h1", "ifconfig", "lo", "127.0.0.1"]),
            words(&[
                "netns",
                "exec",
                "h1",
                "bash",
                "-c",
                "echo 1 > /proc/sys/net/ipv4/ip_unprivileged_port_start",
            ]),
        ]
    );
    assert!(namespace_add("H1").is_err());
}

#[test]
fn namespace_del_builds_the_delete_command() {
    let plan = namespace_del("h1").unwrap_or_else(|_| panic!("valid namespace rejected"));
    assert_eq!(plan, vec![words(&["netns", "del", "h1"])]);
    assert!(namespace_del("h1!").is_err());
}

#[test]
fn veth_end_names_are_keyed_by_network_and_namespace() {
    assert_eq!(bridge_end("net55", "h1"), "net55-h1-br");
    assert_eq!(namespace_end("net55", "h1"), "net55-h1-ns");
}

#[test]
fn net_link_namespace_builds_the_six_wiring_commands() {
    let plan = match net_link_namespace("net55", "h1", "192.168.55.1/24") {
        Ok(p) => p,
        Err(_) => panic!("valid net-link-namespace arguments rejected"),
    };
    assert_eq!(
        plan,
        vec![
            words(&["link", "add", "dev", "net55-h1-br", "type", "veth", "peer", "name",
                "net55-h1-ns"]),
            words(&["link", "set", "net55-h1-br", "master", "net55"]),
            words(&["link", "set", "net55-h1-br", "up"]),
            words(&["link", "set", "dev", "net55-h1-ns", "netns", "h1"]),
            words(&["netns", "exec", "h1", "ip", "addr", "add", "192.168.55.1/24", "dev",
                "net55-h1-ns"]),
            words(&["netns", "exec", "h1", "ip", "link", "set", "net55-h1-ns", "up"]),
        ]
    );
}

#[test]
fn net_link_namespace_names_the_first_offending_argument() {
    match net_link_namespace("b!", "h1", "1.2.3.4/24") {
        Err(ToolError::Validation { input, class }) => {
            assert_eq!(input, "b!");
            assert_eq!(class, TokenClass::Identifier);
        },
        _ => panic!("bad network name accepted"),
    }
    match net_link_namespace("net55", "h@", "1.2.3.4/24") {
        Err(ToolError::Validation { input, class }) => {
            assert_eq!(input, "h@");
            assert_eq!(class, TokenClass::Identifier);
        },
        _ => panic!("bad namespace name accepted"),
    }
    match net_link_namespace("net55", "h1", "addr") {
        Err(ToolError::Validation { input, class }) => {
            assert_eq!(input, "addr");
            assert_eq!(class, TokenClass::IpLiteral);
        },
        _ => panic!("bad address accepted"),
    }
}

#[test]
fn net_unlink_namespace_deletes_the_bridge_end() {
    let plan = match net_unlink_namespace("net55", "h1") {
        Ok(p) => p,
        Err(_) => panic!("valid net-unlink-namespace arguments rejected"),
    };
    assert_eq!(plan, vec![words(&["link", "del", "net55-h1-br", "up"])]);
    assert!(net_unlink_namespace("net!", "h1").is_err());
    assert!(net_unlink_namespace("net55", "h 1").is_err());
}
