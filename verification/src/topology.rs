//! The network-topology commands: fixed argument plans for the external
//! network-configuration tool.
//!
//! Each subcommand validates every raw argument against its allow list and,
//! only if all of them pass, produces the exact sequence of argument
//! vectors to hand to the external `ip` tool, one vector per invocation.
//! The unverified binary runs them in order; no unvalidated string ever
//! reaches an external argument vector, because the plan is only produced
//! from inputs the validator accepted.

use vstd::prelude::*;
use vstd::string::StringExecFns;

use crate::errors::{TokenClass, ToolError};
use crate::validate::{valid_identifier, valid_ip_literal, validate_token};

verus! {

/// One external invocation: the words of its argument vector.
pub type CmdWords = Seq<Seq<char>>;

/// The name of the bridge-side end of the veth pair wiring namespace `ns`
/// to network `net`.
pub open spec fn spec_bridge_end(net: Seq<char>, ns: Seq<char>) -> Seq<char> {
    net + "-"@ + ns + "-br"@
}

/// The name of the namespace-side end of the veth pair wiring namespace
/// `ns` to network `net`.
pub open spec fn spec_namespace_end(net: Seq<char>, ns: Seq<char>) -> Seq<char> {
    net + "-"@ + ns + "-ns"@
}

/// The plan for `net-add`: create the bridge, address it, bring it up.
pub open spec fn net_add_plan(net: Seq<char>, ip: Seq<char>) -> Seq<CmdWords> {
    seq![
        seq!["link"@, "add"@, net, "type"@, "bridge"@],
        seq!["addr"@, "add"@, ip, "dev"@, net],
        seq!["link"@, "set"@, net, "up"@],
    ]
}

/// The plan for `net-del`: delete the bridge.
pub open spec fn net_del_plan(net: Seq<char>) -> Seq<CmdWords> {
    seq![seq!["link"@, "del"@, net]]
}

/// The plan for `namespace-add`: create the namespace, configure its
/// loopback, and permit unprivileged low ports inside it.
pub open spec fn namespace_add_plan(ns: Seq<char>) -> Seq<CmdWords> {
    seq![
        seq!["netns"@, "add"@, ns],
        seq!["netns"@, "exec"@, ns, "ifconfig"@, "lo"@, "127.0.0.1"@],
        seq![
            "netns"@,
            "exec"@,
            ns,
            "bash"@,
            "-c"@,
            "echo 1 > /proc/sys/net/ipv4/ip_unprivileged_port_start"@,
        ],
    ]
}

/// The plan for `namespace-del`: delete the namespace.
pub open spec fn namespace_del_plan(ns: Seq<char>) -> Seq<CmdWords> {
    seq![seq!["netns"@, "del"@, ns]]
}

/// The plan for `net-link-namespace`: create the veth pair, attach the
/// bridge end and bring it up, move the other end into the namespace,
/// address it there and bring it up.
pub open spec fn net_link_namespace_plan(net: Seq<char>, ns: Seq<char>, ip: Seq<char>) -> Seq<
    CmdWords,
> {
    let br = spec_bridge_end(net, ns);
    let nse = spec_namespace_end(net, ns);
    seq![
        seq!["link"@, "add"@, "dev"@, br, "type"@, "veth"@, "peer"@, "name"@, nse],
        seq!["link"@, "set"@, br, "master"@, net],
        seq!["link"@, "set"@, br, "up"@],
        seq!["link"@, "set"@, "dev"@, nse, "netns"@, ns],
        seq!["netns"@, "exec"@, ns, "ip"@, "addr"@, "add"@, ip, "dev"@, nse],
        seq!["netns"@, "exec"@, ns, "ip"@, "link"@, "set"@, nse, "up"@],
    ]
}

/// The plan for `net-unlink-namespace`: delete the bridge-side veth end.
pub open spec fn net_unlink_namespace_plan(net: Seq<char>, ns: Seq<char>) -> Seq<CmdWords> {
    seq![seq!["link"@, "del"@, spec_bridge_end(net, ns), "up"@]]
}

/// Appends one word to an argument vector under construction.
fn push_word(v: &mut Vec<String>, w: &str)
    ensures
        final(v).deep_view() == old(v).deep_view().push(w@),
{
    v.push(w.to_owned());
    proof {
        assert(v.deep_view() =~= old(v).deep_view().push(w@));
    }
}

/// Appends one finished argument vector to a plan under construction.
fn push_cmd(plan: &mut Vec<Vec<String>>, cmd: Vec<String>)
    ensures
        final(plan).deep_view() == old(plan).deep_view().push(cmd.deep_view()),
{
    let ghost words = cmd.deep_view();
    plan.push(cmd);
    proof {
        assert(plan.deep_view() =~= old(plan).deep_view().push(words));
    }
}

/// The bridge-side veth end's device name, `<net>-<ns>-br`.
pub fn bridge_end(net: &str, ns: &str) -> (r: String)
    ensures
        r@ == spec_bridge_end(net@, ns@),
{
    let mut s = net.to_owned();
    s.append("-");
    s.append(ns);
    s.append("-br");
    s
}

/// The namespace-side veth end's device name, `<net>-<ns>-ns`.
pub fn namespace_end(net: &str, ns: &str) -> (r: String)
    ensures
        r@ == spec_namespace_end(net@, ns@),
{
    let mut s = net.to_owned();
    s.append("-");
    s.append(ns);
    s.append("-ns");
    s
}

/// Builds the `net-add` plan: accepted exactly when the network name is a
/// valid identifier and the address a valid IP/CIDR literal, rejected with
/// the validation error naming the first offending argument. No plan — and
/// so no external invocation — exists for rejected input.
pub fn net_add(net: &str, ip: &str) -> (r: Result<Vec<Vec<String>>, ToolError>)
    ensures
        r is Ok <==> valid_identifier(net@) && valid_ip_literal(ip@),
        r is Ok ==> (r->Ok_0).deep_view() == net_add_plan(net@, ip@),
        r is Err ==> (r->Err_0 matches ToolError::Validation { input, class } && ((
        !valid_identifier(net@) && input@ == net@ && class == TokenClass::Identifier) || (
        valid_identifier(net@) && !valid_ip_literal(ip@) && input@ == ip@ && class
            == TokenClass::IpLiteral))),
{
    if let Err(e) = validate_token(net, TokenClass::Identifier) {
        return Err(e);
    }
    if let Err(e) = validate_token(ip, TokenClass::IpLiteral) {
        return Err(e);
    }
    let mut plan: Vec<Vec<String>> = Vec::new();

    let mut c: Vec<String> = Vec::new();
    push_word(&mut c, "link");
    push_word(&mut c, "add");
    push_word(&mut c, net);
    push_word(&mut c, "type");
    push_word(&mut c, "bridge");
    proof {
        assert(c.deep_view() =~= net_add_plan(net@, ip@)[0]);
    }
    push_cmd(&mut plan, c);

    let mut c: Vec<String> = Vec::new();
    push_word(&mut c, "addr");
    push_word(&mut c, "add");
    push_word(&mut c, ip);
    push_word(&mut c, "dev");
    push_word(&mut c, net);
    proof {
        assert(c.deep_view() =~= net_add_plan(net@, ip@)[1]);
    }
    push_cmd(&mut plan, c);

    let mut c: Vec<String> = Vec::new();
    push_word(&mut c, "link");
    push_word(&mut c, "set");
    push_word(&mut c, net);
    push_word(&mut c, "up");
    proof {
        assert(c.deep_view() =~= net_add_plan(net@, ip@)[2]);
    }
    push_cmd(&mut plan, c);

    proof {
        assert(plan.deep_view() =~= net_add_plan(net@, ip@));
    }
    Ok(plan)
}

/// Builds the `net-del` plan: accepted exactly when the network name is a
/// valid identifier, rejected with the validation error naming it.
pub fn net_del(net: &str) -> (r: Result<Vec<Vec<String>>, ToolError>)
    ensures
        r is Ok <==> valid_identifier(net@),
        r is Ok ==> (r->Ok_0).deep_view() == net_del_plan(net@),
        r is Err ==> (r->Err_0 matches ToolError::Validation { input, class } && input@ == net@
            && class == TokenClass::Identifier),
{
    if let Err(e) = validate_token(net, TokenClass::Identifier) {
        return Err(e);
    }
    let mut plan: Vec<Vec<String>> = Vec::new();

    let mut c: Vec<String> = Vec::new();
    push_word(&mut c, "link");
    push_word(&mut c, "del");
    push_word(&mut c, net);
    proof {
        assert(c.deep_view() =~= net_del_plan(net@)[0]);
    }
    push_cmd(&mut plan, c);

    proof {
        assert(plan.deep_view() =~= net_del_plan(net@));
    }
    Ok(plan)
}

/// Builds the `namespace-add` plan: accepted exactly when the namespace
/// name is a valid identifier, rejected with the validation error naming
/// it.
pub fn namespace_add(ns: &str) -> (r: Result<Vec<Vec<String>>, ToolError>)
    ensures
        r is Ok <==> valid_identifier(ns@),
        r is Ok ==> (r->Ok_0).deep_view() == namespace_add_plan(ns@),
        r is Err ==> (r->Err_0 matches ToolError::Validation { input, class } && input@ == ns@
            && class == TokenClass::Identifier),
{
    if let Err(e) = validate_token(ns, TokenClass::Identifier) {
        return Err(e);
    }
    let mut plan: Vec<Vec<String>> = Vec::new();

    let mut c: Vec<String> = Vec::new();
    push_word(&mut c, "netns");
    push_word(&mut c, "add");
    push_word(&mut c, ns);
    proof {
        assert(c.deep_view() =~= namespace_add_plan(ns@)[0]);
    }
    push_cmd(&mut plan, c);

    let mut c: Vec<String> = Vec::new();
    push_word(&mut c, "netns");
    push_word(&mut c, "exec");
    push_word(&mut c, ns);
    push_word(&mut c, "ifconfig");
    push_word(&mut c, "lo");
    push_word(&mut c, "127.0.0.1");
    proof {
        assert(c.deep_view() =~= namespace_add_plan(ns@)[1]);
    }
    push_cmd(&mut plan, c);

    let mut c: Vec<String> = Vec::new();
    push_word(&mut c, "netns");
    push_word(&mut c, "exec");
    push_word(&mut c, ns);
    push_word(&mut c, "bash");
    push_word(&mut c, "-c");
    push_word(&mut c, "echo 1 > /proc/sys/net/ipv4/ip_unprivileged_port_start");
    proof {
        assert(c.deep_view() =~= namespace_add_plan(ns@)[2]);
    }
    push_cmd(&mut plan, c);

    proof {
        assert(plan.deep_view() =~= namespace_add_plan(ns@));
    }
    Ok(plan)
}

/// Builds the `namespace-del` plan: accepted exactly when the namespace
/// name is a valid identifier, rejected with the validation error naming
/// it.
pub fn namespace_del(ns: &str) -> (r: Result<Vec<Vec<String>>, ToolError>)
    ensures
        r is Ok <==> valid_identifier(ns@),
        r is Ok ==> (r->Ok_0).deep_view() == namespace_del_plan(ns@),
        r is Err ==> (r->Err_0 matches ToolError::Validation { input, class } && input@ == ns@
            && class == TokenClass::Identifier),
{
    if let Err(e) = validate_token(ns, TokenClass::Identifier) {
        return Err(e);
    }
    let mut plan: Vec<Vec<String>> = Vec::new();

    let mut c: Vec<String> = Vec::new();
    push_word(&mut c, "netns");
    push_word(&mut c, "del");
    push_word(&mut c, ns);
    proof {
        assert(c.deep_view() =~= namespace_del_plan(ns@)[0]);
    }
    push_cmd(&mut plan, c);

    proof {
        assert(plan.deep_view() =~= namespace_del_plan(ns@));
    }
    Ok(plan)
}

/// Builds the `net-link-namespace` plan: accepted exactly when the network
/// and namespace names are valid identifiers and the address a valid
/// IP/CIDR literal, rejected with the validation error naming the first
/// offending argument.
pub fn net_link_namespace(net: &str, ns: &str, ip: &str) -> (r: Result<
    Vec<Vec<String>>,
    ToolError,
>)
    ensures
        r is Ok <==> valid_identifier(net@) && valid_identifier(ns@) && valid_ip_literal(ip@),
        r is Ok ==> (r->Ok_0).deep_view() == net_link_namespace_plan(net@, ns@, ip@),
        r is Err ==> (r->Err_0 matches ToolError::Validation { input, class } && ((
        !valid_identifier(net@) && input@ == net@ && class == TokenClass::Identifier) || (
        valid_identifier(net@) && !valid_identifier(ns@) && input@ == ns@ && class
            == TokenClass::Identifier) || (valid_identifier(net@) && valid_identifier(ns@)
            && !valid_ip_literal(ip@) && input@ == ip@ && class == TokenClass::IpLiteral))),
{
    if let Err(e) = validate_token(net, TokenClass::Identifier) {
        return Err(e);
    }
    if let Err(e) = validate_token(ns, TokenClass::Identifier) {
        return Err(e);
    }
    if let Err(e) = validate_token(ip, TokenClass::IpLiteral) {
        return Err(e);
    }
    let br = bridge_end(net, ns);
    let nse = namespace_end(net, ns);
    let mut plan: Vec<Vec<String>> = Vec::new();

    let mut c: Vec<String> = Vec::new();
    push_word(&mut c, "link");
    push_word(&mut c, "add");
    push_word(&mut c, "dev");
    push_word(&mut c, br.as_str());
    push_word(&mut c, "type");
    push_word(&mut c, "veth");
    push_word(&mut c, "peer");
    push_word(&mut c, "name");
    push_word(&mut c, nse.as_str());
    proof {
        assert(c.deep_view() =~= net_link_namespace_plan(net@, ns@, ip@)[0]);
    }
    push_cmd(&mut plan, c);

    let mut c: Vec<String> = Vec::new();
    push_word(&mut c, "link");
    push_word(&mut c, "set");
    push_word(&mut c, br.as_str());
    push_word(&mut c, "master");
    push_word(&mut c, net);
    proof {
        assert(c.deep_view() =~= net_link_namespace_plan(net@, ns@, ip@)[1]);
    }
    push_cmd(&mut plan, c);

    let mut c: Vec<String> = Vec::new();
    push_word(&mut c, "link");
    push_word(&mut c, "set");
    push_word(&mut c, br.as_str());
    push_word(&mut c, "up");
    proof {
        assert(c.deep_view() =~= net_link_namespace_plan(net@, ns@, ip@)[2]);
    }
    push_cmd(&mut plan, c);

    let mut c: Vec<String> = Vec::new();
    push_word(&mut c, "link");
    push_word(&mut c, "set");
    push_word(&mut c, "dev");
    push_word(&mut c, nse.as_str());
    push_word(&mut c, "netns");
    push_word(&mut c, ns);
    proof {
        assert(c.deep_view() =~= net_link_namespace_plan(net@, ns@, ip@)[3]);
    }
    push_cmd(&mut plan, c);

    let mut c: Vec<String> = Vec::new();
    push_word(&mut c, "netns");
    push_word(&mut c, "exec");
    push_word(&mut c, ns);
    push_word(&mut c, "ip");
    push_word(&mut c, "addr");
    push_word(&mut c, "add");
    push_word(&mut c, ip);
    push_word(&mut c, "dev");
    push_word(&mut c, nse.as_str());
    proof {
        assert(c.deep_view() =~= net_link_namespace_plan(net@, ns@, ip@)[4]);
    }
    push_cmd(&mut plan, c);

    let mut c: Vec<String> = Vec::new();
    push_word(&mut c, "netns");
    push_word(&mut c, "exec");
    push_word(&mut c, ns);
    push_word(&mut c, "ip");
    push_word(&mut c, "link");
    push_word(&mut c, "set");
    push_word(&mut c, nse.as_str());
    push_word(&mut c, "up");
    proof {
        assert(c.deep_view() =~= net_link_namespace_plan(net@, ns@, ip@)[5]);
    }
    push_cmd(&mut plan, c);

    proof {
        assert(plan.deep_view() =~= net_link_namespace_plan(net@, ns@, ip@));
    }
    Ok(plan)
}

/// Builds the `net-unlink-namespace` plan: accepted exactly when the
/// network and namespace names are valid identifiers, rejected with the
/// validation error naming the first offending argument.
pub fn net_unlink_namespace(net: &str, ns: &str) -> (r: Result<Vec<Vec<String>>, ToolError>)
    ensures
        r is Ok <==> valid_identifier(net@) && valid_identifier(ns@),
        r is Ok ==> (r->Ok_0).deep_view() == net_unlink_namespace_plan(net@, ns@),
        r is Err ==> (r->Err_0 matches ToolError::Validation { input, class } && class
            == TokenClass::Identifier && ((!valid_identifier(net@) && input@ == net@) || (
        valid_identifier(net@) && !valid_identifier(ns@) && input@ == ns@))),
{
    if let Err(e) = validate_token(net, TokenClass::Identifier) {
        return Err(e);
    }
    if let Err(e) = validate_token(ns, TokenClass::Identifier) {
        return Err(e);
    }
    let br = bridge_end(net, ns);
    let mut plan: Vec<Vec<String>> = Vec::new();

    let mut c: Vec<String> = Vec::new();
    push_word(&mut c, "link");
    push_word(&mut c, "del");
    push_word(&mut c, br.as_str());
    push_word(&mut c, "up");
    proof {
        assert(c.deep_view() =~= net_unlink_namespace_plan(net@, ns@)[0]);
    }
    push_cmd(&mut plan, c);

    proof {
        assert(plan.deep_view() =~= net_unlink_namespace_plan(net@, ns@));
    }
    Ok(plan)
}

} // verus!
