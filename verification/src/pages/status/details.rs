//! The connection details of the Status page.

use crate::daemon::{
    Endpoint, GeoIpLocation, ObfuscationEndpoint, ObfuscationInfo, TunnelEndpoint, TunnelState,
};
use crate::pages::status::{find_location, location_in, state_of};
use crate::text::{cat, owned};
use vstd::prelude::*;

verus! {

/// The texts in `lines`.
pub open spec fn texts_of(lines: Seq<String>) -> Seq<Seq<char>> {
    lines.map_values(|l: String| l@)
}

proof fn texts_push(lines: Seq<String>, line: String)
    ensures
        texts_of(lines.push(line)) == texts_of(lines).push(line@),
{
    assert(texts_of(lines.push(line)) =~= texts_of(lines).push(line@));
}

fn push_line(lines: &mut Vec<String>, line: String)
    ensures
        texts_of(final(lines)@) == texts_of(old(lines)@).push(line@),
{
    proof {
        texts_push(lines@, line);
    }
    lines.push(line);
}

// ---- Obfuscation ----

/// The line of one obfuscator behind a multiplexer.
pub open spec fn obfuscator_text(ep: ObfuscationEndpoint) -> Seq<char> {
    "      "@ + ep.obfuscation_type@ + "  "@ + ep.endpoint.address@
}

/// The lines of the obfuscation in use: one for a single obfuscator; for a
/// multiplexer a heading, and one for each way through it.
pub open spec fn obfuscation_text(info: ObfuscationInfo) -> Seq<Seq<char>> {
    match info {
        ObfuscationInfo::Single(ep) => seq![
            "    Obfuscation: "@ + ep.obfuscation_type@ + " via "@ + ep.endpoint.address@,
        ],
        ObfuscationInfo::Multiplexer { direct, obfuscators } => {
            let head = seq!["    Obfuscation: multiplexer"@];
            let through = match direct {
                Some(d) => seq!["      direct  "@ + d.address@],
                None => Seq::empty(),
            };
            head + through + obfuscators@.map_values(
                |ep: ObfuscationEndpoint| obfuscator_text(ep),
            )
        },
    }
}

/// The lines of the obfuscation in use.
pub fn obfuscation_lines(info: &ObfuscationInfo) -> (r: Vec<String>)
    ensures
        texts_of(r@) == obfuscation_text(*info),
{
    let mut lines: Vec<String> = Vec::new();
    match info {
        ObfuscationInfo::Single(ep) => {
            let mut text = cat("    Obfuscation: ", ep.obfuscation_type.as_str());
            text.append(" via ");
            text.append(ep.endpoint.address.as_str());
            push_line(&mut lines, text);
            assert(texts_of(lines@) =~= obfuscation_text(*info));
        },
        ObfuscationInfo::Multiplexer { direct, obfuscators } => {
            push_line(&mut lines, owned("    Obfuscation: multiplexer"));
            if let Some(d) = direct {
                push_line(&mut lines, cat("      direct  ", d.address.as_str()));
            }
            let ghost above = texts_of(lines@);
            let ghost all = obfuscators@.map_values(|ep: ObfuscationEndpoint| obfuscator_text(ep));
            let mut i: usize = 0;
            assert(texts_of(lines@) =~= above + all.take(0));
            while i < obfuscators.len()
                invariant
                    i <= obfuscators.len(),
                    all == obfuscators@.map_values(
                        |ep: ObfuscationEndpoint| obfuscator_text(ep),
                    ),
                    texts_of(lines@) == above + all.take(i as int),
                decreases obfuscators.len() - i,
            {
                let mut text = cat("      ", obfuscators[i].obfuscation_type.as_str());
                text.append("  ");
                text.append(obfuscators[i].endpoint.address.as_str());
                push_line(&mut lines, text);
                assert(above + all.take(i + 1) =~= (above + all.take(i as int)).push(
                    all[i as int],
                ));
                i = i + 1;
            }
            assert(all.take(i as int) =~= all);
            assert(texts_of(lines@) =~= obfuscation_text(*info));
        },
    }
    lines
}

// ---- All details ----

/// The endpoint of a state that may be missing.
pub open spec fn endpoint_in(state: Option<TunnelState>) -> Option<TunnelEndpoint> {
    match state {
        Some(s) => s.tunnel_endpoint(),
        None => None,
    }
}

/// A line that is there only where there is something to say.
pub open spec fn line_for(prefix: Seq<char>, value: Option<String>) -> Seq<Seq<char>> {
    match value {
        Some(v) => seq![prefix + v@],
        None => Seq::empty(),
    }
}

/// The tunnel's endpoint: its address and protocol.
pub open spec fn endpoint_line(endpoint: TunnelEndpoint) -> Seq<char> {
    "In        "@ + endpoint.endpoint.address@ + " "@ + endpoint.endpoint.protocol@
}

/// The address of the multihop entry, where there is one.
pub open spec fn entry_lines(endpoint: TunnelEndpoint) -> Seq<Seq<char>> {
    match endpoint.entry_endpoint {
        Some(entry) => seq!["In        "@ + entry.address@],
        None => Seq::empty(),
    }
}

/// The details of the connection: interface, endpoint, entry, obfuscation, and
/// the addresses out.
pub open spec fn details_text(state: Option<TunnelState>) -> Seq<Seq<char>> {
    match endpoint_in(state) {
        None => seq!["    (no active endpoint)"@],
        Some(endpoint) => {
            let obfuscation = match endpoint.obfuscation {
                Some(info) => obfuscation_text(info),
                None => Seq::empty(),
            };
            let out = match location_in(state) {
                Some(loc) => line_for("Out IPv4  "@, loc.ipv4) + line_for(
                    "Out IPv6  "@,
                    loc.ipv6,
                ),
                None => Seq::empty(),
            };
            line_for("    WireGuard interface: "@, endpoint.tunnel_interface) + seq![
                endpoint_line(endpoint),
            ] + entry_lines(endpoint) + obfuscation + out
        },
    }
}

fn push_line_for(lines: &mut Vec<String>, prefix: &str, value: &Option<String>)
    ensures
        texts_of(final(lines)@) == texts_of(old(lines)@) + line_for(prefix@, *value),
{
    if let Some(v) = value {
        push_line(lines, cat(prefix, v.as_str()));
        assert(texts_of(lines@) =~= texts_of(old(lines)@) + line_for(prefix@, *value));
    } else {
        assert(texts_of(lines@) =~= texts_of(old(lines)@) + line_for(prefix@, *value));
    }
}

/// The details of the connection.
pub fn connection_details(state: Option<&TunnelState>) -> (r: Vec<String>)
    ensures
        texts_of(r@) == details_text(state_of(state)),
{
    let mut lines: Vec<String> = Vec::new();
    let endpoint = match state {
        Some(s) => s.endpoint(),
        None => None,
    };
    match endpoint {
        None => {
            push_line(&mut lines, owned("    (no active endpoint)"));
            assert(texts_of(lines@) =~= details_text(state_of(state)));
        },
        Some(endpoint) => {
            push_line_for(&mut lines, "    WireGuard interface: ", &endpoint.tunnel_interface);
            let mut text = cat("In        ", endpoint.endpoint.address.as_str());
            text.append(" ");
            text.append(endpoint.endpoint.protocol.as_str());
            push_line(&mut lines, text);
            if let Some(entry) = &endpoint.entry_endpoint {
                push_line(&mut lines, cat("In        ", entry.address.as_str()));
            }
            if let Some(info) = &endpoint.obfuscation {
                let ghost above = texts_of(lines@);
                let mut more = obfuscation_lines(info);
                let ghost m = texts_of(more@);
                lines.append(&mut more);
                assert(texts_of(lines@) =~= above + m);
            }
            if let Some(loc) = find_location(state) {
                push_line_for(&mut lines, "Out IPv4  ", &loc.ipv4);
                push_line_for(&mut lines, "Out IPv6  ", &loc.ipv6);
            }
            assert(texts_of(lines@) =~= details_text(state_of(state)));
        },
    }
    lines
}

} // verus!
