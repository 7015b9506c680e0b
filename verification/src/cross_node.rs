//! Routes that cross node boundaries: the view of a route that the
//! destination node is sent, and the addresses of other nodes' APIs.

use vstd::prelude::*;
use crate::api_models::{NodeInfo, NodeInfoView, RouteDefinition, RouteView};
use crate::text::{decimal, push_decimal, push_str};
use vstd::utf8::encode_utf8;

verus! {

/// The route as the destination node is to store it: coming from this
/// node (by identifier) and going to its own (`LOCAL`) device.
pub open spec fn forwarded(local: NodeInfoView, r: RouteView) -> RouteView {
    RouteView { source_node: local.id, destination_node: "LOCAL"@, ..r }
}

/// The route as the destination node is to store it.
pub fn forwarded_route(local_node: &NodeInfo, route: &RouteDefinition) -> (r: RouteDefinition)
    ensures
        r@ == forwarded(local_node@, route@),
{
    RouteDefinition {
        source_node: local_node.id.clone(),
        source_device: route.source_device.clone(),
        source_channel: route.source_channel,
        destination_node: String::from_str("LOCAL"),
        destination_device: route.destination_device.clone(),
        destination_channel: route.destination_channel,
        volume_bits: route.volume_bits,
        muted: route.muted,
    }
}

/// The address of a path of a node's API: over HTTP, at its first address
/// and its API port.
pub open spec fn api_url(address: Seq<char>, api_port: u16, path: Seq<char>) -> Seq<char> {
    "http://"@ + address + ":"@ + decimal(api_port as nat) + path
}

/// The address of a path of a node's API, where the node has an address.
pub fn node_api_url(node: &NodeInfo, path: &str) -> (r: Option<String>)
    ensures
        node@.addresses.len() == 0 ==> r is None,
        node@.addresses.len() > 0 ==> (r matches Some(u) && u@ == api_url(
            node@.addresses[0],
            node.api_port,
            path@,
        )),
{
    if node.addresses.len() == 0 {
        return None;
    }
    let mut s = String::new();
    push_str(&mut s, "http://");
    push_str(&mut s, node.addresses[0].as_str());
    push_str(&mut s, ":");
    push_decimal(&mut s, node.api_port as u64);
    push_str(&mut s, path);
    Some(s)
}

/// Where a route is forwarded to on the destination node.
pub fn routes_url(node: &NodeInfo) -> (r: Option<String>)
    ensures
        node@.addresses.len() == 0 ==> r is None,
        node@.addresses.len() > 0 ==> (r matches Some(u) && u@ == api_url(
            node@.addresses[0],
            node.api_port,
            "/api/v1/routes"@,
        )),
{
    node_api_url(node, "/api/v1/routes")
}

/// The address, `ip:port`, that another node sends VBAN audio to.
pub fn vban_address(ip: &str, vban_port: u16) -> (r: String)
    ensures
        r@ == ip@ + ":"@ + decimal(vban_port as nat),
{
    let mut s = String::new();
    push_str(&mut s, ip);
    push_str(&mut s, ":");
    push_decimal(&mut s, vban_port as u64);
    s
}

/// An upper-case hexadecimal digit.
pub open spec fn hex_digit(d: u8) -> char {
    if d < 10 {
        ((48 + d) as u8) as char
    } else {
        ((55 + d) as u8) as char
    }
}

/// Whether a byte is left as it is: an ASCII letter or digit, or one of
/// `-._~`.
pub open spec fn unreserved(b: u8) -> bool {
    (48 <= b <= 57) || (65 <= b <= 90) || (97 <= b <= 122) || b == 45 || b == 46 || b == 95 || b == 126
}

/// The percent-encoding of bytes: each byte that is not left as it is
/// becomes `%` and its two upper-case hexadecimal digits.
pub open spec fn percent_encoded(bytes: Seq<u8>) -> Seq<char>
    decreases bytes.len(),
{
    if bytes.len() == 0 {
        Seq::empty()
    } else {
        percent_encoded(bytes.drop_last()) + if unreserved(bytes.last()) {
            seq![bytes.last() as char]
        } else {
            seq!['%', hex_digit(bytes.last() / 16), hex_digit(bytes.last() % 16)]
        }
    }
}

/// The percent-encoding of a text's UTF-8 bytes.
pub open spec fn url_encoded(s: Seq<char>) -> Seq<char> {
    percent_encoded(encode_utf8(s))
}

/// Calls `urlencoding::encode`, whose source percent-encodes each UTF-8
/// byte of the text other than ASCII letters, digits and `-._~`, with
/// upper-case hexadecimal digits.
#[verifier::external_body]
pub(crate) fn encode_path_segment(s: &str) -> (r: String)
    ensures
        r@ == url_encoded(s@),
{
    urlencoding::encode(s).into_owned()
}

/// The path, on a node's API, of a collection of this node's devices, or
/// of one device in it (its identifier encoded), followed by `suffix`.
pub open spec fn local_device_path(collection: Seq<char>, device_id: Option<Seq<char>>, suffix: Seq<char>) -> Seq<char> {
    "/api/v1/nodes/local/"@ + collection + match device_id {
        Some(d) => "/"@ + url_encoded(d),
        None => Seq::<char>::empty(),
    } + suffix
}

/// The path of [`local_device_path`].
pub fn local_device_path_of(collection: &str, device_id: Option<&str>, suffix: &str) -> (r: String)
    ensures
        r@ == local_device_path(collection@, match device_id {
            Some(d) => Some(d@),
            None => None,
        }, suffix@),
{
    let mut s = String::new();
    push_str(&mut s, "/api/v1/nodes/local/");
    push_str(&mut s, collection);
    if let Some(d) = device_id {
        push_str(&mut s, "/");
        let e = encode_path_segment(d);
        push_str(&mut s, e.as_str());
    }
    push_str(&mut s, suffix);
    s
}

} // verus!
