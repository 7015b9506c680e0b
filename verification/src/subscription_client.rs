//! Subscription requests that this node sends to a remote source node to
//! receive its audio over VBAN.

use vstd::prelude::*;
use crate::api_models::{NodeInfo, SubscriptionRequest};
use crate::cross_node::{api_url, node_api_url};
use crate::state::{is_lower_hex, random_uuid_simple};
use crate::text::{decimal, push_decimal, push_str};

verus! {

/// The VBAN stream name of a subscription: `AM_`, the first eight
/// characters of the source node's name, `_`, and a suffix.
pub open spec fn stream_name_text(source_name: Seq<char>, suffix: Seq<char>) -> Seq<char> {
    "AM_"@ + source_name.take(if source_name.len() < 8 { source_name.len() as int } else { 8 }) + "_"@ + suffix
}

/// Sends subscription requests for this node, whose VBAN receiver listens
/// on a port.
#[derive(Debug, Clone, Copy)]
pub struct SubscriptionClient {
    local_vban_port: u16,
}

impl SubscriptionClient {
    /// The port this node receives VBAN on.
    pub closed spec fn vban_port(&self) -> u16 {
        self.local_vban_port
    }

    /// A client for a node that receives VBAN on a port.
    pub fn new(local_vban_port: u16) -> (r: Self)
        ensures
            r.vban_port() == local_vban_port,
    {
        SubscriptionClient { local_vban_port }
    }

    /// The port this node receives VBAN on.
    pub fn local_vban_port(&self) -> (r: u16)
        ensures
            r == self.vban_port(),
    {
        self.local_vban_port
    }

    /// Where a subscription request is sent and what it says, with a given
    /// stream name suffix: the source node's subscription endpoint, and a
    /// request for the channels of a device, to be sent to this node's
    /// address at its VBAN port. Refused for a source node without an
    /// address.
    pub fn request_with_suffix(
        &self,
        source_node: &NodeInfo,
        source_device: &str,
        source_channels: Vec<u16>,
        local_ip: &str,
        sample_rate: u32,
        suffix: &str,
    ) -> (r: Result<(String, SubscriptionRequest), String>)
        ensures
            source_node@.addresses.len() == 0 ==> (r matches Err(e) && e@ == "No address for source node: "@
                + source_node@.name),
            source_node@.addresses.len() > 0 ==> (r matches Ok((url, req)) && url@ == api_url(
                source_node@.addresses[0],
                source_node.api_port,
                "/api/v1/subscriptions"@,
            ) && req.stream_name@ == stream_name_text(source_node@.name, suffix@)
                && req.source_device@ == source_device@ && req.source_channels@ == source_channels@
                && req.destination_node@ == local_ip@ && req.destination_addr@ == local_ip@ + ":"@
                + decimal(self.vban_port() as nat) && req.sample_rate == sample_rate),
    {
        let url = match node_api_url(source_node, "/api/v1/subscriptions") {
            Some(u) => u,
            None => {
                let mut e = String::new();
                push_str(&mut e, "No address for source node: ");
                push_str(&mut e, source_node.name.as_str());
                return Err(e);
            },
        };
        let name_len = source_node.name.as_str().unicode_len();
        let keep = if name_len < 8 {
            name_len
        } else {
            8
        };
        let head = source_node.name.as_str().substring_char(0, keep);
        let mut stream_name = String::new();
        push_str(&mut stream_name, "AM_");
        push_str(&mut stream_name, head);
        push_str(&mut stream_name, "_");
        push_str(&mut stream_name, suffix);
        proof {
            assert(head@ =~= source_node@.name.take(keep as int));
        }
        let mut destination_addr = String::new();
        push_str(&mut destination_addr, local_ip);
        push_str(&mut destination_addr, ":");
        push_decimal(&mut destination_addr, self.local_vban_port as u64);
        let req = SubscriptionRequest {
            stream_name,
            source_device: String::from_str(source_device),
            source_channels,
            destination_node: String::from_str(local_ip),
            destination_addr,
            sample_rate,
        };
        Ok((url, req))
    }

    /// Where a subscription request is sent and what it says, its stream
    /// name ending in eight random hexadecimal digits.
    pub fn subscription_request(
        &self,
        source_node: &NodeInfo,
        source_device: &str,
        source_channels: Vec<u16>,
        local_ip: &str,
        sample_rate: u32,
    ) -> (r: Result<(String, SubscriptionRequest), String>)
        ensures
            source_node@.addresses.len() == 0 ==> (r matches Err(e) && e@ == "No address for source node: "@
                + source_node@.name),
            source_node@.addresses.len() > 0 ==> (r matches Ok((url, req)) && url@ == api_url(
                source_node@.addresses[0],
                source_node.api_port,
                "/api/v1/subscriptions"@,
            ) && (exists|suffix: Seq<char>|
                suffix.len() == 8 && (forall|i: int| 0 <= i < 8 ==> is_lower_hex(#[trigger] suffix[i]))
                    && req.stream_name@ == stream_name_text(source_node@.name, suffix))
                && req.source_device@ == source_device@ && req.source_channels@ == source_channels@
                && req.destination_node@ == local_ip@ && req.destination_addr@ == local_ip@ + ":"@
                + decimal(self.vban_port() as nat) && req.sample_rate == sample_rate),
    {
        let id = random_uuid_simple();
        let suffix = id.as_str().substring_char(0, 8);
        proof {
            assert(suffix@ =~= id@.subrange(0, 8));
            assert forall|i: int| 0 <= i < 8 implies is_lower_hex(#[trigger] suffix@[i]) by {
                assert(suffix@[i] == id@[i]);
            }
        }
        self.request_with_suffix(source_node, source_device, source_channels, local_ip, sample_rate, suffix)
    }
}

} // verus!
