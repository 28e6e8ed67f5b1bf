//! Addresses and URLs of the server.

pub mod error;
pub mod network;

use crate::config::Config;
use crate::text::decimal_text;
use crate::text::eq_text;
use crate::text::to_decimal;
use vstd::prelude::*;
use vstd::string::*;

verus! {

/// The host to name in a URL for a server bound to `bound`: the machine's
/// own address where it listens on every interface, `localhost` for the
/// loopback address, and the bound address itself otherwise. There is none
/// where the server listens on every interface and the machine's address is
/// not known.
pub open spec fn url_host(bound: Seq<char>, local_ip: Option<Seq<char>>) -> Option<Seq<char>> {
    if bound == "0.0.0.0"@ {
        local_ip
    } else if bound == "127.0.0.1"@ {
        Some("localhost"@)
    } else {
        Some(bound)
    }
}

/// The URL under which the server can be reached.
pub open spec fn server_url(
    base_url: Option<Seq<char>>,
    host: Seq<char>,
    port: u16,
    local_ip: Option<Seq<char>>,
) -> Option<Seq<char>> {
    match base_url {
        Some(url) => Some(url),
        None => match url_host(host, local_ip) {
            Some(name) => Some("http://"@ + name + ":"@ + decimal_text(port as nat)),
            None => None,
        },
    }
}

/// Works out the URL under which the server can be reached: the configured
/// base URL where there is one, else `http://host:port`. `local_ip` is the
/// machine's own address, where the caller could find it out.
pub fn get_server_url(config: &Config, local_ip: Option<&str>) -> (url: Option<String>)
    ensures
        match server_url(
            match config.base_url {
                Some(base) => Some(base@),
                None => None,
            },
            config.server_host@,
            config.server_port,
            match local_ip {
                Some(ip) => Some(ip@),
                None => None,
            },
        ) {
            Some(text) => url is Some && url->Some_0@ == text,
            None => url is None,
        },
{
    match &config.base_url {
        Some(base) => Some(base.clone()),
        None => {
            let host: String = if eq_text(config.server_host.as_str(), "0.0.0.0") {
                match local_ip {
                    Some(ip) => ip.to_owned(),
                    None => {
                        return None;
                    },
                }
            } else if eq_text(config.server_host.as_str(), "127.0.0.1") {
                String::from_str("localhost")
            } else {
                config.server_host.clone()
            };
            let port = to_decimal(config.server_port as u64);
            Some(
                String::from_str("http://").concat(host.as_str()).concat(":").concat(
                    port.as_str(),
                ),
            )
        },
    }
}

} // verus!
