//! The configuration that the service starts with.

use crate::client::{ClientConfigView, ClientStateView, ClientView, Position};
use crate::net::IpAddr;
use vstd::prelude::*;

verus! {

/// The number of a key.
pub type Scancode = u32;

/// A client that the configuration names.
#[derive(Debug)]
pub struct ConfigClient {
    /// The client's addresses.
    pub ips: Vec<IpAddr>,
    /// The client's host name.
    pub hostname: Option<String>,
    /// The port that the client listens on.
    pub port: u16,
    /// The side of the screen on which the client sits.
    pub pos: Position,
    /// Whether the client is active from the start.
    pub active: bool,
    /// A command to run when the client is entered.
    pub enter_hook: Option<String>,
}

/// The value of a [`ConfigClient`].
#[verifier::ext_equal]
pub struct ConfigClientView {
    pub ips: Seq<IpAddr>,
    pub hostname: Option<Seq<char>>,
    pub port: u16,
    pub pos: Position,
    pub active: bool,
    pub enter_hook: Option<Seq<char>>,
}

impl View for ConfigClient {
    type V = ConfigClientView;

    open spec fn view(&self) -> ConfigClientView {
        ConfigClientView {
            ips: self.ips@,
            hostname: crate::text::chars(self.hostname),
            port: self.port,
            pos: self.pos,
            active: self.active,
            enter_hook: crate::text::chars(self.enter_hook),
        }
    }
}

impl ConfigClientView {
    /// The client as the service starts with it. Its known addresses are the
    /// configured ones, and nothing else is known of its state.
    pub open spec fn client(self) -> ClientView {
        (
            ClientConfigView {
                hostname: self.hostname,
                fix_ips: self.ips,
                port: self.port,
                pos: self.pos,
                cmd: self.enter_hook,
            },
            ClientStateView {
                active: self.active,
                ips: self.ips.to_set(),
                ..ClientStateView::fresh()
            },
        )
    }
}

/// The configuration of the service.
#[derive(Debug)]
pub struct Config {
    /// The port to listen on.
    pub port: u16,
    /// The clients to start with.
    pub clients: Vec<ConfigClient>,
    /// The keys that, held together, give the pointer back.
    pub release_bind: Vec<Scancode>,
}

/// The value of a [`Config`].
#[verifier::ext_equal]
pub struct ConfigView {
    pub port: u16,
    pub clients: Seq<ConfigClientView>,
    pub release_bind: Seq<Scancode>,
}

impl View for Config {
    type V = ConfigView;

    open spec fn view(&self) -> ConfigView {
        ConfigView {
            port: self.port,
            clients: self.clients@.map_values(|c: ConfigClient| c@),
            release_bind: self.release_bind@,
        }
    }
}

} // verus!
