//! Clients: what is configured for each of them and what is known about it.

use crate::net::{copy_addrs, IpAddr, IpSet, SocketAddr};
use crate::text::copy_text;
use vstd::prelude::*;

verus! {

/// Identifies a client for as long as it exists.
pub type ClientHandle = u64;

/// The port that a new client is expected to listen on.
pub const DEFAULT_PORT: u16 = 4242;

/// The side of the screen on which a client sits.
#[derive(Clone, Copy, Debug, PartialEq, Eq, Structural)]
pub enum Position {
    Left,
    Right,
    Top,
    Bottom,
}

/// The edge of the screen at which input is captured.
#[derive(Clone, Copy, Debug, PartialEq, Eq, Structural)]
pub enum CapturePosition {
    Left,
    Right,
    Top,
    Bottom,
}

/// The edge that belongs to a side.
pub open spec fn capture_pos(pos: Position) -> CapturePosition {
    match pos {
        Position::Left => CapturePosition::Left,
        Position::Right => CapturePosition::Right,
        Position::Top => CapturePosition::Top,
        Position::Bottom => CapturePosition::Bottom,
    }
}

/// The edge at which input for a client on the given side is captured.
pub fn to_capture_pos(pos: Position) -> (edge: CapturePosition)
    ensures
        edge == capture_pos(pos),
{
    match pos {
        Position::Left => CapturePosition::Left,
        Position::Right => CapturePosition::Right,
        Position::Top => CapturePosition::Top,
        Position::Bottom => CapturePosition::Bottom,
    }
}

impl Default for Position {
    fn default() -> (pos: Position)
        ensures
            pos == Position::Left,
    {
        Position::Left
    }
}

/// What the user has configured for a client.
#[derive(Debug)]
pub struct ClientConfig {
    /// The name under which the client's addresses are looked up.
    pub hostname: Option<String>,
    /// Addresses that the user has given.
    pub fix_ips: Vec<IpAddr>,
    /// The port that the client listens on.
    pub port: u16,
    /// The side of the screen on which the client sits.
    pub pos: Position,
    /// A command to run when the client is entered.
    pub cmd: Option<String>,
}

/// The value of a [`ClientConfig`].
#[verifier::ext_equal]
pub struct ClientConfigView {
    pub hostname: Option<Seq<char>>,
    pub fix_ips: Seq<IpAddr>,
    pub port: u16,
    pub pos: Position,
    pub cmd: Option<Seq<char>>,
}

impl View for ClientConfig {
    type V = ClientConfigView;

    open spec fn view(&self) -> ClientConfigView {
        ClientConfigView {
            hostname: crate::text::chars(self.hostname),
            fix_ips: self.fix_ips@,
            port: self.port,
            pos: self.pos,
            cmd: crate::text::chars(self.cmd),
        }
    }
}

impl ClientConfigView {
    /// The configuration of a client of which nothing is known yet.
    pub open spec fn unconfigured() -> ClientConfigView {
        ClientConfigView {
            hostname: None,
            fix_ips: Seq::empty(),
            port: DEFAULT_PORT,
            pos: Position::Left,
            cmd: None,
        }
    }
}

impl Default for ClientConfig {
    fn default() -> (config: ClientConfig)
        ensures
            config@ == ClientConfigView::unconfigured(),
    {
        ClientConfig {
            hostname: None,
            fix_ips: Vec::new(),
            port: DEFAULT_PORT,
            pos: Position::default(),
            cmd: None,
        }
    }
}

impl Clone for ClientConfig {
    fn clone(&self) -> (copy: ClientConfig)
        ensures
            copy@ == self@,
    {
        ClientConfig {
            hostname: copy_text(&self.hostname),
            fix_ips: copy_addrs(&self.fix_ips),
            port: self.port,
            pos: self.pos,
            cmd: copy_text(&self.cmd),
        }
    }
}

/// What is currently known about a client.
#[derive(Debug)]
pub struct ClientState {
    /// Whether events are exchanged with the client.
    pub active: bool,
    /// The address that data for the client is sent to.
    pub active_addr: Option<SocketAddr>,
    /// Whether the client answers pings.
    pub alive: bool,
    /// The addresses that the client's name resolved to.
    pub dns_ips: Vec<IpAddr>,
    /// All addresses of the client.
    pub ips: IpSet,
    /// Whether keys are held down on the client.
    pub has_pressed_keys: bool,
    /// Whether the client's name is being looked up.
    pub resolving: bool,
}

/// The value of a [`ClientState`].
#[verifier::ext_equal]
pub struct ClientStateView {
    pub active: bool,
    pub active_addr: Option<SocketAddr>,
    pub alive: bool,
    pub dns_ips: Seq<IpAddr>,
    pub ips: Set<IpAddr>,
    pub has_pressed_keys: bool,
    pub resolving: bool,
}

impl View for ClientState {
    type V = ClientStateView;

    open spec fn view(&self) -> ClientStateView {
        ClientStateView {
            active: self.active,
            active_addr: self.active_addr,
            alive: self.alive,
            dns_ips: self.dns_ips@,
            ips: self.ips@,
            has_pressed_keys: self.has_pressed_keys,
            resolving: self.resolving,
        }
    }
}

impl ClientStateView {
    /// The state of a client that was just created.
    pub open spec fn fresh() -> ClientStateView {
        ClientStateView {
            active: false,
            active_addr: None,
            alive: false,
            dns_ips: Seq::empty(),
            ips: Set::empty(),
            has_pressed_keys: false,
            resolving: false,
        }
    }
}

impl Default for ClientState {
    fn default() -> (state: ClientState)
        ensures
            state@ == ClientStateView::fresh(),
    {
        ClientState {
            active: false,
            active_addr: None,
            alive: false,
            dns_ips: Vec::new(),
            ips: IpSet::new(),
            has_pressed_keys: false,
            resolving: false,
        }
    }
}

impl Clone for ClientState {
    fn clone(&self) -> (copy: ClientState)
        ensures
            copy@ == self@,
    {
        ClientState {
            active: self.active,
            active_addr: self.active_addr,
            alive: self.alive,
            dns_ips: copy_addrs(&self.dns_ips),
            ips: self.ips.clone(),
            has_pressed_keys: self.has_pressed_keys,
            resolving: self.resolving,
        }
    }
}

/// A client: its configuration and its state.
pub type Client = (ClientConfig, ClientState);

/// The value of a [`Client`].
pub type ClientView = (ClientConfigView, ClientStateView);

} // verus!
