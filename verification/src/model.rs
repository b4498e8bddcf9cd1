//! The service as a mathematical state machine.

use crate::client::{capture_pos, ClientConfigView, ClientHandle, ClientStateView, ClientView, Position};
use crate::config::{ConfigView, Scancode};
use crate::manager::{active, active_handles, free_handle, listing, occupant, ClientMap};
use crate::message::{
    CaptureRequest, Effect, EmulationRequest, FrontendEventView, FrontendRequestView, Occasion,
    Signal, Status,
};
use crate::net::{IpAddr, SocketAddr};
use vstd::prelude::*;

verus! {

/// Who has the pointer.
#[derive(Clone, Copy, Debug, PartialEq, Eq, Structural)]
pub enum State {
    /// Events are being sent to another device.
    Sending,
    /// Events are being received from other devices.
    Receiving,
    /// The pointer has entered the zone of another device, which has not
    /// acknowledged it yet.
    AwaitAck,
}

/// All addresses of a client: those that the user has given and those that its name
/// resolved to.
pub open spec fn all_ips(fix_ips: Seq<IpAddr>, dns_ips: Seq<IpAddr>) -> Set<IpAddr> {
    fix_ips.to_set().union(dns_ips.to_set())
}

/// An address after its port was replaced.
pub open spec fn with_port(addr: Option<SocketAddr>, port: u16) -> Option<SocketAddr> {
    match addr {
        Some(a) => Some(SocketAddr::spec_new(a.spec_ip(), port)),
        None => None,
    }
}

/// The state of the service.
#[verifier::ext_equal]
pub struct ServerView {
    /// The client that has the pointer.
    pub active_client: Option<ClientHandle>,
    /// All clients.
    pub clients: ClientMap,
    /// The port to listen on.
    pub port: u16,
    /// Who has the pointer.
    pub state: State,
    /// The keys that, held together, give the pointer back.
    pub release_bind: Seq<Scancode>,
    /// The configuration that the service was started with.
    pub config: ConfigView,
    /// What the frontends have not been told yet, oldest first.
    pub pending: Seq<FrontendEventView>,
    /// Whether input capture is up.
    pub capture_status: Status,
    /// Whether input emulation is up.
    pub emulation_status: Status,
    /// Whether the service was told to end.
    pub cancelled: bool,
    /// What has been caused and not been carried out yet, oldest first.
    pub effects: Seq<Effect>,
}

impl ServerView {
    /// The state that a configuration leads to: its clients have the handles from
    /// zero on, in the order in which they are listed.
    pub open spec fn init(config: ConfigView) -> ServerView {
        ServerView {
            active_client: None,
            clients: Map::new(
                |h: ClientHandle| h < config.clients.len(),
                |h: ClientHandle| config.clients[h as int].client(),
            ),
            port: config.port,
            state: State::Receiving,
            release_bind: config.release_bind,
            config,
            pending: Seq::empty(),
            capture_status: Status::Disabled,
            emulation_status: Status::Disabled,
            cancelled: false,
            effects: Seq::empty(),
        }
    }

    /// Causes an effect.
    pub open spec fn emit(self, effect: Effect) -> ServerView {
        ServerView { effects: self.effects.push(effect), ..self }
    }

    /// Replaces what is held of a client.
    pub open spec fn with_client(self, handle: ClientHandle, client: ClientView) -> ServerView {
        ServerView { clients: self.clients.insert(handle, client), ..self }
    }

    /// Marks a client as active or not.
    pub open spec fn with_active(self, handle: ClientHandle, on: bool) -> ServerView {
        let (c, s) = self.clients[handle];
        self.with_client(handle, (c, ClientStateView { active: on, ..s }))
    }

    /// Has something told to the frontends.
    pub open spec fn notify_frontend(self, event: FrontendEventView) -> ServerView {
        ServerView { pending: self.pending.push(event), ..self }.emit(
            Effect::Notify(Signal::NotifyOne(Occasion::FrontendEventPending)),
        )
    }

    /// Hands out the oldest thing that the frontends have not been told yet, if there is
    /// one.
    pub open spec fn tell(self) -> ServerView {
        if self.pending.len() > 0 {
            ServerView { pending: self.pending.drop_first(), ..self }
        } else {
            self
        }
    }

    /// The oldest thing that the frontends have not been told yet.
    pub open spec fn next_event(self) -> Option<FrontendEventView> {
        if self.pending.len() > 0 {
            Some(self.pending[0])
        } else {
            None
        }
    }

    /// The host name of a client.
    pub open spec fn hostname_of(self, handle: ClientHandle) -> Option<Seq<char>> {
        if self.clients.contains_key(handle) {
            self.clients[handle].0.hostname
        } else {
            None
        }
    }

    /// The address that data for a client is sent to.
    pub open spec fn address_of(self, handle: ClientHandle) -> Option<SocketAddr> {
        if self.clients.contains_key(handle) {
            self.clients[handle].1.active_addr
        } else {
            None
        }
    }

    /// Notes who has the pointer.
    pub open spec fn set_state(self, state: State) -> ServerView {
        ServerView { state, ..self }
    }

    /// Notes which client has the pointer.
    pub open spec fn set_active(self, handle: Option<ClientHandle>) -> ServerView {
        ServerView { active_client: handle, ..self }
    }

    /// Starts the ping timer over.
    pub open spec fn restart_ping_timer(self) -> ServerView {
        self.emit(Effect::Notify(Signal::NotifyWaiters(Occasion::Ping)))
    }

    /// Hands out everything that was caused.
    pub open spec fn hand_out(self) -> ServerView {
        ServerView { effects: Seq::empty(), ..self }
    }

    /// Notes in a client whether it answers, and at which address.
    pub open spec fn note(
        self,
        handle: ClientHandle,
        active_addr: Option<SocketAddr>,
        alive: bool,
    ) -> ServerView {
        if self.clients.contains_key(handle) {
            let (c, s) = self.clients[handle];
            self.with_client(handle, (c, ClientStateView { active_addr, alive, ..s }))
        } else {
            self
        }
    }

    /// Tells the frontends that a client changed.
    pub open spec fn client_updated(self, handle: ClientHandle) -> ServerView {
        self.notify_frontend(FrontendEventView::Changed(handle))
    }

    /// Tells the service to end.
    pub open spec fn cancel(self) -> ServerView {
        ServerView { cancelled: true, ..self }.emit(Effect::Notify(Signal::Cancel))
    }

    /// Has another port listened on.
    pub open spec fn request_port_change(self, port: u16) -> ServerView {
        ServerView { port, ..self }.emit(
            Effect::Notify(Signal::NotifyOne(Occasion::PortChanged)),
        )
    }

    /// Notes the port that is listened on and tells the frontends.
    pub open spec fn notify_port_changed(self, port: u16, msg: Option<Seq<char>>) -> ServerView {
        ServerView { port, ..self }.notify_frontend(FrontendEventView::PortChanged(port, msg))
    }

    /// Tells the frontends about all clients.
    pub open spec fn enumerate(self) -> ServerView {
        self.notify_frontend(FrontendEventView::Enumerate(listing(self.clients)))
    }

    /// The handle that the next client gets.
    pub open spec fn next_handle(self) -> ClientHandle {
        free_handle(self.clients).unwrap()
    }

    /// Adds a client of which nothing is known yet.
    pub open spec fn add_client(self) -> ServerView {
        let handle = self.next_handle();
        let (c, s) = (ClientConfigView::unconfigured(), ClientStateView::fresh());
        self.with_client(handle, (c, s)).notify_frontend(FrontendEventView::Created(handle, c, s))
    }

    /// Ends the capture and the emulation of a client.
    pub open spec fn destroy(self, handle: ClientHandle) -> ServerView {
        self.emit(Effect::Capture(CaptureRequest::Destroy(handle))).emit(
            Effect::Emulation(EmulationRequest::Destroy(handle)),
        )
    }

    /// Deactivates a client. Where there is none, or where it is not active, nothing
    /// happens.
    pub open spec fn deactivate(self, handle: ClientHandle) -> ServerView {
        if active(self.clients, handle) {
            self.with_active(handle, false).destroy(handle).client_updated(handle)
        } else {
            self
        }
    }

    /// Clears a side of the screen: deactivates the active client that sits there.
    pub open spec fn vacate(self, pos: Position) -> ServerView {
        match occupant(self.clients, pos) {
            Some(other) => self.deactivate(other),
            None => self,
        }
    }

    /// Activates a client in the place of the one that is active on its side. Where
    /// there is no such client, or where it is active already, nothing happens.
    pub open spec fn activate(self, handle: ClientHandle) -> ServerView {
        if !self.clients.contains_key(handle) || active(self.clients, handle) {
            self
        } else {
            let pos = self.clients[handle].0.pos;
            self.vacate(pos).with_active(handle, true).emit(
                Effect::Capture(CaptureRequest::Create(handle, capture_pos(pos))),
            ).emit(Effect::Emulation(EmulationRequest::Create(handle))).client_updated(handle)
        }
    }

    /// Removes a client.
    pub open spec fn remove_client(self, handle: ClientHandle) -> ServerView {
        let rest = ServerView { clients: self.clients.remove(handle), ..self };
        if active(self.clients, handle) {
            rest.destroy(handle)
        } else {
            rest
        }
    }

    /// Notes whether keys are held down on a client.
    pub open spec fn update_pressed_keys(
        self,
        handle: ClientHandle,
        has_pressed_keys: bool,
    ) -> ServerView {
        if self.clients.contains_key(handle) {
            let (c, s) = self.clients[handle];
            self.with_client(handle, (c, ClientStateView { has_pressed_keys, ..s }))
        } else {
            self
        }
    }

    /// Collects all addresses of a client.
    pub open spec fn update_ips(self, handle: ClientHandle) -> ServerView {
        if self.clients.contains_key(handle) {
            let (c, s) = self.clients[handle];
            let ips = all_ips(c.fix_ips, s.dns_ips);
            self.with_client(handle, (c, ClientStateView { ips, ..s }))
        } else {
            self
        }
    }

    /// Replaces the addresses that the user has given for a client.
    pub open spec fn update_fix_ips(self, handle: ClientHandle, fix_ips: Seq<IpAddr>) -> ServerView {
        if self.clients.contains_key(handle) {
            let (c, s) = self.clients[handle];
            let ips = all_ips(fix_ips, s.dns_ips);
            self.with_client(
                handle,
                (ClientConfigView { fix_ips, ..c }, ClientStateView { ips, ..s }),
            ).client_updated(handle)
        } else {
            self.client_updated(handle)
        }
    }

    /// Replaces the addresses that the name of a client resolved to.
    pub open spec fn update_dns_ips(self, handle: ClientHandle, dns_ips: Seq<IpAddr>) -> ServerView {
        if self.clients.contains_key(handle) {
            let (c, s) = self.clients[handle];
            let ips = all_ips(c.fix_ips, dns_ips);
            self.with_client(handle, (c, ClientStateView { dns_ips, ips, ..s })).client_updated(
                handle,
            )
        } else {
            self.client_updated(handle)
        }
    }

    /// Replaces the host name of a client. With another name, what the old name led
    /// to is forgotten and the new one is looked up.
    pub open spec fn update_hostname(
        self,
        handle: ClientHandle,
        hostname: Option<Seq<char>>,
    ) -> ServerView {
        if !self.clients.contains_key(handle) {
            self
        } else if self.clients[handle].0.hostname == hostname {
            self.client_updated(handle)
        } else {
            let (c, s) = self.clients[handle];
            self.with_client(
                handle,
                (
                    ClientConfigView { hostname, ..c },
                    ClientStateView {
                        active_addr: None,
                        dns_ips: Seq::empty(),
                        ips: c.fix_ips.to_set(),
                        ..s
                    },
                ),
            ).emit(Effect::ResolveDns(handle)).client_updated(handle)
        }
    }

    /// Replaces the port of a client, and with it that of the address in use.
    pub open spec fn update_port(self, handle: ClientHandle, port: u16) -> ServerView {
        if self.clients.contains_key(handle) && self.clients[handle].0.port != port {
            let (c, s) = self.clients[handle];
            let active_addr = with_port(s.active_addr, port);
            self.with_client(
                handle,
                (ClientConfigView { port, ..c }, ClientStateView { active_addr, ..s }),
            )
        } else {
            self
        }
    }

    /// Puts a client on a side of the screen. An active client is taken down on its
    /// old side and activated on the new one, in the place of the one there.
    pub open spec fn update_pos(self, handle: ClientHandle, pos: Position) -> ServerView {
        if self.clients.contains_key(handle) && self.clients[handle].0.pos != pos {
            let (c, s) = self.clients[handle];
            let moved = self.with_client(handle, (ClientConfigView { pos, ..c }, s));
            if s.active {
                moved.deactivate(handle).activate(handle)
            } else {
                moved
            }
        } else {
            self
        }
    }

    /// Tells the frontends the state of a client, or that there is none.
    pub open spec fn broadcast_client(self, handle: ClientHandle) -> ServerView {
        if self.clients.contains_key(handle) {
            let (c, s) = self.clients[handle];
            self.notify_frontend(FrontendEventView::State(handle, c, s))
        } else {
            self.notify_frontend(FrontendEventView::NoSuchClient(handle))
        }
    }

    /// Notes whether input emulation is up and tells the frontends.
    pub open spec fn set_emulation_status(self, status: Status) -> ServerView {
        ServerView { emulation_status: status, ..self }.notify_frontend(
            FrontendEventView::EmulationStatus(status),
        )
    }

    /// Notes whether input capture is up and tells the frontends.
    pub open spec fn set_capture_status(self, status: Status) -> ServerView {
        ServerView { capture_status: status, ..self }.notify_frontend(
            FrontendEventView::CaptureStatus(status),
        )
    }

    /// Notes whether the name of a client is being looked up.
    pub open spec fn set_resolving(self, handle: ClientHandle, resolving: bool) -> ServerView {
        if self.clients.contains_key(handle) {
            let (c, s) = self.clients[handle];
            self.with_client(handle, (c, ClientStateView { resolving, ..s })).client_updated(handle)
        } else {
            self.client_updated(handle)
        }
    }

    /// Has the names of all active clients looked up.
    pub open spec fn resolve_active(self) -> ServerView {
        ServerView {
            effects: self.effects + active_handles(self.clients).map_values(
                |h: ClientHandle| Effect::ResolveDns(h),
            ),
            ..self
        }
    }

    /// Does what a frontend asks for.
    pub open spec fn handle_request(self, request: FrontendRequestView) -> ServerView {
        match request {
            FrontendRequestView::EnableCapture => self.emit(
                Effect::Notify(Signal::NotifyWaiters(Occasion::Capture)),
            ),
            FrontendRequestView::EnableEmulation => self.emit(
                Effect::Notify(Signal::NotifyWaiters(Occasion::Emulation)),
            ),
            FrontendRequestView::Create => self.add_client(),
            FrontendRequestView::Activate(h, true) => self.activate(h),
            FrontendRequestView::Activate(h, false) => self.deactivate(h),
            FrontendRequestView::ChangePort(port) => self.request_port_change(port),
            FrontendRequestView::Delete(h) => self.remove_client(h).notify_frontend(
                FrontendEventView::Deleted(h),
            ),
            FrontendRequestView::Enumerate() => self.enumerate(),
            FrontendRequestView::GetState(h) => self.broadcast_client(h),
            FrontendRequestView::UpdateFixIps(h, fix_ips) => self.update_fix_ips(h, fix_ips),
            FrontendRequestView::UpdateHostname(h, host) => self.update_hostname(h, host),
            FrontendRequestView::UpdatePort(h, port) => self.update_port(h, port),
            FrontendRequestView::UpdatePosition(h, pos) => self.update_pos(h, pos),
            FrontendRequestView::ResolveDns(h) => self.emit(Effect::ResolveDns(h)),
            FrontendRequestView::Sync => self.enumerate().notify_frontend(
                FrontendEventView::EmulationStatus(self.emulation_status),
            ).notify_frontend(
                FrontendEventView::CaptureStatus(self.capture_status),
            ).notify_frontend(FrontendEventView::PortChanged(self.port, None)),
        }
    }
}

} // verus!
