//! The state of the service and everything that changes it.

use crate::client::{to_capture_pos, ClientConfig, ClientHandle, ClientState, Position};
use crate::config::{Config, Scancode};
use crate::handles::lemma_is_lowest;
use crate::manager::{active_handles, free_handle, is_free, ClientManager};
use crate::message::{
    CaptureRequest, Effect, EmulationRequest, FrontendEvent, FrontendRequest, FrontendRequestView,
    Occasion, Signal, Status,
};
use crate::model::{all_ips, ServerView, State};
use crate::net::{copy_addrs, IpAddr, IpSet, SocketAddr};
use crate::text::{chars, copy_text, same_text};
use std::collections::VecDeque;
use vstd::prelude::*;

verus! {

/// The service.
#[derive(Debug)]
pub struct Server {
    active_client: Option<ClientHandle>,
    client_manager: ClientManager,
    port: u16,
    state: State,
    release_bind: Vec<Scancode>,
    config: Config,
    pending_frontend_events: VecDeque<FrontendEvent>,
    capture_status: Status,
    emulation_status: Status,
    cancelled: bool,
    effects: Vec<Effect>,
}

impl View for Server {
    type V = ServerView;

    closed spec fn view(&self) -> ServerView {
        ServerView {
            active_client: self.active_client,
            clients: self.client_manager@,
            port: self.port,
            state: self.state,
            release_bind: self.release_bind@,
            config: self.config@,
            pending: self.pending_frontend_events@.map_values(|e: FrontendEvent| e@),
            capture_status: self.capture_status,
            emulation_status: self.emulation_status,
            cancelled: self.cancelled,
            effects: self.effects@,
        }
    }
}

impl Server {
    /// Sets the service up with the clients of a configuration. Nothing is sent yet.
    pub fn new(config: Config) -> (server: Server)
        ensures
            server@ == ServerView::init(config@),
    {
        let mut client_manager = ClientManager::default();
        let ghost start = ServerView::init(config@).clients;
        assert(client_manager@ =~= start.restrict(Set::new(|h: ClientHandle| h < 0)));
        for i in 0..config.clients.len()
            invariant
                start == ServerView::init(config@).clients,
                client_manager@ == start.restrict(Set::new(|h: ClientHandle| h < i)),
        {
            let config_client = &config.clients[i];
            let client = ClientConfig {
                hostname: copy_text(&config_client.hostname),
                fix_ips: copy_addrs(&config_client.ips),
                port: config_client.port,
                pos: config_client.pos,
                cmd: copy_text(&config_client.enter_hook),
            };
            let state = ClientState {
                active: config_client.active,
                ips: IpSet::from_lists(&client.fix_ips, &Vec::new()),
                ..Default::default()
            };
            let ghost listed = config_client@.client();
            assert(state@.ips =~= config_client@.ips.to_set());
            assert(client@ == listed.0 && state@ == listed.1);
            let ghost before = client_manager@;
            let handle = client_manager.add_client();
            assert(handle == i) by {
                let p = is_free(before);
                assert(p(i as ClientHandle));
                lemma_is_lowest(p, i as ClientHandle);
            }
            if let Some(c) = client_manager.get_mut(handle) {
                *c = (client, state);
            }
            assert(config@.clients[i as int] == config_client@);
            assert(client_manager@ =~= start.restrict(Set::new(|h: ClientHandle| h < i + 1)));
        }
        assert(client_manager@ =~= start);
        let release_bind = config.release_bind.clone();
        let server = Server {
            active_client: None,
            client_manager,
            port: config.port,
            state: State::Receiving,
            release_bind,
            config,
            pending_frontend_events: VecDeque::new(),
            capture_status: Status::default(),
            emulation_status: Status::default(),
            cancelled: false,
            effects: Vec::new(),
        };
        assert(server@ =~= ServerView::init(config@));
        server
    }

    /// All clients.
    pub fn client_manager(&self) -> (clients: &ClientManager)
        ensures
            clients@ == self@.clients,
    {
        &self.client_manager
    }

    /// All clients, for the tasks that note in them what they learn about a client.
    pub fn client_manager_mut(&mut self) -> (clients: &mut ClientManager)
        ensures
            clients@ == old(self)@.clients,
            final(self)@ == (ServerView { clients: final(clients)@, ..old(self)@ }),
    {
        &mut self.client_manager
    }

    /// Hands out what has been caused since the last time, oldest first.
    pub fn take_effects(&mut self) -> (effects: Vec<Effect>)
        ensures
            effects@ == old(self)@.effects,
            final(self)@ == old(self)@.hand_out(),
    {
        let mut effects: Vec<Effect> = Vec::new();
        std::mem::swap(&mut effects, &mut self.effects);
        assert(self@ =~= old(self)@.hand_out());
        effects
    }

    /// Hands out the oldest thing that the frontends have not been told yet.
    pub fn next_frontend_event(&mut self) -> (event: Option<FrontendEvent>)
        ensures
            final(self)@ == old(self)@.tell(),
            match event {
                Some(e) => old(self)@.pending.len() > 0 && e@ == old(self)@.pending[0],
                None => old(self)@.pending.len() == 0,
            },
            event is Some == old(self)@.next_event() is Some,
            event is Some ==> event->0@ == old(self)@.next_event()->0,
    {
        let event = self.pending_frontend_events.pop_front();
        assert(self@ =~= old(self)@.tell());
        event
    }

    fn emit(&mut self, effect: Effect)
        ensures
            final(self)@ == old(self)@.emit(effect),
    {
        self.effects.push(effect);
        assert(self@ =~= old(self)@.emit(effect));
    }

    /// Has the addresses of a client looked up.
    pub fn request_lookup(&mut self, handle: ClientHandle)
        ensures
            final(self)@ == old(self)@.emit(Effect::ResolveDns(handle)),
            final(self)@ == old(self)@.handle_request(FrontendRequestView::ResolveDns(handle)),
    {
        self.emit(Effect::ResolveDns(handle));
    }

    /// Has something told to the frontends.
    pub fn notify_frontend(&mut self, event: FrontendEvent)
        ensures
            final(self)@ == old(self)@.notify_frontend(event@),
    {
        self.pending_frontend_events.push_back(event);
        self.emit(Effect::Notify(Signal::NotifyOne(Occasion::FrontendEventPending)));
        assert(self@ =~= old(self)@.notify_frontend(event@));
    }

    /// Tells the frontends that a client changed.
    pub fn client_updated(&mut self, handle: ClientHandle)
        ensures
            final(self)@ == old(self)@.client_updated(handle),
    {
        self.notify_frontend(FrontendEvent::Changed(handle));
    }

    /// Deactivates a client. Where there is none, or where it is not active, nothing
    /// happens.
    pub fn deactivate_client(&mut self, handle: ClientHandle)
        ensures
            final(self)@ == old(self)@.deactivate(handle),
    {
        match self.client_manager.get_mut(handle) {
            None => {
                assert(self@ =~= old(self)@);
                return;
            },
            Some((_, s)) => {
                if !s.active {
                    assert(self@ =~= old(self)@);
                    return;
                }
                s.active = false;
            },
        }
        assert(self@ =~= old(self)@.with_active(handle, false));
        self.emit(Effect::Capture(CaptureRequest::Destroy(handle)));
        self.emit(Effect::Emulation(EmulationRequest::Destroy(handle)));
        self.client_updated(handle);
    }

    /// Activates a client in the place of the one that is active on its side. Where
    /// there is no such client, or where it is active already, nothing happens.
    pub fn activate_client(&mut self, handle: ClientHandle)
        ensures
            final(self)@ == old(self)@.activate(handle),
    {
        // the side of the screen that has to be cleared
        let pos = match self.client_manager.get(handle) {
            None => return,
            Some((c, s)) => {
                if s.active {
                    return;
                }
                c.pos
            },
        };

        let other = self.client_manager.find_client(pos);
        if let Some(other) = other {
            self.deactivate_client(other);
        }
        let ghost cleared = self@;
        assert(cleared == old(self)@.vacate(pos));

        if let Some((_, s)) = self.client_manager.get_mut(handle) {
            s.active = true;
        } else {
            assert(false);
            return;
        }
        assert(self@ =~= cleared.with_active(handle, true));

        self.emit(Effect::Capture(CaptureRequest::Create(handle, to_capture_pos(pos))));
        self.emit(Effect::Emulation(EmulationRequest::Create(handle)));
        self.client_updated(handle);
    }

    /// Tells the service to end.
    pub fn cancel(&mut self)
        ensures
            final(self)@ == old(self)@.cancel(),
    {
        self.cancelled = true;
        self.emit(Effect::Notify(Signal::Cancel));
    }

    /// Whether the service was told to end.
    pub fn is_cancelled(&self) -> (cancelled: bool)
        ensures
            cancelled == self@.cancelled,
    {
        self.cancelled
    }

    /// Has input capture brought up again.
    pub fn notify_capture(&mut self)
        ensures
            final(self)@ == old(self)@.emit(
                Effect::Notify(Signal::NotifyWaiters(Occasion::Capture)),
            ),
            final(self)@ == old(self)@.handle_request(FrontendRequestView::EnableCapture),
    {
        self.emit(Effect::Notify(Signal::NotifyWaiters(Occasion::Capture)));
    }

    /// Has input emulation brought up again.
    pub fn notify_emulation(&mut self)
        ensures
            final(self)@ == old(self)@.emit(
                Effect::Notify(Signal::NotifyWaiters(Occasion::Emulation)),
            ),
            final(self)@ == old(self)@.handle_request(FrontendRequestView::EnableEmulation),
    {
        self.emit(Effect::Notify(Signal::NotifyWaiters(Occasion::Emulation)));
    }

    /// Starts the ping timer over.
    pub fn restart_ping_timer(&mut self)
        ensures
            final(self)@ == old(self)@.emit(Effect::Notify(Signal::NotifyWaiters(Occasion::Ping))),
            final(self)@ == old(self)@.restart_ping_timer(),
    {
        self.emit(Effect::Notify(Signal::NotifyWaiters(Occasion::Ping)));
    }

    /// Has another port listened on.
    pub fn request_port_change(&mut self, port: u16)
        ensures
            final(self)@ == old(self)@.request_port_change(port),
    {
        self.port = port;
        self.emit(Effect::Notify(Signal::NotifyOne(Occasion::PortChanged)));
    }

    /// Notes the port that is listened on and tells the frontends, with the reason if
    /// it is not the one that was asked for.
    pub fn notify_port_changed(&mut self, port: u16, msg: Option<String>)
        ensures
            final(self)@ == old(self)@.notify_port_changed(port, chars(msg)),
    {
        self.port = port;
        self.notify_frontend(FrontendEvent::PortChanged(port, msg));
    }

    /// The active clients in ascending order.
    pub fn active_clients(&self) -> (handles: Vec<ClientHandle>)
        ensures
            handles@ == active_handles(self@.clients),
    {
        self.client_manager.active_clients()
    }

    /// Does what a frontend asks for. It never asks for the end of the service. A client
    /// that is created gets the lowest handle that is free.
    pub fn handle_request(&mut self, event: FrontendRequest) -> (stop: bool)
        ensures
            !stop,
            event@ is Create ==> free_handle(old(self)@.clients) is Some,
            final(self)@ == old(self)@.handle_request(event@),
    {
        match event {
            FrontendRequest::EnableCapture => self.notify_capture(),
            FrontendRequest::EnableEmulation => self.notify_emulation(),
            FrontendRequest::Create => {
                self.add_client();
            },
            FrontendRequest::Activate(handle, active) => {
                if active {
                    self.activate_client(handle);
                } else {
                    self.deactivate_client(handle);
                }
            },
            FrontendRequest::ChangePort(port) => self.request_port_change(port),
            FrontendRequest::Delete(handle) => {
                self.remove_client(handle);
                self.notify_frontend(FrontendEvent::Deleted(handle));
            },
            FrontendRequest::Enumerate() => self.enumerate(),
            FrontendRequest::GetState(handle) => self.broadcast_client(handle),
            FrontendRequest::UpdateFixIps(handle, fix_ips) => self.update_fix_ips(handle, fix_ips),
            FrontendRequest::UpdateHostname(handle, host) => self.update_hostname(handle, host),
            FrontendRequest::UpdatePort(handle, port) => self.update_port(handle, port),
            FrontendRequest::UpdatePosition(handle, pos) => self.update_pos(handle, pos),
            FrontendRequest::ResolveDns(handle) => self.request_lookup(handle),
            FrontendRequest::Sync => {
                self.enumerate();
                self.notify_frontend(FrontendEvent::EmulationStatus(self.emulation_status));
                self.notify_frontend(FrontendEvent::CaptureStatus(self.capture_status));
                self.notify_frontend(FrontendEvent::PortChanged(self.port, None));
            },
        }
        false
    }

    /// Tells the frontends about all clients.
    pub fn enumerate(&mut self)
        ensures
            final(self)@ == old(self)@.enumerate(),
    {
        let clients = self.client_manager.snapshot();
        self.notify_frontend(FrontendEvent::Enumerate(clients));
    }

    /// Adds a client of which nothing is known yet, and tells the frontends.
    pub fn add_client(&mut self) -> (handle: ClientHandle)
        ensures
            free_handle(old(self)@.clients) == Some(handle),
            final(self)@ == old(self)@.add_client(),
    {
        let handle = self.client_manager.add_client();
        if let Some((c, s)) = self.client_manager.get(handle) {
            let (c, s) = (c.clone(), s.clone());
            self.notify_frontend(FrontendEvent::Created(handle, c, s));
        }
        handle
    }

    /// Removes a client. Capture and emulation of an active one end.
    pub fn remove_client(&mut self, handle: ClientHandle)
        ensures
            final(self)@ == old(self)@.remove_client(handle),
    {
        let active = match self.client_manager.remove_client(handle) {
            Some((_, s)) => s.active,
            None => {
                assert(self@ =~= old(self)@.remove_client(handle));
                return;
            },
        };
        if active {
            self.emit(Effect::Capture(CaptureRequest::Destroy(handle)));
            self.emit(Effect::Emulation(EmulationRequest::Destroy(handle)));
        }
    }

    /// Notes whether keys are held down on a client.
    pub fn update_pressed_keys(&mut self, handle: ClientHandle, has_pressed_keys: bool)
        ensures
            final(self)@ == old(self)@.update_pressed_keys(handle, has_pressed_keys),
    {
        if let Some((_, s)) = self.client_manager.get_mut(handle) {
            s.has_pressed_keys = has_pressed_keys;
        }
        assert(self@ =~= old(self)@.update_pressed_keys(handle, has_pressed_keys));
    }

    /// Replaces the addresses that the user has given for a client, and tells the
    /// frontends.
    pub fn update_fix_ips(&mut self, handle: ClientHandle, fix_ips: Vec<IpAddr>)
        ensures
            final(self)@ == old(self)@.update_fix_ips(handle, fix_ips@),
    {
        if let Some((c, _)) = self.client_manager.get_mut(handle) {
            c.fix_ips = fix_ips;
        }
        self.update_ips(handle);
        self.client_updated(handle);
        assert(self@ =~= old(self)@.update_fix_ips(handle, fix_ips@));
    }

    /// Replaces the addresses that the name of a client resolved to, and tells the
    /// frontends.
    pub fn update_dns_ips(&mut self, handle: ClientHandle, dns_ips: Vec<IpAddr>)
        ensures
            final(self)@ == old(self)@.update_dns_ips(handle, dns_ips@),
    {
        if let Some((_, s)) = self.client_manager.get_mut(handle) {
            s.dns_ips = dns_ips;
        }
        self.update_ips(handle);
        self.client_updated(handle);
        assert(self@ =~= old(self)@.update_dns_ips(handle, dns_ips@));
    }

    /// Collects all addresses of a client.
    pub fn update_ips(&mut self, handle: ClientHandle)
        ensures
            final(self)@ == old(self)@.update_ips(handle),
    {
        if let Some((c, s)) = self.client_manager.get_mut(handle) {
            s.ips = IpSet::from_lists(&c.fix_ips, &s.dns_ips);
        }
        assert(self@ =~= old(self)@.update_ips(handle));
    }

    /// Replaces the host name of a client, and tells the frontends. With another name,
    /// what the old name led to is forgotten and the new one is looked up.
    pub fn update_hostname(&mut self, handle: ClientHandle, hostname: Option<String>)
        ensures
            final(self)@ == old(self)@.update_hostname(handle, chars(hostname)),
    {
        let changed = match self.client_manager.get_mut(handle) {
            None => {
                assert(self@ =~= old(self)@);
                return;
            },
            Some((c, s)) => {
                let changed = !same_text(&c.hostname, &hostname);
                if changed {
                    c.hostname = hostname;
                    s.active_addr = None;
                    s.dns_ips.clear();
                }
                changed
            },
        };
        if changed {
            self.update_ips(handle);
            self.request_lookup(handle);
        }
        self.client_updated(handle);
        proof {
            let fix_ips = old(self)@.clients[handle].0.fix_ips;
            assert(all_ips(fix_ips, Seq::empty()) =~= fix_ips.to_set());
            assert(self@ =~= old(self)@.update_hostname(handle, chars(hostname)));
        }
    }

    /// Replaces the port of a client, and with it that of the address in use.
    pub fn update_port(&mut self, handle: ClientHandle, port: u16)
        ensures
            final(self)@ == old(self)@.update_port(handle, port),
    {
        if let Some((c, s)) = self.client_manager.get_mut(handle) {
            if c.port != port {
                c.port = port;
                s.active_addr = match s.active_addr {
                    Some(a) => Some(SocketAddr::new(a.ip(), port)),
                    None => None,
                };
            }
        }
        assert(self@ =~= old(self)@.update_port(handle, port));
    }

    /// Puts a client on a side of the screen. An active client is taken down on its
    /// old side and activated on the new one, in the place of the one there.
    pub fn update_pos(&mut self, handle: ClientHandle, pos: Position)
        ensures
            final(self)@ == old(self)@.update_pos(handle, pos),
    {
        let (changed, active) = match self.client_manager.get_mut(handle) {
            None => {
                assert(self@ =~= old(self)@);
                return;
            },
            Some((c, s)) => {
                let changed = c.pos != pos;
                c.pos = pos;
                (changed, s.active)
            },
        };
        if changed {
            self.deactivate_client(handle);
            if active {
                self.activate_client(handle);
            }
        } else {
            assert(self@ =~= old(self)@);
        }
    }

    /// Tells the frontends the state of a client, or that there is none.
    pub fn broadcast_client(&mut self, handle: ClientHandle)
        ensures
            final(self)@ == old(self)@.broadcast_client(handle),
    {
        let event = match self.client_manager.get(handle) {
            Some((config, state)) => FrontendEvent::State(handle, config.clone(), state.clone()),
            None => FrontendEvent::NoSuchClient(handle),
        };
        self.notify_frontend(event);
    }

    /// Notes whether input emulation is up and tells the frontends.
    pub fn set_emulation_status(&mut self, status: Status)
        ensures
            final(self)@ == old(self)@.set_emulation_status(status),
    {
        self.emulation_status = status;
        self.notify_frontend(FrontendEvent::EmulationStatus(status));
    }

    /// Notes whether input capture is up and tells the frontends.
    pub fn set_capture_status(&mut self, status: Status)
        ensures
            final(self)@ == old(self)@.set_capture_status(status),
    {
        self.capture_status = status;
        self.notify_frontend(FrontendEvent::CaptureStatus(status));
    }

    /// Notes whether the name of a client is being looked up, and tells the frontends.
    pub fn set_resolving(&mut self, handle: ClientHandle, status: bool)
        ensures
            final(self)@ == old(self)@.set_resolving(handle, status),
    {
        if let Some((_, s)) = self.client_manager.get_mut(handle) {
            s.resolving = status;
        }
        self.client_updated(handle);
        assert(self@ =~= old(self)@.set_resolving(handle, status));
    }

    /// The host name of a client.
    pub fn get_hostname(&self, handle: ClientHandle) -> (hostname: Option<String>)
        ensures
            chars(hostname) == self@.hostname_of(handle),
            chars(hostname) == if self@.clients.contains_key(handle) {
                self@.clients[handle].0.hostname
            } else {
                None
            },
    {
        match self.client_manager.get(handle) {
            Some((c, _)) => copy_text(&c.hostname),
            None => None,
        }
    }

    /// The address that data for a client is sent to.
    pub fn active_addr(&self, handle: ClientHandle) -> (addr: Option<SocketAddr>)
        ensures
            addr == self@.address_of(handle),
            addr == if self@.clients.contains_key(handle) {
                self@.clients[handle].1.active_addr
            } else {
                None
            },
    {
        match self.client_manager.get(handle) {
            Some((_, s)) => s.active_addr,
            None => None,
        }
    }

    /// Who has the pointer.
    pub fn get_state(&self) -> (state: State)
        ensures
            state == self@.state,
    {
        self.state
    }

    /// Notes who has the pointer.
    pub fn set_state(&mut self, state: State)
        ensures
            final(self)@ == (ServerView { state, ..old(self)@ }),
            final(self)@ == old(self)@.set_state(state),
    {
        self.state = state;
    }

    /// Notes which client has the pointer.
    pub fn set_active(&mut self, handle: Option<ClientHandle>)
        ensures
            final(self)@ == (ServerView { active_client: handle, ..old(self)@ }),
            final(self)@ == old(self)@.set_active(handle),
    {
        self.active_client = handle;
    }

    /// The client that has the pointer.
    pub fn active_client(&self) -> (handle: Option<ClientHandle>)
        ensures
            handle == self@.active_client,
    {
        self.active_client
    }

    /// The port to listen on.
    pub fn port(&self) -> (port: u16)
        ensures
            port == self@.port,
    {
        self.port
    }

    /// The keys that, held together, give the pointer back.
    pub fn release_bind(&self) -> (keys: &Vec<Scancode>)
        ensures
            keys@ == self@.release_bind,
    {
        &self.release_bind
    }

    /// The configuration that the service was started with.
    pub fn config(&self) -> (config: &Config)
        ensures
            config@ == self@.config,
    {
        &self.config
    }
}

} // verus!
