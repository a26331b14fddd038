//! Lifecycle decisions for the local `dsh web` service.
//!
//! The service either belongs to this application (we started it and hold
//! its process handle) or was started by someone else and is merely reused.
//! Only a service of the first kind is ever stopped by us.
//!
//! The application drives these decisions: it performs each requested action
//! (a health probe, an installation, a port choice, a spawn, a kill) and
//! hands the outcome back.

use vstd::prelude::*;
use crate::text::{decimal, u64_to_decimal};
use crate::config::PREFERRED_PORT;

verus! {

/// The event that carries a [`DshStatus`] to the front end.
pub const STATUS_EVENT: &'static str = "dsh://status";

/// What the front end is told about the service.
#[derive(Debug)]
pub struct DshStatus {
    pub running: bool,
    pub port: Option<u16>,
    pub url: Option<String>,
    pub owned_by_this_app: bool,
}

/// The mathematical content of a [`DshStatus`].
pub struct DshStatusView {
    pub running: bool,
    pub port: Option<u16>,
    pub url: Option<Seq<char>>,
    pub owned_by_this_app: bool,
}

impl View for DshStatus {
    type V = DshStatusView;

    open spec fn view(&self) -> DshStatusView {
        DshStatusView {
            running: self.running,
            port: self.port,
            url: match self.url {
                Some(u) => Some(u@),
                None => None,
            },
            owned_by_this_app: self.owned_by_this_app,
        }
    }
}

/// The address under which a service on `port` is reached.
pub open spec fn local_url(port: u16) -> Seq<char> {
    "http://127.0.0.1:"@ + decimal(port as nat)
}

/// The status of a service that is not running.
pub open spec fn stopped_view() -> DshStatusView {
    DshStatusView { running: false, port: None, url: None, owned_by_this_app: false }
}

/// The status of a service running on `port`.
pub open spec fn running_view(port: u16, owned: bool) -> DshStatusView {
    DshStatusView {
        running: true,
        port: Some(port),
        url: Some(local_url(port)),
        owned_by_this_app: owned,
    }
}

impl DshStatus {
    /// The status of a service that is not running.
    pub fn stopped() -> (s: DshStatus)
        ensures
            s@ == stopped_view(),
    {
        DshStatus { running: false, port: None, url: None, owned_by_this_app: false }
    }

    /// The status of a service running on `port`, reached at
    /// `http://127.0.0.1:<port>`.
    pub fn running_at(port: u16, owned: bool) -> (s: DshStatus)
        ensures
            s@ == running_view(port, owned),
    {
        let mut url = "http://127.0.0.1:".to_owned();
        let digits = u64_to_decimal(port as u64);
        url.append(digits.as_str());
        DshStatus { running: true, port: Some(port), url: Some(url), owned_by_this_app: owned }
    }
}


/// What the application knows about the service: the port it runs on, whether
/// we started it, and the handle of the process we started (of type `C`).
pub struct HarnessState<C> {
    pub port: Option<u16>,
    pub owned_by_this_app: bool,
    /// The process we started; `None` when nothing was started or an outside
    /// service is being reused.
    pub child: Option<C>,
}

/// The state after an outside service on the preferred port was adopted: no
/// process of ours is held while an outside service is in use.
pub open spec fn adopted<C>(s: HarnessState<C>) -> HarnessState<C> {
    HarnessState { port: Some(PREFERRED_PORT), owned_by_this_app: false, child: None }
}

/// The state after our own service was started on `port` as process `child`.
pub open spec fn spawned<C>(port: u16, child: C) -> HarnessState<C> {
    HarnessState { port: Some(port), owned_by_this_app: true, child: Some(child) }
}

/// The state with the service forgotten (the process handle, if any, kept).
pub open spec fn cleared<C>(s: HarnessState<C>) -> HarnessState<C> {
    HarnessState { port: None, owned_by_this_app: false, child: s.child }
}

/// The state with the process handle taken out.
pub open spec fn without_child<C>(s: HarnessState<C>) -> HarnessState<C> {
    HarnessState { port: s.port, owned_by_this_app: s.owned_by_this_app, child: None }
}

/// Whether leaving the application stops a process: whenever a process
/// handle is held (in a well-formed state, only of a service we own).
pub open spec fn exit_reclaims<C>(s: HarnessState<C>) -> bool {
    s.child is Some
}

/// Whether a restart first has to stop our own process.
pub open spec fn restart_needs_shutdown<C>(s: HarnessState<C>) -> bool {
    s.owned_by_this_app && s.child is Some
}

impl<C> HarnessState<C> {
    /// A service that we own always has a port, and a process handle is
    /// only held for a service that we own.
    pub open spec fn wf(self) -> bool {
        &&& self.owned_by_this_app ==> self.port is Some
        &&& self.child is Some ==> self.owned_by_this_app
    }

    /// The status that this state reports.
    pub open spec fn status_view(self) -> DshStatusView {
        match self.port {
            Some(p) => running_view(p, self.owned_by_this_app),
            None => stopped_view(),
        }
    }

    /// Nothing known, nothing started.
    pub fn new() -> (s: HarnessState<C>)
        ensures
            s.port is None,
            !s.owned_by_this_app,
            s.child is None,
            s.wf(),
    {
        HarnessState { port: None, owned_by_this_app: false, child: None }
    }

    /// The status reported for this state.
    pub fn status(&self) -> (s: DshStatus)
        ensures
            s@ == self.status_view(),
    {
        match self.port {
            Some(p) => DshStatus::running_at(p, self.owned_by_this_app),
            None => DshStatus::stopped(),
        }
    }
}


/// Where a launch stands: which answer it waits for.
#[derive(Debug, Clone, Copy, PartialEq, Eq, Structural)]
pub enum LaunchPhase {
    /// Not begun.
    Start,
    /// Waiting for the health probe of the port we already know.
    AwaitOwnProbe(u16),
    /// Waiting for the health probe of the preferred port.
    AwaitPreferredProbe,
    /// Waiting for the runtime installation.
    AwaitInstall,
    /// Waiting for a free port.
    AwaitPort,
    /// Waiting for the service started on this port to become ready.
    AwaitSpawn(u16),
    /// Done; the last action carried the result.
    Finished,
}

/// An answer handed back to a launch.
pub enum LaunchEvent<C, E> {
    /// Begin the launch.
    Begin,
    /// Whether a healthy service answered on the probed port.
    Alive(bool),
    /// The outcome of installing the runtime.
    Installed(Result<(), E>),
    /// The port chosen for a new service.
    PortPicked(Result<u16, E>),
    /// The outcome of starting the service and waiting for it.
    Spawned(Result<C, E>),
}

/// What the application has to do next for a launch.
pub enum LaunchAction<E> {
    /// Probe whether a healthy service answers on this port.
    ProbeAlive(u16),
    /// Make sure the runtime is installed.
    EnsureInstalled,
    /// Choose a port for a new service.
    PickPort,
    /// Start the service on this port and wait until it is ready.
    Spawn(u16),
    /// The launch is over: return `result`, first announcing the status when
    /// `emit` holds.
    Complete { result: Result<DshStatus, E>, emit: bool },
}

impl LaunchPhase {
    /// Whether `event` answers what this phase waits for.
    pub open spec fn accepts<C, E>(self, event: LaunchEvent<C, E>) -> bool {
        match self {
            LaunchPhase::Start => event is Begin,
            LaunchPhase::AwaitOwnProbe(_) => event is Alive,
            LaunchPhase::AwaitPreferredProbe => event is Alive,
            LaunchPhase::AwaitInstall => event is Installed,
            LaunchPhase::AwaitPort => event is PortPicked,
            LaunchPhase::AwaitSpawn(_) => event is Spawned,
            LaunchPhase::Finished => false,
        }
    }
}

/// The action that completes a launch with a success.
pub open spec fn completes_with<E>(act: LaunchAction<E>, status: DshStatusView, emit: bool) -> bool {
    &&& act matches LaunchAction::Complete { result: Ok(st), emit: e }
    &&& st@ == status
    &&& e == emit
}

/// The action that completes a launch with the error `err`, silently.
pub open spec fn fails_with<E>(act: LaunchAction<E>, err: E) -> bool {
    &&& act matches LaunchAction::Complete { result: Err(e), emit }
    &&& e == err
    &&& !emit
}

/// One step of starting or reusing the service.
///
/// In order: a service we already know of that still answers is kept; else a
/// healthy service on the preferred port is reused without being owned (and
/// no process handle is kept beside it); else
/// the runtime is installed, a port is chosen, and our own service is
/// started there and owned. Any failure ends the launch with that error and
/// leaves the state as it was.
pub fn launch_step<C, E>(
    state: &mut HarnessState<C>,
    phase: LaunchPhase,
    event: LaunchEvent<C, E>,
) -> (next: (LaunchPhase, LaunchAction<E>))
    requires
        phase.accepts(event),
    ensures
        old(state).wf() ==> final(state).wf(),
        // Ownership and a process handle are only ever gained by starting
        // our own service.
        final(state).owned_by_this_app && !old(state).owned_by_this_app ==> event is Spawned,
        final(state).child is Some ==> final(state).child == old(state).child
            || (event matches LaunchEvent::Spawned(Ok(c)) && final(state).child == Some(c)),
        ({
            let (np, act) = next;
            match phase {
                LaunchPhase::Start => {
                    &&& *final(state) == *old(state)
                    &&& match old(state).port {
                        Some(p) => np == LaunchPhase::AwaitOwnProbe(p)
                            && act == LaunchAction::<E>::ProbeAlive(p),
                        None => np == LaunchPhase::AwaitPreferredProbe
                            && act == LaunchAction::<E>::ProbeAlive(PREFERRED_PORT),
                    }
                },
                LaunchPhase::AwaitOwnProbe(_) => {
                    &&& *final(state) == *old(state)
                    &&& if event == LaunchEvent::<C, E>::Alive(true) {
                        np == LaunchPhase::Finished
                            && completes_with(act, old(state).status_view(), false)
                    } else {
                        np == LaunchPhase::AwaitPreferredProbe
                            && act == LaunchAction::<E>::ProbeAlive(PREFERRED_PORT)
                    }
                },
                LaunchPhase::AwaitPreferredProbe => {
                    if event == LaunchEvent::<C, E>::Alive(true) {
                        &&& *final(state) == adopted(*old(state))
                        &&& np == LaunchPhase::Finished
                        &&& completes_with(act, running_view(PREFERRED_PORT, false), true)
                    } else {
                        &&& *final(state) == *old(state)
                        &&& np == LaunchPhase::AwaitInstall
                        &&& act == LaunchAction::<E>::EnsureInstalled
                    }
                },
                LaunchPhase::AwaitInstall => {
                    &&& *final(state) == *old(state)
                    &&& match event {
                        LaunchEvent::Installed(Ok(())) => np == LaunchPhase::AwaitPort
                            && act == LaunchAction::<E>::PickPort,
                        LaunchEvent::Installed(Err(e)) => np == LaunchPhase::Finished
                            && fails_with(act, e),
                        _ => false,
                    }
                },
                LaunchPhase::AwaitPort => {
                    &&& *final(state) == *old(state)
                    &&& match event {
                        LaunchEvent::PortPicked(Ok(p)) => np == LaunchPhase::AwaitSpawn(p)
                            && act == LaunchAction::<E>::Spawn(p),
                        LaunchEvent::PortPicked(Err(e)) => np == LaunchPhase::Finished
                            && fails_with(act, e),
                        _ => false,
                    }
                },
                LaunchPhase::AwaitSpawn(p) => match event {
                    LaunchEvent::Spawned(Ok(c)) => {
                        &&& *final(state) == spawned(p, c)
                        &&& np == LaunchPhase::Finished
                        &&& completes_with(act, running_view(p, true), true)
                    },
                    LaunchEvent::Spawned(Err(e)) => {
                        &&& *final(state) == *old(state)
                        &&& np == LaunchPhase::Finished
                        &&& fails_with(act, e)
                    },
                    _ => false,
                },
                LaunchPhase::Finished => false,
            }
        }),
{
    match phase {
        LaunchPhase::Start => match state.port {
            Some(p) => (LaunchPhase::AwaitOwnProbe(p), LaunchAction::ProbeAlive(p)),
            None => (LaunchPhase::AwaitPreferredProbe, LaunchAction::ProbeAlive(PREFERRED_PORT)),
        },
        LaunchPhase::AwaitOwnProbe(_) => match event {
            LaunchEvent::Alive(true) => {
                let st = state.status();
                (LaunchPhase::Finished, LaunchAction::Complete { result: Ok(st), emit: false })
            },
            _ => (LaunchPhase::AwaitPreferredProbe, LaunchAction::ProbeAlive(PREFERRED_PORT)),
        },
        LaunchPhase::AwaitPreferredProbe => match event {
            LaunchEvent::Alive(true) => {
                state.port = Some(PREFERRED_PORT);
                state.owned_by_this_app = false;
                state.child = None;
                let st = state.status();
                (LaunchPhase::Finished, LaunchAction::Complete { result: Ok(st), emit: true })
            },
            _ => (LaunchPhase::AwaitInstall, LaunchAction::EnsureInstalled),
        },
        LaunchPhase::AwaitInstall => match event {
            LaunchEvent::Installed(Err(e)) => (
                LaunchPhase::Finished,
                LaunchAction::Complete { result: Err(e), emit: false },
            ),
            _ => (LaunchPhase::AwaitPort, LaunchAction::PickPort),
        },
        LaunchPhase::AwaitPort => match event {
            LaunchEvent::PortPicked(Ok(p)) => (LaunchPhase::AwaitSpawn(p), LaunchAction::Spawn(p)),
            LaunchEvent::PortPicked(Err(e)) => (
                LaunchPhase::Finished,
                LaunchAction::Complete { result: Err(e), emit: false },
            ),
            // Other events are ruled out by the precondition.
            _ => (LaunchPhase::Finished, LaunchAction::PickPort),
        },
        LaunchPhase::AwaitSpawn(p) => match event {
            LaunchEvent::Spawned(Ok(c)) => {
                state.port = Some(p);
                state.owned_by_this_app = true;
                state.child = Some(c);
                let st = state.status();
                (LaunchPhase::Finished, LaunchAction::Complete { result: Ok(st), emit: true })
            },
            LaunchEvent::Spawned(Err(e)) => (
                LaunchPhase::Finished,
                LaunchAction::Complete { result: Err(e), emit: false },
            ),
            // Other events are ruled out by the precondition.
            _ => (LaunchPhase::Finished, LaunchAction::PickPort),
        },
        // Ruled out by the precondition.
        LaunchPhase::Finished => (LaunchPhase::Finished, LaunchAction::PickPort),
    }
}


/// The first step of stopping the service.
pub enum ShutdownStart<C> {
    /// Stop this process (ours), then report back with [`shutdown_finish`].
    Kill(C),
    /// Nothing of ours ran; the service is forgotten and this status is to
    /// be announced.
    Done(DshStatus),
}

/// Begins stopping the service. A process we started is taken out of the
/// state to be stopped; a service started by someone else is only forgotten,
/// never stopped.
pub fn shutdown_begin<C>(state: &mut HarnessState<C>) -> (r: ShutdownStart<C>)
    ensures
        old(state).wf() ==> final(state).wf(),
        match old(state).child {
            Some(c) => r == ShutdownStart::Kill(c) && *final(state) == without_child(*old(state)),
            None => {
                &&& r matches ShutdownStart::Done(st)
                &&& st@ == stopped_view()
                &&& *final(state) == cleared(*old(state))
            },
        },
{
    match state.child.take() {
        Some(c) => ShutdownStart::Kill(c),
        None => {
            state.port = None;
            state.owned_by_this_app = false;
            ShutdownStart::Done(state.status())
        },
    }
}

/// Ends stopping the service once our process was stopped. On success the
/// service is forgotten and the returned status is to be announced; a failure
/// is handed back and the state kept.
pub fn shutdown_finish<C, E>(state: &mut HarnessState<C>, killed: Result<(), E>) -> (r: Result<DshStatus, E>)
    ensures
        old(state).wf() && old(state).child is None ==> final(state).wf(),
        match killed {
            Ok(()) => {
                &&& r matches Ok(st)
                &&& st@ == stopped_view()
                &&& *final(state) == cleared(*old(state))
            },
            Err(e) => r == Err::<DshStatus, E>(e) && *final(state) == *old(state),
        },
{
    match killed {
        Ok(()) => {
            state.port = None;
            state.owned_by_this_app = false;
            Ok(state.status())
        },
        Err(e) => Err(e),
    }
}

/// How a restart begins.
pub enum RestartStart {
    /// Our own process runs: shut it down first, then launch.
    ShutdownFirst,
    /// Nothing of ours runs: the service was forgotten; announce `announce`
    /// when it is there (the status changed to stopped), then launch.
    Relaunch { announce: Option<DshStatus> },
}

/// Begins a restart. Our own process is stopped first (the application runs
/// a shutdown and, if it succeeds, a launch). An outside service, or none, is
/// only forgotten, never stopped, and a launch follows; when that changed the
/// status, the stopped status is handed out to be announced.
pub fn restart_begin<C>(state: &mut HarnessState<C>) -> (r: RestartStart)
    ensures
        old(state).wf() ==> final(state).wf(),
        restart_needs_shutdown(*old(state)) ==> r is ShutdownFirst && *final(state) == *old(state),
        !restart_needs_shutdown(*old(state)) ==> {
            &&& *final(state) == cleared(*old(state))
            &&& r matches RestartStart::Relaunch { announce }
            &&& (announce is Some <==> old(state).port is Some)
            &&& (announce matches Some(st) ==> st@ == stopped_view())
        },
{
    let is_owned = state.owned_by_this_app && state.child.is_some();
    if is_owned {
        return RestartStart::ShutdownFirst;
    }
    let was_running = state.port.is_some();
    state.port = None;
    state.owned_by_this_app = false;
    if was_running {
        RestartStart::Relaunch { announce: Some(state.status()) }
    } else {
        RestartStart::Relaunch { announce: None }
    }
}

/// On leaving the application: takes out the process to stop, whenever one
/// is held. In a well-formed state that is only a process of ours; an outside
/// service is left alone.
pub fn exit_cleanup<C>(state: &mut HarnessState<C>) -> (r: Option<C>)
    ensures
        r == old(state).child,
        *final(state) == without_child(*old(state)),
        r is Some <==> exit_reclaims(*old(state)),
        old(state).wf() && r is Some ==> old(state).owned_by_this_app,
        old(state).wf() ==> final(state).wf(),
{
    state.child.take()
}

/// A reused outside service is never stopped by us: after it is adopted, no
/// process handle is held, neither leaving the application nor a restart
/// stops a process, and it is reported as running on the preferred port, not
/// owned.
pub proof fn reused_service_is_never_stopped<C>(s: HarnessState<C>)
    ensures
        adopted(s).child is None,
        adopted(s).wf(),
        !exit_reclaims(adopted(s)),
        !restart_needs_shutdown(adopted(s)),
        adopted(s).status_view() == running_view(PREFERRED_PORT, false),
{
}

/// The service we start is ours: leaving the application stops exactly that
/// process, a restart stops it first, and it is reported as owned.
pub proof fn started_service_is_reclaimed<C>(port: u16, child: C)
    ensures
        exit_reclaims(spawned(port, child)),
        restart_needs_shutdown(spawned(port, child)),
        spawned(port, child).child == Some(child),
        spawned(port, child).status_view() == running_view(port, true),
{
}

/// Only a process of ours is ever stopped on exit or before a restart.
pub proof fn only_owned_processes_are_stopped<C>(s: HarnessState<C>)
    requires
        s.wf(),
    ensures
        exit_reclaims(s) ==> s.owned_by_this_app,
        restart_needs_shutdown(s) ==> s.owned_by_this_app,
{
}

/// After a shutdown, or after a restart forgets an outside service (no
/// process handle is held then), the service is reported as stopped.
pub proof fn forgotten_service_reports_stopped<C>(s: HarnessState<C>)
    requires
        s.child is None,
    ensures
        cleared(s).status_view() == stopped_view(),
        cleared(s).wf(),
{
}

/// A status is running exactly when it has a port, and then it has the URL of
/// that port; in a well-formed state it reports ownership as the state holds it.
pub proof fn status_is_consistent<C>(s: HarnessState<C>)
    ensures
        s.status_view().running <==> s.port is Some,
        s.status_view().running <==> s.status_view().url is Some,
        s.status_view().port == s.port,
        s.port matches Some(p) ==> s.status_view().url == Some(local_url(p)),
        s.wf() ==> s.status_view().owned_by_this_app == s.owned_by_this_app,
{
}

} // verus!
