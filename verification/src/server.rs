//! Live-reload signalling between the rebuild orchestrator and connected
//! browser clients.
//!
//! The signal is a monotonically advancing version counter. The orchestrator
//! advances it after every successful rebuild; every client connection tracks
//! the last version it observed and owes its browser exactly one reload
//! notification per advance it sees.

use vstd::prelude::*;

verus! {

/// The shared "latest rebuild" token: a version counter advanced once per
/// successful rebuild. Single writer (the orchestrator); any number of
/// [`ReloadClient`] readers.
pub struct ReloadSignal {
    version: u64,
}

impl ReloadSignal {
    /// Create the signal, with no rebuild recorded yet.
    pub fn new() -> (s: ReloadSignal)
        ensures
            s.spec_version() == 0,
    {
        ReloadSignal { version: 0 }
    }

    /// The current token value.
    pub fn version(&self) -> (v: u64)
        ensures
            v == self.spec_version(),
    {
        self.version
    }

    /// Spec-level view of the current token value.
    pub closed spec fn spec_version(&self) -> u64 {
        self.version
    }

    /// Advance the token after a successful rebuild. Every attached client
    /// that polls afterwards observes exactly one change, however many
    /// advances happened since its last poll.
    pub fn notify(&mut self)
        requires
            old(self).spec_version() < u64::MAX,
        ensures
            final(self).spec_version() == old(self).spec_version() + 1,
    {
        self.version = self.version + 1;
    }
}

/// One client connection's view of the reload signal: the last version it
/// acknowledged.
pub struct ReloadClient {
    seen: u64,
}

impl ReloadClient {
    /// Spec-level view of the last acknowledged version.
    pub closed spec fn spec_seen(&self) -> u64 {
        self.seen
    }

    /// Attach a new client connection. The current token is acknowledged
    /// immediately, so a client that connects between two rebuilds is not
    /// sent a reload for changes that predate its connection.
    pub fn attach(signal: &ReloadSignal) -> (c: ReloadClient)
        ensures
            c.spec_seen() == signal.spec_version(),
    {
        ReloadClient::attach_at(signal.version())
    }

    /// Attach a new client connection that observed the given token value,
    /// for a transport that hands connections the value rather than the
    /// signal itself. The value is acknowledged immediately.
    pub fn attach_at(version: u64) -> (c: ReloadClient)
        ensures
            c.spec_seen() == version,
    {
        ReloadClient { seen: version }
    }

    /// Check whether the signal advanced since this client last looked. If it
    /// did, the new version is acknowledged and one reload notification is
    /// owed to the browser.
    pub fn poll(&mut self, signal: &ReloadSignal) -> (reload: bool)
        ensures
            reload == (signal.spec_version() != old(self).spec_seen()),
            final(self).spec_seen() == signal.spec_version(),
    {
        let version = signal.version();
        self.poll_at(version)
    }

    /// Check an observed token value against the last one this client
    /// acknowledged; on a change, the new value is acknowledged and one
    /// reload notification is owed to the browser.
    pub fn poll_at(&mut self, version: u64) -> (reload: bool)
        ensures
            reload == (version != old(self).spec_seen()),
            final(self).spec_seen() == version,
    {
        let changed = version != self.seen;
        self.seen = version;
        changed
    }
}

/// A client that attaches after a rebuild completed, and polls before any
/// further advance of the signal, is owed no reload: the token it acknowledged
/// on attach is still current.
pub proof fn lemma_attach_sees_no_stale_reload(signal: ReloadSignal)
    ensures
        forall|c: ReloadClient|
            c.spec_seen() == signal.spec_version() ==> (signal.spec_version() != c.spec_seen())
                == false,
{
}

/// One wake-up of a client connection's multi-source wait: whichever of the
/// shutdown signal, the reload signal and the client's own socket became
/// ready first.
#[derive(Clone, Copy, Debug, PartialEq, Eq, Structural)]
pub enum WsEvent {
    /// The global shutdown signal fired.
    Shutdown,
    /// The reload token advanced.
    ReloadChanged,
    /// The reload channel closed; no further advance can come.
    ReloadClosed,
    /// The previous push to the client exceeded its short timeout.
    SendTimedOut,
    /// The previous push to the client failed outright.
    SendFailed,
    /// The client sent a message of its own.
    ClientMessage,
    /// The client closed the connection; a normal termination.
    ClientClosed,
}

/// What the connection does next after a wake-up.
#[derive(Clone, Copy, Debug, PartialEq, Eq, Structural)]
pub enum WsAction {
    /// Tear the connection down.
    Stop,
    /// Push exactly one reload frame to the client, then wait again.
    SendReload,
    /// Wait again without sending anything.
    Continue,
}

/// The connection's reaction to each wake-up: a reload advance is pushed to
/// the client; shutdown, a closed reload channel and a client disconnect end
/// the connection; a push that failed or overran its short timeout marks the
/// connection broken and ends it too. Only chatter from the client is
/// tolerated.
pub open spec fn spec_ws_step(event: WsEvent) -> WsAction {
    match event {
        WsEvent::Shutdown => WsAction::Stop,
        WsEvent::ReloadChanged => WsAction::SendReload,
        WsEvent::ReloadClosed => WsAction::Stop,
        WsEvent::SendTimedOut => WsAction::Stop,
        WsEvent::SendFailed => WsAction::Stop,
        WsEvent::ClientMessage => WsAction::Continue,
        WsEvent::ClientClosed => WsAction::Stop,
    }
}

/// Decide a client connection's next action after one wake-up.
pub fn ws_step(event: WsEvent) -> (a: WsAction)
    ensures
        a == spec_ws_step(event),
{
    match event {
        WsEvent::Shutdown => WsAction::Stop,
        WsEvent::ReloadChanged => WsAction::SendReload,
        WsEvent::ReloadClosed => WsAction::Stop,
        WsEvent::SendTimedOut => WsAction::Stop,
        WsEvent::SendFailed => WsAction::Stop,
        WsEvent::ClientMessage => WsAction::Continue,
        WsEvent::ClientClosed => WsAction::Stop,
    }
}

} // verus!
