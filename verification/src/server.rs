//! The running/stopped state of the HTTP listener. At most one listener is up at a time:
//! the state holds the sending end of its shutdown signal exactly while it is marked as
//! running, and hands the receiving end to whoever runs the listener.

use vstd::prelude::*;
use tokio::sync::oneshot::Receiver;
use tokio::sync::oneshot::Sender;

verus! {

/// The port a fresh state is set to.
pub const DEFAULT_PORT: u16 = 3000;

/// The lowest port that `change_port` accepts: the ones below are reserved to the system.
pub const LOWEST_USER_PORT: u16 = 1024;

/// The sending end of a `tokio` one-shot channel, carried through as an opaque value.
#[verifier::external_type_specification]
#[verifier::external_body]
#[verifier::reject_recursive_types(T)]
pub struct ExSender<T>(Sender<T>);

/// The receiving end of a `tokio` one-shot channel, carried through as an opaque value.
#[verifier::external_type_specification]
#[verifier::external_body]
#[verifier::reject_recursive_types(T)]
pub struct ExReceiver<T>(Receiver<T>);

/// What awaiting a `tokio` one-shot receiver yields when its sender was dropped unused.
/// Declared because the receiver's type refers to it; no function here handles one.
#[verifier::external_type_specification]
#[verifier::external_body]
pub struct ExRecvError(tokio::sync::oneshot::error::RecvError);

/// Calls `tokio::sync::oneshot::channel` and returns both ends of the new channel.
/// Nothing is claimed of them.
#[verifier::external_body]
fn shutdown_channel() -> (ends: (Sender<()>, Receiver<()>)) {
    tokio::sync::oneshot::channel()
}

/// Calls `Sender::send` with the unit value, which consumes the sender and never waits.
/// The call fails only if the receiver is already gone, and then nobody is left to
/// notify: the outcome is dropped and nothing is claimed.
#[verifier::external_body]
fn fire(signal: Sender<()>) {
    let _ = signal.send(());
}

/// Why a lifecycle operation was refused.
#[derive(Clone, Copy, Debug, PartialEq, Eq, Structural)]
pub enum LifecycleError {
    /// `start` was called while a listener is up.
    AlreadyRunning,
    /// `stop` was called while no listener is up.
    NotRunning,
}

impl LifecycleError {
    /// The characters of the message.
    pub open spec fn text(&self) -> Seq<char> {
        match *self {
            LifecycleError::AlreadyRunning => "Server is already running"@,
            LifecycleError::NotRunning => "Server is not running"@,
        }
    }

    /// The message shown to the operator.
    pub fn message(&self) -> (text: String)
        ensures
            text@ == self.text(),
    {
        match self {
            LifecycleError::AlreadyRunning => String::from_str("Server is already running"),
            LifecycleError::NotRunning => String::from_str("Server is not running"),
        }
    }
}

/// Why a change of port was refused.
#[derive(Clone, Copy, Debug, PartialEq, Eq, Structural)]
pub enum PortError {
    /// The listener is up; it has to be stopped first.
    ServerRunning,
    /// The port is below `LOWEST_USER_PORT`.
    Reserved,
}

impl PortError {
    /// The characters of the message.
    pub open spec fn text(&self) -> Seq<char> {
        match *self {
            PortError::ServerRunning => "Please stop the server before changing the port."@,
            PortError::Reserved => "Invalid port number. Must be between 1024 and 65535."@,
        }
    }

    /// The message shown to the operator.
    pub fn message(&self) -> (text: String)
        ensures
            text@ == self.text(),
    {
        match self {
            PortError::ServerRunning => String::from_str(
                "Please stop the server before changing the port.",
            ),
            PortError::Reserved => String::from_str(
                "Invalid port number. Must be between 1024 and 65535.",
            ),
        }
    }
}

/// What the lifecycle state shows to the outside: whether a listener is up, and the port.
pub struct Lifecycle {
    pub running: bool,
    pub port: u16,
}

/// The lifecycle state of the one listener of this process.
pub struct ServerRuntimeState {
    running: bool,
    port: u16,
    shutdown_handle: Option<Sender<()>>,
}

impl View for ServerRuntimeState {
    type V = Lifecycle;

    closed spec fn view(&self) -> Lifecycle {
        Lifecycle { running: self.running, port: self.port }
    }
}

impl Default for ServerRuntimeState {
    /// A stopped state on the default port.
    fn default() -> (state: ServerRuntimeState)
        ensures
            state@ == (Lifecycle { running: false, port: DEFAULT_PORT }),
            state.handle() is None,
    {
        ServerRuntimeState::new()
    }
}

impl ServerRuntimeState {
    /// The shutdown handle is held exactly while the listener is marked as running.
    #[verifier::type_invariant]
    spec fn handle_matches_running(self) -> bool {
        self.running <==> self.shutdown_handle is Some
    }

    /// The shutdown handle held right now, if any.
    pub closed spec fn handle(&self) -> Option<Sender<()>> {
        self.shutdown_handle
    }

    /// A stopped state on the default port.
    pub fn new() -> (state: ServerRuntimeState)
        ensures
            state@ == (Lifecycle { running: false, port: DEFAULT_PORT }),
            state.handle() is None,
    {
        ServerRuntimeState { running: false, port: DEFAULT_PORT, shutdown_handle: None }
    }

    /// Whether a listener is up, and the port it was started on (or will be). The
    /// shutdown handle is held exactly while a listener is up.
    pub fn status(&self) -> (snapshot: (bool, u16))
        ensures
            snapshot == (self@.running, self@.port),
            self@.running <==> self.handle() is Some,
    {
        proof {
            use_type_invariant(self);
        }
        (self.running, self.port)
    }

    /// Marks the listener as running on `port` and returns the receiving end of a fresh
    /// shutdown signal, for the caller to run the listener with. Refused, with the state
    /// and the existing handle untouched, while a listener is up.
    pub fn start(&mut self, port: u16) -> (outcome: Result<Receiver<()>, LifecycleError>)
        ensures
            old(self)@.running ==> outcome == Err::<Receiver<()>, LifecycleError>(
                LifecycleError::AlreadyRunning,
            ) && *final(self) == *old(self),
            !old(self)@.running ==> outcome is Ok && final(self)@ == (Lifecycle {
                running: true,
                port,
            }) && final(self).handle() is Some,
    {
        if self.running {
            return Err(LifecycleError::AlreadyRunning);
        }
        let (signal, listener_end) = shutdown_channel();
        *self = ServerRuntimeState { running: true, port, shutdown_handle: Some(signal) };
        Ok(listener_end)
    }

    /// Marks the listener as stopped at once and fires its shutdown signal, which is
    /// thereby used up. Refused, with the state untouched, while no listener is up.
    pub fn stop(&mut self) -> (outcome: Result<(), LifecycleError>)
        ensures
            old(self)@.running ==> outcome == Ok::<(), LifecycleError>(()) && final(self)@ == (
            Lifecycle { running: false, port: old(self)@.port }) && final(self).handle() is None,
            !old(self)@.running ==> outcome == Err::<(), LifecycleError>(
                LifecycleError::NotRunning,
            ) && *final(self) == *old(self),
    {
        proof {
            use_type_invariant(&*self);
        }
        if !self.running {
            return Err(LifecycleError::NotRunning);
        }
        let mut previous = ServerRuntimeState {
            running: false,
            port: self.port,
            shutdown_handle: None,
        };
        std::mem::swap(self, &mut previous);
        let ServerRuntimeState { running: _, port: _, shutdown_handle } = previous;
        match shutdown_handle {
            Some(signal) => fire(signal),
            None => {},
        }
        Ok(())
    }

    /// Records that the listener has ended, whether it could not bind its port, was shut
    /// down or failed: the state is stopped, and a handle still held is dropped.
    pub fn listener_exited(&mut self)
        ensures
            final(self)@ == (Lifecycle { running: false, port: old(self)@.port }),
            final(self).handle() is None,
    {
        *self = ServerRuntimeState { running: false, port: self.port, shutdown_handle: None };
    }

    /// Sets the port for the next start. Refused while a listener is up, and for a port
    /// below `LOWEST_USER_PORT`; the state is then untouched.
    pub fn change_port(&mut self, port: u16) -> (outcome: Result<(), PortError>)
        ensures
            outcome == port_change(old(self)@, port),
            outcome is Ok ==> final(self)@ == (Lifecycle { running: false, port })
                && final(self).handle() is None,
            outcome is Err ==> *final(self) == *old(self),
    {
        proof {
            use_type_invariant(&*self);
        }
        if self.running {
            return Err(PortError::ServerRunning);
        }
        if port < LOWEST_USER_PORT {
            return Err(PortError::Reserved);
        }
        *self = ServerRuntimeState { running: false, port, shutdown_handle: None };
        Ok(())
    }
}

/// Whether a change to `port` is accepted in the state `state`, and if not, why.
pub open spec fn port_change(state: Lifecycle, port: u16) -> Result<(), PortError> {
    if state.running {
        Err(PortError::ServerRunning)
    } else if port < LOWEST_USER_PORT {
        Err(PortError::Reserved)
    } else {
        Ok(())
    }
}

} // verus!
