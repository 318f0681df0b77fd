//! Ownership of the one handle to the driver's communication port.
//!
//! The operating system opens and closes the port; this module decides when
//! that may happen and keeps track of the handle, so that every handle that
//! was opened is handed back for closing exactly once.
use vstd::prelude::*;

verus! {

/// `HRESULT` of a port that does not exist: the driver is not loaded.
pub const E_FILE_NOT_FOUND: u32 = 0x8007_0002;
/// `HRESULT` of a caller that may not open the port.
pub const E_ACCESS_DENIED: u32 = 0x8007_0005;
/// `HRESULT` of a caller that lacks a required privilege.
pub const E_PRIVILEGE_NOT_HELD: u32 = 0x8007_0522;

/// Why a connection could not be made.
#[derive(Clone, Copy, Debug, PartialEq, Eq, Structural)]
pub enum ConnectError {
    DriverUnavailable,
    PermissionDenied,
    AlreadyConnected,
}

/// State of a connection manager.
#[derive(Clone, Copy, Debug, PartialEq, Eq, Structural)]
pub enum ConnState {
    /// No handle is held.
    Closed,
    /// A handle is held and usable.
    Open(u64),
    /// A handle is held, but an exchange over it failed: it must be closed
    /// before the port is used again.
    Lost(u64),
}

/// The translated form of an operating-system error met while opening the port.
pub open spec fn connect_error_of(code: u32) -> ConnectError {
    if code == E_ACCESS_DENIED || code == E_PRIVILEGE_NOT_HELD {
        ConnectError::PermissionDenied
    } else {
        ConnectError::DriverUnavailable
    }
}

pub open spec fn holds_handle(s: ConnState) -> bool {
    !(s is Closed)
}

/// The state after a connection attempt whose opening of the port gave `opened`.
pub open spec fn state_after_connect(s: ConnState, opened: Result<u64, u32>) -> ConnState {
    if holds_handle(s) {
        s
    } else {
        match opened {
            Ok(h) => ConnState::Open(h),
            Err(_) => ConnState::Closed,
        }
    }
}

/// What a connection attempt from state `s` returns.
pub open spec fn connect_result(s: ConnState, opened: Result<u64, u32>) -> Result<(), ConnectError> {
    if holds_handle(s) {
        Err(ConnectError::AlreadyConnected)
    } else {
        match opened {
            Ok(_) => Ok(()),
            Err(code) => Err(connect_error_of(code)),
        }
    }
}

/// The handle that disconnecting from state `s` hands back for closing.
pub open spec fn released_handle(s: ConnState) -> Option<u64> {
    match s {
        ConnState::Closed => None,
        ConnState::Open(h) => Some(h),
        ConnState::Lost(h) => Some(h),
    }
}

/// Translates an operating-system error met while opening the port.
pub fn translate_connect_error(code: u32) -> (r: ConnectError)
    ensures
        r == connect_error_of(code),
{
    if code == E_ACCESS_DENIED || code == E_PRIVILEGE_NOT_HELD {
        ConnectError::PermissionDenied
    } else {
        ConnectError::DriverUnavailable
    }
}

/// Sole owner of the handle to the driver's communication port.
pub struct ConnectionManager {
    state: ConnState,
}

impl ConnectionManager {
    pub closed spec fn state(&self) -> ConnState {
        self.state
    }

    pub open spec fn is_open_spec(&self) -> bool {
        holds_handle(self.state())
    }

    pub open spec fn is_usable_spec(&self) -> bool {
        self.state() is Open
    }

    /// A manager that holds no handle.
    pub fn new() -> (r: ConnectionManager)
        ensures
            r.state() == ConnState::Closed,
    {
        ConnectionManager { state: ConnState::Closed }
    }

    /// The current state.
    pub fn current(&self) -> (r: ConnState)
        ensures
            r == self.state(),
    {
        self.state
    }

    /// Whether a handle is held.
    pub fn is_open(&self) -> (r: bool)
        ensures
            r == self.is_open_spec(),
    {
        !matches!(self.state, ConnState::Closed)
    }

    /// Whether a handle is held and requests may be sent over it.
    pub fn is_usable(&self) -> (r: bool)
        ensures
            r == self.is_usable_spec(),
    {
        matches!(self.state, ConnState::Open(_))
    }

    /// The usable handle, if there is one.
    pub fn handle(&self) -> (r: Option<u64>)
        ensures
            r == (match self.state() {
                ConnState::Open(h) => Some(h),
                _ => None,
            }),
    {
        match self.state {
            ConnState::Open(h) => Some(h),
            _ => None,
        }
    }

    /// Whether the port may be opened now: it may not while a handle is held.
    /// The port is to be opened only after this returned `Ok`.
    pub fn ready_to_connect(&self) -> (r: Result<(), ConnectError>)
        ensures
            r == (if self.is_open_spec() {
                Err(ConnectError::AlreadyConnected)
            } else {
                Ok::<(), ConnectError>(())
            }),
    {
        if self.is_open() {
            Err(ConnectError::AlreadyConnected)
        } else {
            Ok(())
        }
    }

    /// Records the outcome of opening the port: the handle on success, the
    /// operating system's error code on failure.
    pub fn connect(&mut self, opened: Result<u64, u32>) -> (r: Result<(), ConnectError>)
        ensures
            r == connect_result(old(self).state(), opened),
            final(self).state() == state_after_connect(old(self).state(), opened),
    {
        if self.is_open() {
            return Err(ConnectError::AlreadyConnected);
        }
        match opened {
            Ok(h) => {
                self.state = ConnState::Open(h);
                Ok(())
            },
            Err(code) => Err(translate_connect_error(code)),
        }
    }

    /// Gives up the handle: it is returned for closing, and the manager holds
    /// none afterwards. On a manager that holds none this does nothing.
    pub fn disconnect(&mut self) -> (r: Option<u64>)
        ensures
            r == released_handle(old(self).state()),
            final(self).state() == ConnState::Closed,
    {
        let r = match self.state {
            ConnState::Closed => None,
            ConnState::Open(h) => Some(h),
            ConnState::Lost(h) => Some(h),
        };
        self.state = ConnState::Closed;
        r
    }

    /// Marks the handle as no longer usable after an exchange over it failed.
    pub fn mark_lost(&mut self)
        ensures
            final(self).state() == (match old(self).state() {
                ConnState::Open(h) => ConnState::Lost(h),
                s => s,
            }),
    {
        if let ConnState::Open(h) = self.state {
            self.state = ConnState::Lost(h);
        }
    }
}

/// A manager is open after one successful connection and closed after a
/// disconnection, which hands back its handle; a second connection is refused
/// while the handle is held; disconnecting a manager that holds no handle,
/// whether it never connected or was disconnected already, hands back nothing.
pub proof fn lemma_connection_discipline(h: u64, opened: Result<u64, u32>)
    ensures
        connect_result(ConnState::Closed, Ok(h)) == Ok::<(), ConnectError>(()),
        state_after_connect(ConnState::Closed, Ok(h)) == ConnState::Open(h),
        released_handle(state_after_connect(ConnState::Closed, Ok(h))) == Some(h),
        connect_result(ConnState::Open(h), opened) == Err::<(), ConnectError>(ConnectError::AlreadyConnected),
        state_after_connect(ConnState::Open(h), opened) == ConnState::Open(h),
        released_handle(ConnState::Closed) == None::<u64>,
{
}

} // verus!
