//! Capability handles, control proxies, and the session adapter.
//!
//! A publishing client hands the broker a transferable capability handle to
//! its controllable session.  The broker converts the handle into a callable
//! control proxy (conversion is fallible) and wraps the proxy, together with
//! the freshly allocated identifier, in a [`Session`] adapter — the unit the
//! registry stores and controls.

use vstd::prelude::*;

verus! {

/// A callable control proxy for one published session, obtained by
/// converting a [`CapabilityHandle`].  The broker only stores and forwards
/// the proxy, never interprets it, so a plain handle value suffices to
/// identify which remote resource it controls.
#[derive(Clone, Copy, PartialEq, Eq, Structural, Debug)]
pub struct ControlProxy {
    pub handle: u64,
}

/// The error a publish call reports when its capability handle cannot be
/// converted into a control proxy.
#[derive(Clone, Copy, PartialEq, Eq, Structural, Debug)]
pub struct ConversionError;

/// A transferable reference to a remote controllable session, exchanged once
/// at publish time.  `handle` names the remote resource; `convertible` says
/// whether converting it into a [`ControlProxy`] will succeed.
#[derive(Clone, Copy, PartialEq, Eq, Structural, Debug)]
pub struct CapabilityHandle {
    pub handle: u64,
    pub convertible: bool,
}

/// The proxy that converting a capability handle yields when it succeeds.
pub open spec fn proxy_for(h: CapabilityHandle) -> ControlProxy {
    ControlProxy { handle: h.handle }
}

impl CapabilityHandle {
    /// A handle whose conversion into a proxy will succeed.
    pub fn new(handle: u64) -> (h: CapabilityHandle)
        ensures
            h == (CapabilityHandle { handle, convertible: true }),
    {
        CapabilityHandle { handle, convertible: true }
    }

    /// A handle whose conversion into a proxy will fail, as a handle whose
    /// underlying connection is already dead would.
    pub fn defective(handle: u64) -> (h: CapabilityHandle)
        ensures
            h == (CapabilityHandle { handle, convertible: false }),
    {
        CapabilityHandle { handle, convertible: false }
    }

    /// Convert this handle into a callable control proxy.  Succeeds exactly
    /// when the handle is convertible; failure carries no payload and aborts
    /// only the publish call that attempted it.
    pub fn into_proxy(self) -> (r: Result<ControlProxy, ConversionError>)
        ensures
            self.convertible ==> r == Ok::<ControlProxy, ConversionError>(proxy_for(self)),
            !self.convertible ==> r == Err::<ControlProxy, ConversionError>(ConversionError),
    {
        if self.convertible {
            Ok(ControlProxy { handle: self.handle })
        } else {
            Err(ConversionError)
        }
    }
}

/// The session adapter: one live published session as the rest of the system
/// sees it.  It pairs the assigned identifier with the retained control
/// proxy; the registry stores it, and commands to the session go through its
/// proxy.  Construction is cheap and performs no I/O, since it runs inline
/// in the critical path of a publish call.
#[derive(Clone, Copy, PartialEq, Eq, Structural, Debug)]
pub struct Session {
    pub id: u64,
    pub proxy: ControlProxy,
}

impl Session {
    /// Build the adapter for a freshly allocated identifier and a converted
    /// control proxy.
    pub fn new(id: u64, proxy: ControlProxy) -> (s: Session)
        ensures
            s == (Session { id, proxy }),
    {
        Session { id, proxy }
    }
}

} // verus!
