//! Entry point for the application logic.

use vstd::prelude::*;
use crate::stream::ConnectionInfoProvider;
use crate::stream::SocketAddress;
use crate::ws::websocket::Websocket;

verus! {

/// Declares `std::io::Error` as an opaque type. The service never looks
/// into an endpoint's error; it only tells success from failure.
#[verifier::external_type_specification]
#[verifier::external_body]
pub struct ExIoError(std::io::Error);

/// Whether a call left the value behind a reference as it found it.
pub open spec fn unchanged<E: ?Sized>(before: &E, after: &E) -> bool {
    before == after
}

/// Entry point for the application logic. Endpoints are registered with and
/// managed by the I/O service.
pub trait Endpoint: ConnectionInfoProvider {
    /// The protocol and stream this endpoint operates on.
    type Target;

    /// Called by the service to create the connection to the resolved
    /// `addr`. An endpoint that does not want to connect yet returns
    /// `Ok(None)` and is asked again later, possibly with another address.
    fn create_target(&mut self, addr: SocketAddress) -> std::io::Result<Option<Self::Target>>;

    /// Called by the service on each duty cycle.
    fn poll(&mut self, target: &mut Self::Target) -> std::io::Result<()>;

    /// Asked after every disconnect. A refusal is fatal for the slot. Unless
    /// an endpoint says otherwise it may always be recreated, and asking
    /// changes nothing.
    fn can_recreate(&mut self) -> (allowed: bool)
        default_ensures
            allowed,
            unchanged(old(self), final(self)),
    {
        true
    }

    /// Asked before the service disconnects on the auto-disconnect timer.
    /// On a refusal the service moves the slot's next disconnect time on by
    /// the configured interval. Unless an endpoint says otherwise it
    /// consents, and asking changes nothing.
    fn can_auto_disconnect(&mut self) -> (allowed: bool)
        default_ensures
            allowed,
            unchanged(old(self), final(self)),
    {
        true
    }
}

/// Marks the type an application registers with the service as context.
pub trait Context {

}

/// Entry point for application logic that shares a context `C`, which the
/// service hands to every call.
pub trait EndpointWithContext<C>: ConnectionInfoProvider {
    /// The protocol and stream this endpoint operates on.
    type Target;

    /// Called by the service to create the connection to the resolved
    /// `addr`. An endpoint that does not want to connect yet returns
    /// `Ok(None)` and is asked again later, possibly with another address.
    fn create_target(&mut self, addr: SocketAddress, context: &mut C) -> std::io::Result<
        Option<Self::Target>,
    >;

    /// Called by the service on each duty cycle.
    fn poll(&mut self, target: &mut Self::Target, context: &mut C) -> std::io::Result<()>;

    /// Asked after every disconnect. A refusal is fatal for the slot. Unless
    /// an endpoint says otherwise it may always be recreated, and asking
    /// changes nothing.
    fn can_recreate(&mut self, _context: &mut C) -> (allowed: bool)
        default_ensures
            allowed,
            unchanged(old(self), final(self)),
            *final(_context) == *old(_context),
    {
        true
    }

    /// Asked before the service disconnects on the auto-disconnect timer.
    /// On a refusal the service moves the slot's next disconnect time on by
    /// the configured interval. Unless an endpoint says otherwise it
    /// consents, and asking changes nothing.
    fn can_auto_disconnect(&mut self, _context: &mut C) -> (allowed: bool)
        default_ensures
            allowed,
            unchanged(old(self), final(self)),
            *final(_context) == *old(_context),
    {
        true
    }
}

/// A websocket engine together with the TLS stream that carries it.
#[derive(Debug)]
pub struct TlsWebsocket<S> {
    /// The stream the service reads from and writes to.
    pub stream: S,
    /// The protocol engine of the connection.
    pub websocket: Websocket,
}

/// An endpoint that speaks websocket over TLS.
pub trait TlsWebsocketEndpoint: ConnectionInfoProvider {
    /// The transport below TLS.
    type Stream;

    /// Creates the websocket to the resolved `addr`, or defers with `Ok(None)`.
    fn create_websocket(&mut self, addr: SocketAddress) -> std::io::Result<
        Option<TlsWebsocket<Self::Stream>>,
    >;

    /// Called by the service on each duty cycle.
    fn poll(&mut self, ws: &mut TlsWebsocket<Self::Stream>) -> std::io::Result<()>;

    /// Asked after every disconnect. A refusal is fatal for the slot. Unless
    /// an endpoint says otherwise it may always be recreated, and asking
    /// changes nothing.
    fn can_recreate(&mut self) -> (allowed: bool)
        default_ensures
            allowed,
            unchanged(old(self), final(self)),
    {
        true
    }

    /// Asked before the service disconnects on the auto-disconnect timer.
    /// Unless an endpoint says otherwise it consents, and asking changes
    /// nothing.
    fn can_auto_disconnect(&mut self) -> (allowed: bool)
        default_ensures
            allowed,
            unchanged(old(self), final(self)),
    {
        true
    }
}

impl<T> Endpoint for T where T: TlsWebsocketEndpoint {
    type Target = TlsWebsocket<T::Stream>;

    #[inline]
    fn create_target(&mut self, addr: SocketAddress) -> std::io::Result<Option<Self::Target>> {
        TlsWebsocketEndpoint::create_websocket(self, addr)
    }

    #[inline]
    fn poll(&mut self, target: &mut Self::Target) -> std::io::Result<()> {
        TlsWebsocketEndpoint::poll(self, target)
    }

    #[inline]
    fn can_recreate(&mut self) -> bool {
        TlsWebsocketEndpoint::can_recreate(self)
    }

    #[inline]
    fn can_auto_disconnect(&mut self) -> bool {
        TlsWebsocketEndpoint::can_auto_disconnect(self)
    }
}

/// An endpoint that speaks websocket over TLS and shares a context `C`.
pub trait TlsWebsocketEndpointWithContext<C>: ConnectionInfoProvider {
    /// The transport below TLS.
    type Stream;

    /// Creates the websocket to the resolved `addr`, or defers with `Ok(None)`.
    fn create_websocket(&mut self, addr: SocketAddress, ctx: &mut C) -> std::io::Result<
        Option<TlsWebsocket<Self::Stream>>,
    >;

    /// Called by the service on each duty cycle.
    fn poll(&mut self, ws: &mut TlsWebsocket<Self::Stream>, ctx: &mut C) -> std::io::Result<()>;

    /// Asked after every disconnect. A refusal is fatal for the slot. Unless
    /// an endpoint says otherwise it may always be recreated, and asking
    /// changes nothing.
    fn can_recreate(&mut self, _ctx: &mut C) -> (allowed: bool)
        default_ensures
            allowed,
            unchanged(old(self), final(self)),
            *final(_ctx) == *old(_ctx),
    {
        true
    }

    /// Asked before the service disconnects on the auto-disconnect timer.
    /// Unless an endpoint says otherwise it consents, and asking changes
    /// nothing.
    fn can_auto_disconnect(&mut self, _ctx: &mut C) -> (allowed: bool)
        default_ensures
            allowed,
            unchanged(old(self), final(self)),
            *final(_ctx) == *old(_ctx),
    {
        true
    }
}

impl<T, C> EndpointWithContext<C> for T where T: TlsWebsocketEndpointWithContext<C> {
    type Target = TlsWebsocket<T::Stream>;

    #[inline]
    fn create_target(&mut self, addr: SocketAddress, context: &mut C) -> std::io::Result<
        Option<Self::Target>,
    > {
        TlsWebsocketEndpointWithContext::create_websocket(self, addr, context)
    }

    #[inline]
    fn poll(&mut self, target: &mut Self::Target, context: &mut C) -> std::io::Result<()> {
        TlsWebsocketEndpointWithContext::poll(self, target, context)
    }

    #[inline]
    fn can_recreate(&mut self, context: &mut C) -> bool {
        TlsWebsocketEndpointWithContext::can_recreate(self, context)
    }

    #[inline]
    fn can_auto_disconnect(&mut self, context: &mut C) -> bool {
        TlsWebsocketEndpointWithContext::can_auto_disconnect(self, context)
    }
}

} // verus!
