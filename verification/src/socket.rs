//! The configuration surface of a transport socket.
//!
//! Socket options are owned by the transport: reading or writing one is an
//! operation on the underlying resource, so nothing about their values can
//! be stated here. The trait only fixes the surface that socket handles
//! offer, for an application to implement over its transport.

use vstd::prelude::*;

use crate::error::TmqError;

verus! {

/// Configuration accessors and setters shared by all socket handles.
///
/// Each method reads or writes one option of the underlying transport
/// socket; the option names follow the transport's own documentation. Some
/// options only take effect when set before the socket is bound or
/// connected, which is the builders' business, not this trait's.
pub trait SocketExt {
    /// Accessor for the socket's linger period, in milliseconds.
    fn get_linger(&self) -> Result<i32, TmqError>;

    /// Setter for the socket's linger period, in milliseconds.
    fn set_linger(&self, value: i32) -> Result<(), TmqError>;

    /// Accessor for the outbound high-water mark, in messages.
    fn get_sndhwm(&self) -> Result<i32, TmqError>;

    /// Setter for the outbound high-water mark, in messages.
    fn set_sndhwm(&self, value: i32) -> Result<(), TmqError>;

    /// Accessor for the inbound high-water mark, in messages.
    fn get_rcvhwm(&self) -> Result<i32, TmqError>;

    /// Setter for the inbound high-water mark, in messages.
    fn set_rcvhwm(&self, value: i32) -> Result<(), TmqError>;

    /// Accessor for the router probe option.
    fn is_probe_router(&self) -> Result<bool, TmqError>;

    /// Setter for the router probe option.
    fn set_probe_router(&self, value: bool) -> Result<(), TmqError>;

    /// Whether the socket accepts IPv6 connections.
    fn is_ipv6(&self) -> Result<bool, TmqError>;

    /// Whether messages are only queued to completed connections.
    fn is_immediate(&self) -> Result<bool, TmqError>;

    /// Whether the socket acts as a plain-authentication server.
    fn is_plain_server(&self) -> Result<bool, TmqError>;

    /// Whether the socket keeps only the last inbound message.
    fn is_conflate(&self) -> Result<bool, TmqError>;

    /// Whether the socket acts as a curve-encryption server.
    fn is_curve_server(&self) -> Result<bool, TmqError>;

    /// Whether the socket acts as a GSSAPI server.
    fn is_gssapi_server(&self) -> Result<bool, TmqError>;

    /// Whether GSSAPI encryption is disabled.
    fn is_gssapi_plaintext(&self) -> Result<bool, TmqError>;

    /// Accessor for the maximum inbound message size, in bytes.
    fn get_maxmsgsize(&self) -> Result<i64, TmqError>;

    /// Accessor for the I/O thread affinity mask.
    fn get_affinity(&self) -> Result<u64, TmqError>;

    /// Accessor for the multicast data rate, in kilobits per second.
    fn get_rate(&self) -> Result<i32, TmqError>;

    /// Accessor for the multicast recovery interval, in milliseconds.
    fn get_recovery_ivl(&self) -> Result<i32, TmqError>;

    /// Accessor for the kernel send buffer size, in bytes.
    fn get_sndbuf(&self) -> Result<i32, TmqError>;

    /// Accessor for the kernel receive buffer size, in bytes.
    fn get_rcvbuf(&self) -> Result<i32, TmqError>;

    /// Accessor for the type-of-service bits on outbound packets.
    fn get_tos(&self) -> Result<i32, TmqError>;

    /// Accessor for the reconnection interval, in milliseconds.
    fn get_reconnect_ivl(&self) -> Result<i32, TmqError>;

    /// Accessor for the maximum reconnection interval, in milliseconds.
    fn get_reconnect_ivl_max(&self) -> Result<i32, TmqError>;

    /// Accessor for the maximum length of the queue of pending connections.
    fn get_backlog(&self) -> Result<i32, TmqError>;

    /// Accessor for the socket identity.
    fn get_identity(&self) -> Result<Vec<u8>, TmqError>;
}

} // verus!
