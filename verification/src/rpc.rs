//! The decision layer of the remote, RPC-backed address.
//!
//! A remote address serializes a message, posts it over a network transport,
//! and deserializes the typed result; the wire work lives outside this
//! crate. What is verified here are the boundary's decisions: request
//! identifiers are assigned from a monotonically increasing counter, a
//! non-success status code is mapped to an address-level error rather than
//! parsed, and a response body resolves to its result or its error exactly
//! as the payload dictates.

use vstd::prelude::*;

verus! {

/// The error object a remote call can answer with.
#[derive(Clone, Debug, PartialEq, Eq)]
pub struct RpcError {
    /// The numeric error code of the response.
    pub code: i64,
    /// The human-readable message of the response.
    pub message: String,
}

/// What a remote call fails with before any payload is interpreted.
#[derive(Clone, Copy, Debug, PartialEq, Eq, Structural)]
pub enum RpcClientError {
    /// The transport answered with a non-success status code.
    NotSuccessCode(u16),
}

/// A remote call's response payload: a result or an error, echoing the
/// request's identifier.
#[derive(Clone, Debug, PartialEq, Eq)]
pub struct RpcResponse<T> {
    /// The protocol version the responder claims.
    pub jsonrpc: String,
    /// The call's result, when the call succeeded.
    pub result: Option<T>,
    /// The call's error, when the responder reports one.
    pub error: Option<RpcError>,
    /// The identifier of the request this answers.
    pub id: u64,
}

impl<T> RpcResponse<T> {
    /// Resolves the payload: a present result wins, a present error without
    /// a result is the call's error, and a response carrying neither is an
    /// empty success.
    pub fn into_result(self) -> (resolved: Result<Option<T>, RpcError>)
        ensures
            self.result is Some ==> resolved == Ok::<Option<T>, RpcError>(self.result),
            self.result is None ==> (self.error matches Some(e) ==> resolved == Err::<
                Option<T>,
                RpcError,
            >(e)),
            self.result is None && self.error is None ==> resolved == Ok::<Option<T>, RpcError>(
                Option::<T>::None,
            ),
    {
        match (self.result, self.error) {
            (Some(v), _) => Ok(Some(v)),
            (None, Some(e)) => Err(e),
            (None, None) => Ok(None),
        }
    }
}

/// The request-side state of a remote address: where it posts, what it
/// signs with, and the identifier counter.
pub struct RpcClient {
    /// The endpoint requests are posted to.
    pub url: String,
    /// The bearer-credential secret requests are signed with, if any.
    pub jwt_secret: Option<Vec<u8>>,
    /// The identifier the next request will carry.
    pub next_id: u64,
}

impl RpcClient {
    /// A client for the given endpoint, optionally signing with the given
    /// secret, counting identifiers from zero.
    pub fn new(url: String, jwt_secret: Option<Vec<u8>>) -> (client: Self)
        ensures
            client.url == url,
            client.jwt_secret == jwt_secret,
            client.next_id == 0,
    {
        RpcClient { url, jwt_secret, next_id: 0 }
    }

    /// Draws the next request identifier: each call returns the current
    /// counter value and advances it, so identifiers increase monotonically
    /// and no two requests of one client share one.
    pub fn next_request_id(&mut self) -> (id: u64)
        requires
            old(self).next_id < u64::MAX,
        ensures
            id == old(self).next_id,
            final(self).next_id == old(self).next_id + 1,
            final(self).url == old(self).url,
            final(self).jwt_secret == old(self).jwt_secret,
    {
        let id = self.next_id;
        self.next_id = self.next_id + 1;
        id
    }
}

/// Whether a transport status code counts as success: only then is the
/// response body interpreted at all.
pub fn status_is_success(status: u16) -> (success: bool)
    ensures
        success == (200 <= status && status < 300),
{
    200 <= status && status < 300
}

/// Maps a transport status to the decision a remote call takes on it: a
/// success status lets the payload through, any other resolves to
/// `NotSuccessCode` carrying that status.
pub fn check_status(status: u16) -> (decision: Result<(), RpcClientError>)
    ensures
        200 <= status && status < 300 ==> decision == Ok::<(), RpcClientError>(()),
        !(200 <= status && status < 300) ==> decision == Err::<(), RpcClientError>(
            RpcClientError::NotSuccessCode(status),
        ),
{
    if status_is_success(status) {
        Ok(())
    } else {
        Err(RpcClientError::NotSuccessCode(status))
    }
}

} // verus!
