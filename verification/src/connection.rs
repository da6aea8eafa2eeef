//! Acquiring the client of the indexing service.
//!
//! One client is made before dispatch begins and shared by all tasks; it
//! sends independent requests and holds no state that a task could change.
//! A job for which no client can be had does not start.

use vstd::prelude::*;
use vstd::string::*;
use meilisearch_sdk::client::Client;
use meilisearch_sdk::errors::Error;
use crate::config::Input;
use crate::model::Event;

verus! {

/// Why no client of the indexing service could be had. Any of these ends the
/// job before a single record is sent.
#[derive(Debug, Clone, Copy, PartialEq, Eq, Hash, Structural)]
pub enum ConnectionError {
    /// The address is empty.
    MalformedAddress,
    /// The credential cannot be sent: it holds a control character.
    CredentialRejected,
    /// The client for the address could not be set up.
    Unreachable,
}

/// The errors of the indexing service's client library.
#[verifier::external_type_specification]
#[verifier::external_body]
pub struct ExError(Error);

/// A client of the indexing service, bound to one address and credential.
///
/// The client of the library is generic over a transport trait, which
/// leaves no way to declare it to the verifier; it is carried here as a
/// value that verified code cannot look into.
#[verifier::external_body]
pub struct RemoteIndexClient {
    /// The client itself, for the code that sends the requests.
    pub client: Client,
}

/// The address and the credential that a client is bound to, in this order.
pub uninterp spec fn bound_to(client: RemoteIndexClient) -> (Seq<char>, Seq<char>);

/// Whether a character may stand in the value of an HTTP header: anything
/// but the ASCII control characters, of which only the tab is allowed.
pub open spec fn sendable(c: char) -> bool {
    c == '\t' || (' ' <= c && c != '\u{7f}')
}

/// Whether a credential can be sent as the value of an HTTP header.
pub open spec fn header_safe(text: Seq<char>) -> bool {
    forall|i: int| 0 <= i < text.len() ==> sendable(#[trigger] text[i])
}

/// What is wrong with an address and a credential before any client is
/// made, if anything is.
pub open spec fn connection_fault(address: Seq<char>, credential: Seq<char>) -> Option<
    ConnectionError,
> {
    if address.len() == 0 {
        Some(ConnectionError::MalformedAddress)
    } else if !header_safe(credential) {
        Some(ConnectionError::CredentialRejected)
    } else {
        None
    }
}

/// Whether `text` can be sent as the value of an HTTP header.
pub fn is_header_safe(text: &str) -> (safe: bool)
    ensures
        safe == header_safe(text@),
{
    let n = text.unicode_len();
    let mut i: usize = 0;
    while i < n
        invariant
            n == text@.len(),
            i <= n,
            forall|j: int| 0 <= j < i ==> sendable(#[trigger] text@[j]),
        decreases n - i,
    {
        let c = text.get_char(i);
        if !(c == '\t' || (' ' <= c && c != '\u{7f}')) {
            return false;
        }
        i = i + 1;
    }
    true
}

/// Makes a client for the service at `address` with `Client::new` of
/// `meilisearch_sdk`, handing it `credential` as the API key.
///
/// `Client::new` puts the key into an `Authorization` header and fails
/// hard on a key that no header can hold, so such keys are kept out.
/// It contacts nobody. Whether it succeeds depends on what the HTTP and
/// TLS libraries find when they set themselves up, so success is not
/// promised; a client that it returns holds the address and the key that
/// it was given.
#[verifier::external_body]
fn connect(address: &str, credential: &str) -> (attempt: Result<RemoteIndexClient, Error>)
    requires
        header_safe(credential@),
    ensures
        attempt matches Ok(client) ==> bound_to(client) == (address@, credential@),
{
    Client::new(address, Some(credential)).map(|client| RemoteIndexClient { client })
}

/// Turns what the client library came back with into a connection or the
/// error of this library: whatever the library failed on, the service
/// cannot be reached through it.
pub fn connection_of(attempt: Result<RemoteIndexClient, Error>) -> (result: Result<
    RemoteIndexClient,
    ConnectionError,
>)
    ensures
        match attempt {
            Ok(client) => result == Ok::<RemoteIndexClient, ConnectionError>(client),
            Err(_) => result == Err::<RemoteIndexClient, ConnectionError>(
                ConnectionError::Unreachable,
            ),
        },
{
    match attempt {
        Ok(client) => Ok(client),
        Err(_) => Err(ConnectionError::Unreachable),
    }
}

/// Acquires the client for the service that `input` names.
///
/// An empty address and a credential that cannot be sent are refused before
/// any client is made. Otherwise the client library decides: the result is
/// a client for that address and credential, or `Unreachable`.
pub fn build_connection(input: &Input) -> (result: Result<RemoteIndexClient, ConnectionError>)
    ensures
        match connection_fault(input.address@, input.api@) {
            Some(fault) => result == Err::<RemoteIndexClient, ConnectionError>(fault),
            None => match result {
                Ok(client) => bound_to(client) == (input.address@, input.api@),
                Err(fault) => fault == ConnectionError::Unreachable,
            },
        },
{
    if input.address.as_str().is_empty() {
        return Err(ConnectionError::MalformedAddress);
    }
    if !is_header_safe(input.api.as_str()) {
        return Err(ConnectionError::CredentialRejected);
    }
    connection_of(connect(input.address.as_str(), input.api.as_str()))
}

/// The event that tells the scheduler how acquiring the client went.
pub fn connection_event(connection: &Result<RemoteIndexClient, ConnectionError>) -> (event: Event)
    ensures
        event == match *connection {
            Ok(_) => Event::Connected,
            Err(cause) => Event::ConnectionFailed(cause),
        },
{
    match connection {
        Ok(_) => Event::Connected,
        Err(cause) => Event::ConnectionFailed(*cause),
    }
}

} // verus!
