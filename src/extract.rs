//! Extraction of typed values from the connection context.
use std::sync::Arc;
use vstd::prelude::*;

use crate::socket::Socket;

verus! {

/// The string that `serde_json` decodes from a JSON text, if the text holds one.
pub uninterp spec fn json_string_of(raw: Seq<char>) -> Option<Seq<char>>;

/// Relies on `serde_json::from_str::<String>`: decodes a JSON string value,
/// and fails on any other text; the outcome depends on the text alone.
#[verifier::external_body]
fn decode_json_string(raw: &str) -> (r: Option<String>)
    ensures
        match r {
            Some(v) => json_string_of(raw@) == Some(v@),
            None => json_string_of(raw@) is None,
        },
{
    serde_json::from_str::<String>(raw).ok()
}

/// A value that can be decoded from the raw authentication payload.
pub trait FromAuthPayload: Sized {
    /// Whether `raw` decodes into a value of this type.
    spec fn decodable(raw: Seq<char>) -> bool;

    /// Whether `v` is what `raw` decodes to.
    spec fn decodes_to(raw: Seq<char>, v: Self) -> bool;

    fn from_auth_payload(raw: &str) -> (r: Option<Self>)
        ensures
            r is Some <==> Self::decodable(raw@),
            r matches Some(v) ==> Self::decodes_to(raw@, v),
    ;
}

impl FromAuthPayload for String {
    open spec fn decodable(raw: Seq<char>) -> bool {
        json_string_of(raw) is Some
    }

    open spec fn decodes_to(raw: Seq<char>, v: String) -> bool {
        json_string_of(raw) == Some(v@)
    }

    fn from_auth_payload(raw: &str) -> (r: Option<String>) {
        decode_json_string(raw)
    }
}

/// Extraction of a value from the connection context: the connected socket
/// and the optional raw authentication payload. A failure carries nothing,
/// and stops the handler from running.
pub trait FromConnectParts: Sized {
    /// Whether extraction succeeds on this context.
    spec fn accepts(s: Arc<Socket>, auth: Option<String>) -> bool;

    /// Whether `v` is a value that extraction may yield on this context.
    spec fn extracted(s: Arc<Socket>, auth: Option<String>, v: Self) -> bool;

    fn from_connect_parts(s: &Arc<Socket>, auth: &Option<String>) -> (r: Result<Self, ()>)
        ensures
            r is Ok <==> Self::accepts(*s, *auth),
            r matches Ok(v) ==> Self::extracted(*s, *auth, v),
    ;
}

/// Why an authentication payload gave no value.
#[derive(PartialEq, Eq, Structural, Debug, Clone, Copy)]
pub enum AuthError {
    /// The client sent no payload.
    Missing,
    /// The payload does not decode into the requested type.
    Malformed,
}

/// A shared handle on the connected socket. Its extraction never fails.
pub struct SocketRef(pub Arc<Socket>);

impl FromConnectParts for SocketRef {
    open spec fn accepts(s: Arc<Socket>, auth: Option<String>) -> bool {
        true
    }

    open spec fn extracted(s: Arc<Socket>, auth: Option<String>, v: SocketRef) -> bool {
        v.0 == s
    }

    fn from_connect_parts(s: &Arc<Socket>, auth: &Option<String>) -> (r: Result<SocketRef, ()>) {
        Ok(SocketRef(s.clone()))
    }
}

/// The decoded authentication payload. Extraction fails when the payload is
/// absent or does not decode into `T`.
pub struct Data<T>(pub T);

impl<T: FromAuthPayload> FromConnectParts for Data<T> {
    open spec fn accepts(s: Arc<Socket>, auth: Option<String>) -> bool {
        auth is Some && T::decodable(auth->Some_0@)
    }

    open spec fn extracted(s: Arc<Socket>, auth: Option<String>, v: Data<T>) -> bool {
        auth is Some && T::decodes_to(auth->Some_0@, v.0)
    }

    fn from_connect_parts(s: &Arc<Socket>, auth: &Option<String>) -> (r: Result<Data<T>, ()>) {
        match auth {
            Some(raw) => match T::from_auth_payload(raw.as_str()) {
                Some(v) => Ok(Data(v)),
                None => Err(()),
            },
            None => Err(()),
        }
    }
}

/// The outcome of decoding the authentication payload. Extraction never
/// fails: the handler runs and inspects the outcome itself.
pub struct TryData<T>(pub Result<T, AuthError>);

/// What a `TryData<T>` holds on a given payload.
pub open spec fn try_data_holds<T: FromAuthPayload>(
    auth: Option<String>,
    v: Result<T, AuthError>,
) -> bool {
    match auth {
        None => v == Err::<T, AuthError>(AuthError::Missing),
        Some(raw) => if T::decodable(raw@) {
            v matches Ok(x) && T::decodes_to(raw@, x)
        } else {
            v == Err::<T, AuthError>(AuthError::Malformed)
        },
    }
}

impl<T: FromAuthPayload> FromConnectParts for TryData<T> {
    open spec fn accepts(s: Arc<Socket>, auth: Option<String>) -> bool {
        true
    }

    open spec fn extracted(s: Arc<Socket>, auth: Option<String>, v: TryData<T>) -> bool {
        try_data_holds(auth, v.0)
    }

    fn from_connect_parts(s: &Arc<Socket>, auth: &Option<String>) -> (r: Result<TryData<T>, ()>) {
        match auth {
            Some(raw) => match T::from_auth_payload(raw.as_str()) {
                Some(v) => Ok(TryData(Ok(v))),
                None => Ok(TryData(Err(AuthError::Malformed))),
            },
            None => Ok(TryData(Err(AuthError::Missing))),
        }
    }
}

/// The optional-payload extractor accepts every context, whatever the payload
/// holds; the required-payload extractor rejects exactly the contexts whose
/// payload is absent or does not decode into `T`, and otherwise yields the
/// decoded value.
pub proof fn lemma_payload_extractors<T: FromAuthPayload>(s: Arc<Socket>, auth: Option<String>)
    ensures
        TryData::<T>::accepts(s, auth),
        !Data::<T>::accepts(s, auth) <==> (auth is None || !T::decodable(auth->Some_0@)),
        forall|v: Data<T>|
            #[trigger] Data::<T>::extracted(s, auth, v) ==> T::decodes_to(auth->Some_0@, v.0),
{
}

} // verus!
