use std::sync::Arc;

use socketioxide::extract::{AuthError, Data, FromAuthPayload, FromConnectParts, SocketRef, TryData};
use socketioxide::socket::Socket;

fn socket(id: u64) -> Arc<Socket> {
    Arc::new(Socket::new(id))
}

#[test]
fn socket_ref_shares_the_socket() {
    let s = socket(7);
    let r = SocketRef::from_connect_parts(&s, &None).unwrap();
    assert!(Arc::ptr_eq(&r.0, &s));
    assert_eq!(r.0.id, 7);
    let r = SocketRef::from_connect_parts(&s, &Some("not json".to_string())).unwrap();
    assert_eq!(r.0.id, 7);
}

#[test]
fn string_payload_is_decoded_from_json() {
    assert_eq!(String::from_auth_payload("\"a\\nb\""), Some("a\nb".to_string()));
    assert_eq!(String::from_auth_payload("\"\""), Some(String::new()));
    assert_eq!(String::from_auth_payload("plain"), None);
    assert_eq!(String::from_auth_payload("42"), None);
    assert_eq!(String::from_auth_payload(""), None);
}

#[test]
fn data_fails_without_payload() {
    let r = Data::<String>::from_connect_parts(&socket(1), &None);
    assert!(r.is_err());
}

#[test]
fn data_fails_on_malformed_payload() {
    let r = Data::<String>::from_connect_parts(&socket(1), &Some("{\"token\"".to_string()));
    assert!(r.is_err());
    let r = Data::<String>::from_connect_parts(&socket(1), &Some("{\"token\": 1}".to_string()));
    assert!(r.is_err());
}

#[test]
fn data_yields_decoded_payload() {
    let r = Data::<String>::from_connect_parts(&socket(1), &Some("\"secret\"".to_string()));
    match r {
        Ok(Data(v)) => assert_eq!(v, "secret"),
        Err(()) => panic!("extraction failed"),
    }
}

#[test]
fn try_data_never_fails() {
    let missing = TryData::<String>::from_connect_parts(&socket(1), &None);
    match missing {
        Ok(TryData(inner)) => assert_eq!(inner, Err(AuthError::Missing)),
        Err(()) => panic!("extraction failed"),
    }
    let malformed = TryData::<String>::from_connect_parts(&socket(1), &Some("oops".to_string()));
    match malformed {
        Ok(TryData(inner)) => assert_eq!(inner, Err(AuthError::Malformed)),
        Err(()) => panic!("extraction failed"),
    }
    let good = TryData::<String>::from_connect_parts(&socket(1), &Some("\"ok\"".to_string()));
    match good {
        Ok(TryData(inner)) => assert_eq!(inner, Ok("ok".to_string())),
        Err(()) => panic!("extraction failed"),
    }
}
