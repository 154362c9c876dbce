use philipshue::errors::BridgeErrorCode;
use philipshue::errors::BridgeErrorCode::{
    InternalError, LinkButtonNotPressed, MethodNotAvailableForResource, Other, SceneCouldNotBeRemoved,
    UnauthorizedUser,
};
use philipshue::errors::{BridgeError, HueError};
use philipshue::hue::Error;

#[test]
fn bridge_errors() {
    assert_eq!(BridgeErrorCode::from(101), LinkButtonNotPressed);
    assert_eq!(BridgeErrorCode::from(0), Other);
    assert_eq!(BridgeErrorCode::from(51234), Other);
    assert_eq!(BridgeErrorCode::from(4), MethodNotAvailableForResource);
    assert_eq!(SceneCouldNotBeRemoved.code(), 403);
    assert_eq!(InternalError.code(), 901);
}

#[test]
fn classify_is_total_and_one_to_one() {
    for n in 0..=u16::MAX {
        let c = BridgeErrorCode::from(n);
        if c != Other {
            assert_eq!(c.code(), n);
        }
    }
    assert_eq!(BridgeErrorCode::from(1), UnauthorizedUser);
    assert_eq!(BridgeErrorCode::from(65535), Other);
    assert_eq!(Other.code(), 0);
}

#[test]
fn bridge_error_is_classified() {
    let e = BridgeError { address: "/".to_string(), description: "link button not pressed".to_string(), code: 101 };
    assert_eq!(e.error(), LinkButtonNotPressed);
    let e = BridgeError { address: "/".to_string(), description: "odd".to_string(), code: 999 };
    assert_eq!(e.error(), Other);
}

#[test]
fn error_object_becomes_bridge_error() {
    let e = Error { address: "/lights/1".to_string(), description: "unreachable".to_string(), code: 304 };
    match HueError::from(e) {
        HueError::Bridge(b) => {
            assert_eq!(b.address, "/lights/1");
            assert_eq!(b.description, "unreachable");
            assert_eq!(b.code, 304);
            assert_eq!(b.error(), BridgeErrorCode::DeviceIsUnreachable);
        }
        other => panic!("unexpected {:?}", other),
    }
}
