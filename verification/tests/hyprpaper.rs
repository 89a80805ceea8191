use hw_rs::error::HyprwireError;
use hw_rs::hyprpaper::{
    HyprpaperIPC, HyprpaperIPCHandshake, HyprpaperMethodId, HyprpaperSession, HyprwireMethodId,
    SessionNext, SessionState,
};
use hw_rs::message::HWMessage;
use hw_rs::payload::HWPayload;
use hw_rs::types::{HWMagic, HWMessageKind, HWValue};

fn versions_reply(versions: &[u32]) -> Vec<u8> {
    HWMessage {
        kind: HWMessageKind::HandshakeBegin,
        payload: vec![HWPayload::from_magic_value(HWMagic::Array, HWValue::ArrayUint(versions.to_vec()))],
    }
    .finalize()
}

fn protocols_reply(names: &[&str]) -> Vec<u8> {
    HWMessage {
        kind: HWMessageKind::HandshakeProtocols,
        payload: vec![HWPayload::from_magic_value(
            HWMagic::Array,
            HWValue::ArrayVarchar(names.iter().map(|s| s.to_string()).collect()),
        )],
    }
    .finalize()
}

fn new_object_reply(id: u32) -> Vec<u8> {
    HWMessage { kind: HWMessageKind::NewObject, payload: vec![HWPayload::compose_uint(id)] }.finalize()
}

#[test]
fn method_ids() {
    assert_eq!(HyprwireMethodId::GetWallpaperObject.to_u32(), 0);
    assert_eq!(HyprpaperMethodId::SetWallpaperPath.to_u32(), 0);
    assert_eq!(HyprpaperMethodId::SetTargetMonitor.to_u32(), 2);
    assert_eq!(HyprpaperMethodId::Apply.to_u32(), 3);
}

#[test]
fn hw_protocol_accepts_offered_version() {
    let m = HWMessage::decode(&versions_reply(&[1, 2])).ok().unwrap();
    assert!(matches!(HyprpaperIPC::get_hw_protocol(&m, 1), Ok(1)));
    assert!(matches!(HyprpaperIPC::get_hw_protocol(&m, 3), Err(HyprwireError::SocketProtocolError)));
}

#[test]
fn hw_protocol_rejects_wrong_messages() {
    let m = HWMessage::decode(&new_object_reply(1)).ok().unwrap();
    assert!(matches!(HyprpaperIPC::get_hw_protocol(&m, 1), Err(HyprwireError::SocketProtocolError)));
    let m = HWMessage { kind: HWMessageKind::HandshakeBegin, payload: vec![] };
    assert!(matches!(HyprpaperIPC::get_hw_protocol(&m, 1), Err(HyprwireError::SocketProtocolError)));
    let m = HWMessage { kind: HWMessageKind::HandshakeBegin, payload: vec![HWPayload::compose_uint(1)] };
    assert!(matches!(HyprpaperIPC::get_hw_protocol(&m, 1), Err(HyprwireError::SocketProtocolError)));
}

#[test]
fn requested_paper_version_reads_number_after_at_sign() {
    assert!(matches!(HyprpaperIPC::requested_paper_version("hyprpaper_core@2"), Ok(2)));
    assert!(matches!(HyprpaperIPC::requested_paper_version("a@+17"), Ok(17)));
    assert!(matches!(HyprpaperIPC::requested_paper_version("a@007"), Ok(7)));
    assert!(matches!(HyprpaperIPC::requested_paper_version("a@4294967295"), Ok(4294967295)));
    assert!(matches!(HyprpaperIPC::requested_paper_version("a@1@2"), Err(HyprwireError::HyprpaperGetProtocolUintParseFailure)));
}

#[test]
fn requested_paper_version_errors() {
    assert!(matches!(
        HyprpaperIPC::requested_paper_version("hyprpaper_core"),
        Err(HyprwireError::HyprpaperGetProtocolInvalidVersionStr)
    ));
    for bad in ["a@", "a@x", "a@-1", "a@+", "a@4294967296", "a@ 2"] {
        assert!(matches!(
            HyprpaperIPC::requested_paper_version(bad),
            Err(HyprwireError::HyprpaperGetProtocolUintParseFailure)
        ));
    }
}

#[test]
fn paper_protocol_accepts_offered_protocol() {
    let m = HWMessage::decode(&protocols_reply(&["other@1", "hyprpaper_core@2"])).ok().unwrap();
    assert!(matches!(HyprpaperIPC::get_paper_protocol(&m, "hyprpaper_core@2", 2), Ok(2)));
    assert!(matches!(
        HyprpaperIPC::get_paper_protocol(&m, "hyprpaper_core@3", 3),
        Err(HyprwireError::SocketProtocolError)
    ));
    let m = HWMessage::decode(&versions_reply(&[1])).ok().unwrap();
    assert!(matches!(
        HyprpaperIPC::get_paper_protocol(&m, "hyprpaper_core@2", 2),
        Err(HyprwireError::SocketProtocolError)
    ));
}

#[test]
fn manager_and_wallpaper_objects() {
    let m = HWMessage::decode(&new_object_reply(5)).ok().unwrap();
    assert!(matches!(HyprpaperIPC::get_manager_object(&m), Ok(5)));
    assert!(matches!(HyprpaperIPC::get_wallpaper_object(&m), Ok(5)));
    let empty = HWMessage { kind: HWMessageKind::NewObject, payload: vec![] };
    assert!(matches!(HyprpaperIPC::get_manager_object(&empty), Err(HyprwireError::HyprpaperGetManagerObjNoPayload)));
    assert!(matches!(HyprpaperIPC::get_wallpaper_object(&empty), Err(HyprwireError::HyprpaperGetWallpaperObjNoPayload)));
    let wrong = HWMessage { kind: HWMessageKind::NewObject, payload: vec![HWPayload::compose_int(5)] };
    assert!(matches!(HyprpaperIPC::get_manager_object(&wrong), Err(HyprwireError::HyprpaperGetManagerObjId)));
    assert!(matches!(HyprpaperIPC::get_wallpaper_object(&wrong), Err(HyprwireError::HyprpaperGetWallpaperObjId)));
    let other = HWMessage::decode(&versions_reply(&[1])).ok().unwrap();
    assert!(matches!(HyprpaperIPC::get_manager_object(&other), Err(HyprwireError::SocketProtocolError)));
}

#[test]
fn session_sets_wallpaper_with_expected_replies() {
    let mut session = HyprpaperSession::new("/path/to/wallpaper.jpg", "DP-2");
    assert_eq!(session.state, SessionState::Connected);

    let a = session.start();
    assert_eq!(a.send, vec![HWMessage::template_sup().finalize()]);
    assert!(matches!(a.next, SessionNext::Receive));

    let a = session.receive(&versions_reply(&[1]));
    assert_eq!(a.send, vec![HWMessage::template_hs_ack(1).finalize()]);
    assert!(matches!(a.next, SessionNext::Receive));
    assert_eq!(session.state, SessionState::AwaitingPaperProtocols { requested: 2 });

    let a = session.receive(&protocols_reply(&["hyprpaper_core@2"]));
    assert_eq!(a.send, vec![HWMessage::template_bind_protocol(1, "hyprpaper_core", 2).finalize()]);
    assert!(matches!(a.next, SessionNext::Receive));

    let a = session.receive(&new_object_reply(5));
    assert_eq!(
        a.send,
        vec![HWMessage::template_generic(5, 0, vec![HWPayload::compose_seq(1)]).finalize()]
    );
    assert_eq!(session.state, SessionState::AwaitingWallpaper { seq: 2, manager_id: 5 });

    let a = session.receive(&new_object_reply(6));
    assert_eq!(
        a.send,
        vec![
            HWMessage::template_generic(6, 0, vec![HWPayload::compose_varchar("/path/to/wallpaper.jpg".to_string())]).finalize(),
            HWMessage::template_generic(6, 2, vec![HWPayload::compose_varchar("DP-2".to_string())]).finalize(),
            HWMessage::template_generic(6, 3, vec![]).finalize(),
        ]
    );
    assert_eq!(
        session.state,
        SessionState::AwaitingFinalResponse {
            handshake: HyprpaperIPCHandshake { seq: 2, manager_id: 5, wallpaper_id: 6 }
        }
    );

    let a = session.receive(&new_object_reply(0));
    assert!(a.send.is_empty());
    assert!(matches!(a.next, SessionNext::Finish(Ok(()))));
    assert_eq!(session.state, SessionState::Closed);
}

#[test]
fn session_stops_on_unsupported_version() {
    let mut session = HyprpaperSession::new("p", "m");
    session.start();
    let a = session.receive(&versions_reply(&[7]));
    assert!(a.send.is_empty());
    assert!(matches!(a.next, SessionNext::Finish(Err(HyprwireError::SocketProtocolError))));
    assert_eq!(session.state, SessionState::Closed);
}

#[test]
fn session_stops_on_unreadable_reply() {
    let mut session = HyprpaperSession::new("p", "m");
    session.start();
    let a = session.receive(&[9, 9]);
    assert!(matches!(a.next, SessionNext::Finish(Err(HyprwireError::MessageKindUnknownKey))));
    assert_eq!(session.state, SessionState::Closed);
}

#[test]
fn session_gives_up_on_a_reply_that_runs_short() {
    let mut session = HyprpaperSession::new("p", "m");
    session.start();
    let a = session.receive(&[]);
    assert!(a.send.is_empty());
    assert!(matches!(a.next, SessionNext::Panic));
    assert_eq!(session.state, SessionState::Closed);
}

#[test]
fn session_final_reply_error_is_reported() {
    let mut session = HyprpaperSession::new("p", "m");
    session.start();
    session.receive(&versions_reply(&[1]));
    session.receive(&protocols_reply(&["hyprpaper_core@2"]));
    session.receive(&new_object_reply(5));
    session.receive(&new_object_reply(6));
    let a = session.receive(&[100, 0x22]);
    assert!(matches!(a.next, SessionNext::Finish(Err(HyprwireError::WIP))));
}
