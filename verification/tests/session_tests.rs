use wvst_bridge_server::session::{session_update, SessionUpdate};

#[test]
fn sessions_subscribe_afresh_only_when_becoming_authorized() {
    assert_eq!(session_update(false, None), SessionUpdate::Close);
    assert_eq!(
        session_update(false, Some(false)),
        SessionUpdate::Continue {
            authorized: false,
            resubscribe: false
        }
    );
    assert_eq!(
        session_update(false, Some(true)),
        SessionUpdate::Continue {
            authorized: true,
            resubscribe: true
        }
    );
    assert_eq!(
        session_update(true, Some(true)),
        SessionUpdate::Continue {
            authorized: true,
            resubscribe: false
        }
    );
}
