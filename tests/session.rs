use diet_backend::dates::Date;
use diet_backend::session::{
    open_session, password_matches, session_active, session_for, session_id_from_cookie, session_in_force, sha256str, SessionError,
};

#[test]
fn sha256_of_abc() {
    assert_eq!(sha256str("abc"), "ba7816bf8f01cfea414140de5dae2223b00361a396177a9cb410ff61f20015ad");
}

#[test]
fn password_check_hashes_attempt() {
    let stored = sha256str("hunter2");
    assert!(password_matches("hunter2", &stored));
    assert!(!password_matches("hunter3", &stored));
    assert!(!password_matches("hunter2", &"hunter2".to_string()));
}

#[test]
fn session_cookie() {
    assert_eq!(session_id_from_cookie(None), Err(SessionError::MissingCookie));
    assert_eq!(session_id_from_cookie(Some("nope")), Err(SessionError::InvalidSessionId));
    assert_eq!(
        session_id_from_cookie(Some("67e55044-10b1-426f-9247-bb680e5fe0c8")),
        Ok(0x67e5504410b1426f9247bb680e5fe0c8)
    );
}

#[test]
fn session_expiry() {
    let today = Date { year: 2026, month: 10, day: 18 };
    assert!(session_active(&Date { year: 2026, month: 10, day: 19 }, &today));
    assert!(!session_active(&today, &today));
    assert!(session_in_force(&Date { year: 9999, month: 1, day: 1 }));
    assert!(!session_in_force(&Date { year: 2000, month: 1, day: 1 }));
    let s = session_for(7, 3, &today);
    assert_eq!(s.expiry, Date { year: 2027, month: 10, day: 18 });
    let a = open_session(3);
    let b = open_session(3);
    assert_eq!(a.user_id, 3);
    assert_ne!(a.token, b.token);
}
