use cookie_session::{default_user_agent, Session, SessionBuilder, SessionError, State};
use cookie_store::RawCookie;
use url::Url;

fn count_cookies(jar: &std::sync::Arc<reqwest_cookie_store::CookieStoreMutex>) -> usize {
    let store = jar.lock().unwrap();
    store.iter_any().count()
}

#[test]
fn ephemeral_build_succeeds() {
    let session = SessionBuilder::new().build(None).unwrap();
    assert_eq!(count_cookies(&session.get_cookie_store()), 0);
    assert!(session.release().is_none());
}

#[test]
fn missing_file_falls_back_to_empty() {
    let session = Session::try_new(Some("cookies.json".to_string()), None).unwrap();
    assert_eq!(count_cookies(&session.get_cookie_store()), 0);
}

#[test]
fn corrupt_file_is_rejected() {
    let bytes = b"this is not json".to_vec();
    let err = match Session::try_new(Some("cookies.json".to_string()), Some(bytes)) {
        Err(e) => e,
        Ok(_) => panic!("expected an error"),
    };
    match err {
        SessionError::CorruptCookieFile { path, detail } => {
            assert_eq!(path, "cookies.json");
            assert!(!detail.is_empty());
        }
        SessionError::ClientBuild { .. } => panic!("expected a corrupt-file error"),
    }
}

#[test]
fn wrong_schema_json_is_rejected() {
    let bytes = b"{\"name\": \"k\", \"value\": \"v\"}".to_vec();
    let err = match Session::try_new(Some("jar.json".to_string()), Some(bytes)) {
        Err(e) => e,
        Ok(_) => panic!("expected an error"),
    };
    assert!(matches!(err, SessionError::CorruptCookieFile { .. }));
}

#[test]
fn empty_file_is_rejected() {
    let err = match Session::try_new(Some("jar.json".to_string()), Some(Vec::new())) {
        Err(e) => e,
        Ok(_) => panic!("expected an error"),
    };
    assert!(matches!(err, SessionError::CorruptCookieFile { .. }));
}

#[test]
fn empty_cookie_array_loads_empty_jar() {
    let session = Session::try_new(Some("jar.json".to_string()), Some(b"[]".to_vec())).unwrap();
    assert_eq!(count_cookies(&session.get_cookie_store()), 0);
}

#[test]
fn builder_last_path_wins() {
    let builder = SessionBuilder::new()
        .cookies_store_into("first.json".to_string())
        .cookies_store_into("second.json".to_string());
    let err = match builder.build(Some(b"garbage".to_vec())) {
        Err(e) => e,
        Ok(_) => panic!("expected an error"),
    };
    match err {
        SessionError::CorruptCookieFile { path, .. } => assert_eq!(path, "second.json"),
        SessionError::ClientBuild { .. } => panic!("expected a corrupt-file error"),
    }
}

#[test]
fn round_trip_preserves_cookies() {
    let path = "cookies.json".to_string();
    let session = Session::try_new(Some(path), None).unwrap();
    let jar = session.get_cookie_store();
    {
        let mut store = jar.lock().unwrap();
        let raw = RawCookie::parse("k=v; Max-Age=3600; Path=/").unwrap();
        let url = Url::parse("http://example.com/").unwrap();
        store.insert_raw(&raw, &url).unwrap();
    }
    drop(jar);
    let (path_back, payload) = session.release().unwrap();
    assert_eq!(path_back, "cookies.json");
    let bytes = payload.unwrap();

    let reloaded = Session::try_new(Some(path_back), Some(bytes)).unwrap();
    let jar2 = reloaded.get_cookie_store();
    let store2 = jar2.lock().unwrap();
    let cookie = store2.get("example.com", "/", "k").unwrap();
    assert_eq!(cookie.value(), "v");
}

#[test]
fn snapshot_of_fresh_jar_reloads() {
    let session = Session::try_new(Some("jar.json".to_string()), None).unwrap();
    let (_, payload) = session.release().unwrap();
    let bytes = payload.unwrap();
    let reloaded = Session::try_new(Some("jar.json".to_string()), Some(bytes)).unwrap();
    assert_eq!(count_cookies(&reloaded.get_cookie_store()), 0);
}

#[test]
fn release_returns_payload_once() {
    let mut state = State::try_new(Some("jar.json".to_string()), None).unwrap();
    let first = state.release();
    assert!(matches!(first, Some(Ok(_))));
    let second = state.release();
    assert!(second.is_none());
}

#[test]
fn ephemeral_state_release_yields_nothing() {
    let mut state = State::try_new(None, None).unwrap();
    assert!(state.release().is_none());
    assert!(state.release().is_none());
}

#[test]
fn cookie_store_handles_are_shared() {
    let session = Session::try_new(Some("jar.json".to_string()), None).unwrap();
    let first = session.get_cookie_store();
    let second = session.get_cookie_store();
    assert!(std::sync::Arc::ptr_eq(&first, &second));

    {
        let mut store = first.lock().unwrap();
        let raw = RawCookie::parse("shared=yes; Max-Age=3600; Path=/").unwrap();
        let url = Url::parse("http://example.org/").unwrap();
        store.insert_raw(&raw, &url).unwrap();
    }
    {
        let store = second.lock().unwrap();
        assert!(store.contains("example.org", "/", "shared"));
    }
    drop(first);
    drop(second);

    let (_, payload) = session.release().unwrap();
    let text = String::from_utf8(payload.unwrap()).unwrap();
    assert!(text.contains("shared=yes"));
}

#[test]
fn default_user_agent_matches_browser_string() {
    assert_eq!(
        default_user_agent(),
        "Mozilla/5.0 (Windows NT 10.0; Win64; x64) AppleWebKit/537.36 (KHTML, like Gecko) Chrome/115.0.0.0 Safari/537.36 Edg/115.0.0.0"
    );
}

#[test]
fn state_cookie_store_path_reports_configuration() {
    let state = State::try_new(Some("jar.json".to_string()), None).unwrap();
    assert_eq!(state.cookie_store_path().as_deref(), Some("jar.json"));
    let ephemeral = State::try_new(None, None).unwrap();
    assert!(ephemeral.cookie_store_path().is_none());
}
