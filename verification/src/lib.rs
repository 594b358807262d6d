//! A session layer over an HTTP client that keeps its cookie jar across runs.
//!
//! A [`Session`] pairs an HTTP client with a shared, lock-guarded cookie jar.
//! When a session is built, the jar is populated from the bytes of an
//! optional cookie file: an unreadable file falls back to a fresh empty jar,
//! while a present but unparsable one is a hard error naming the path. When
//! the session is released, the caller is handed the serialized jar to write
//! back to that same path — reading and writing the file itself is the
//! caller's part, so the decisions in between can all be verified.

pub mod store;

use vstd::prelude::*;
use std::sync::Arc;
use cookie_store::CookieStore;
use reqwest_cookie_store::CookieStoreMutex;
use reqwest::Client;
use crate::store::is_cookie_json;

verus! {

/// Where the cookies in a session's jar came from.
pub enum JarOrigin {
    /// The jar started out empty: no path was configured, or the configured
    /// file could not be read.
    Fresh,
    /// The jar was loaded from a cookie file holding exactly these bytes.
    LoadedFrom(Seq<u8>),
}

/// An error returned when a session cannot be constructed.
#[derive(Debug)]
pub enum SessionError {
    /// The configured cookie file exists but its contents are not valid
    /// cookie JSON. `path` names the offending file.
    CorruptCookieFile { path: String, detail: String },
    /// The HTTP client itself could not be constructed.
    ClientBuild { detail: String },
}

/// The persistence path of `e`, where `e` names one.
pub open spec fn error_path(e: SessionError) -> Option<Seq<char>> {
    match e {
        SessionError::CorruptCookieFile { path, detail } => Some(path@),
        SessionError::ClientBuild { detail } => None,
    }
}

/// `true` exactly on the errors that report a corrupt cookie file.
pub open spec fn is_corrupt_file_error(e: SessionError) -> bool {
    match e {
        SessionError::CorruptCookieFile { path, detail } => true,
        SessionError::ClientBuild { detail } => false,
    }
}

/// The view of an optional path.
pub open spec fn opt_str_view(p: Option<String>) -> Option<Seq<char>> {
    match p {
        Some(s) => Some(s@),
        None => None,
    }
}

/// The view of optional file contents.
pub open spec fn opt_bytes_view(b: Option<Vec<u8>>) -> Option<Seq<u8>> {
    match b {
        Some(v) => Some(v@),
        None => None,
    }
}

/// What constructing a session state must do, as a function of the
/// configured path and of what could be read from it: succeed with a fresh
/// empty jar, succeed with a jar loaded from the file's bytes, or be
/// refused. `path` is the configured persistence path; `file` is `Some`
/// exactly when a file was read there.
pub open spec fn load_outcome(path: Option<Seq<char>>, file: Option<Seq<u8>>) -> Result<
    JarOrigin,
    (),
> {
    match path {
        None => Ok(JarOrigin::Fresh),
        Some(_) => match file {
            None => Ok(JarOrigin::Fresh),
            Some(bytes) => if is_cookie_json(bytes) {
                Ok(JarOrigin::LoadedFrom(bytes))
            } else {
                Err(())
            },
        },
    }
}

/// A session with no configured path never rejects its input and always
/// starts from a fresh empty jar, whatever was or was not read.
pub proof fn law_no_path_is_ephemeral(file: Option<Seq<u8>>)
    ensures
        load_outcome(None, file) == Ok::<JarOrigin, ()>(JarOrigin::Fresh),
{
}

/// A configured file that could not be read is tolerated: construction
/// succeeds and the jar starts out fresh and empty.
pub proof fn law_missing_file_tolerated(path: Seq<char>)
    ensures
        load_outcome(Some(path), None) == Ok::<JarOrigin, ()>(JarOrigin::Fresh),
{
}

/// A file that was read is rejected exactly when its bytes are not valid
/// cookie JSON: a malformed file is a hard error, a missing one is not.
pub proof fn law_corrupt_file_rejected(path: Seq<char>, bytes: Seq<u8>)
    ensures
        (load_outcome(Some(path), Some(bytes)) is Err) <==> !is_cookie_json(bytes),
{
}

/// Round trip at the codec boundary: bytes the cookie codec accepts — in
/// particular every snapshot handed out by a release, which is made of
/// accepted bytes — construct a jar loaded from exactly those bytes.
pub proof fn law_accepted_bytes_reload(path: Seq<char>, bytes: Seq<u8>)
    ensures
        is_cookie_json(bytes) ==> load_outcome(Some(path), Some(bytes)) == Ok::<JarOrigin, ()>(
            JarOrigin::LoadedFrom(bytes),
        ),
{
}

/// The fixed `User-Agent` value every request carries unless a caller
/// overrides it.
pub open spec fn spec_default_user_agent() -> Seq<char> {
    "Mozilla/5.0 (Windows NT 10.0; Win64; x64) AppleWebKit/537.36 (KHTML, like Gecko) Chrome/115.0.0.0 Safari/537.36 Edg/115.0.0.0"@
}

/// The fixed `User-Agent` value, as the header string handed to the client.
pub fn default_user_agent() -> (r: &'static str)
    ensures
        r@ == spec_default_user_agent(),
{
    "Mozilla/5.0 (Windows NT 10.0; Win64; x64) AppleWebKit/537.36 (KHTML, like Gecko) Chrome/115.0.0.0 Safari/537.36 Edg/115.0.0.0"
}

/// A fresh, empty, shareable lock-guarded jar.
fn fresh_shared_jar() -> Arc<CookieStoreMutex> {
    Arc::new(CookieStoreMutex::new(store::empty_store()))
}

/// Wraps an already-loaded store for shared, lock-guarded access.
fn share_store(loaded: CookieStore) -> Arc<CookieStoreMutex> {
    Arc::new(CookieStoreMutex::new(loaded))
}

/// The persistence half of a session: the optional cookie-file path and the
/// shared jar, together with the one-way released flag. While a state is
/// active its jar may be read and changed through the shared handle; its
/// release yields the bytes to persist at most once.
pub struct State {
    cookie_store_path: Option<String>,
    cookie_store: Arc<CookieStoreMutex>,
    released: bool,
    origin: Ghost<JarOrigin>,
}

impl State {
    /// The configured persistence path, if any.
    pub closed spec fn path_spec(&self) -> Option<Seq<char>> {
        opt_str_view(self.cookie_store_path)
    }

    /// The shared handle to this state's jar.
    pub closed spec fn jar_handle(&self) -> Arc<CookieStoreMutex> {
        self.cookie_store
    }

    /// Whether this state has already been released.
    pub closed spec fn released(&self) -> bool {
        self.released
    }

    /// Where this state's cookies came from.
    pub closed spec fn origin(&self) -> JarOrigin {
        self.origin@
    }

    /// The state invariant: with no path the jar is always fresh, and a jar
    /// loaded from a file was loaded from bytes the codec accepts.
    pub open spec fn wf(&self) -> bool {
        &&& self.path_spec() is None ==> self.origin() is Fresh
        &&& self.origin() matches JarOrigin::LoadedFrom(bytes) ==> is_cookie_json(bytes)
            && self.path_spec() is Some
    }

    /// Builds the state from the configured path and from what could be read
    /// there: `cookie_file` is `Some` exactly when the caller read a file at
    /// the path. With no path, or with no readable file, the jar starts out
    /// fresh and empty; readable bytes are loaded, and rejected — naming the
    /// path — exactly when the codec does not accept them.
    pub fn try_new(cookie_store_path: Option<String>, cookie_file: Option<Vec<u8>>) -> (r: Result<
        State,
        SessionError,
    >)
        ensures
            r is Ok <==> load_outcome(
                opt_str_view(cookie_store_path),
                opt_bytes_view(cookie_file),
            ) is Ok,
            r matches Ok(st) ==> {
                &&& st.wf()
                &&& st.path_spec() == opt_str_view(cookie_store_path)
                &&& !st.released()
                &&& load_outcome(opt_str_view(cookie_store_path), opt_bytes_view(cookie_file))
                    == Ok::<JarOrigin, ()>(st.origin())
            },
            r matches Err(e) ==> is_corrupt_file_error(e) && error_path(e) == opt_str_view(
                cookie_store_path,
            ),
    {
        match cookie_store_path {
            None => Ok(
                State {
                    cookie_store_path: None,
                    cookie_store: fresh_shared_jar(),
                    released: false,
                    origin: Ghost(JarOrigin::Fresh),
                },
            ),
            Some(path) => match cookie_file {
                None => Ok(
                    State {
                        cookie_store_path: Some(path),
                        cookie_store: fresh_shared_jar(),
                        released: false,
                        origin: Ghost(JarOrigin::Fresh),
                    },
                ),
                Some(bytes) => match store::load_store(&bytes) {
                    Ok(loaded) => Ok(
                        State {
                            cookie_store_path: Some(path),
                            cookie_store: share_store(loaded),
                            released: false,
                            origin: Ghost(JarOrigin::LoadedFrom(bytes@)),
                        },
                    ),
                    Err(detail) => Err(SessionError::CorruptCookieFile { path, detail }),
                },
            },
        }
    }

    /// The configured persistence path, for the caller that performs the
    /// write.
    pub fn cookie_store_path(&self) -> (r: &Option<String>)
        ensures
            opt_str_view(*r) == self.path_spec(),
    {
        &self.cookie_store_path
    }

    /// The shared handle to the jar.
    pub fn get_cookie_store(&self) -> (r: Arc<CookieStoreMutex>)
        ensures
            r == self.jar_handle(),
    {
        store::clone_jar_handle(&self.cookie_store)
    }

    /// Releases the state: the one-way transition out of "active". At most
    /// one call — the first, and only if a path is configured — yields a
    /// payload: the serialized jar to write to the path, or the message of a
    /// serialization failure, which the caller logs rather than raises.
    /// Later calls yield nothing, so the file is written at most once.
    pub fn release(&mut self) -> (r: Option<Result<Vec<u8>, String>>)
        ensures
            final(self).released(),
            final(self).path_spec() == old(self).path_spec(),
            final(self).origin() == old(self).origin(),
            final(self).jar_handle() == old(self).jar_handle(),
            old(self).released() ==> r is None,
            old(self).path_spec() is None ==> r is None,
            !old(self).released() && old(self).path_spec() is Some ==> r is Some,
            r matches Some(Ok(bytes)) ==> is_cookie_json(bytes@),
    {
        if self.released {
            return None;
        }
        self.released = true;
        match &self.cookie_store_path {
            None => None,
            Some(_) => Some(store::snapshot_store(&self.cookie_store)),
        }
    }
}

/// Accumulates configuration for a [`Session`]: at most an optional path to
/// the file the cookie jar is loaded from and saved back to.
pub struct SessionBuilder {
    cookie_store_path: Option<String>,
}

impl SessionBuilder {
    /// The configured persistence path, if any.
    pub closed spec fn path_spec(&self) -> Option<Seq<char>> {
        opt_str_view(self.cookie_store_path)
    }

    /// A builder with no persistence path: the session it builds keeps its
    /// cookies in memory only.
    pub fn new() -> (r: SessionBuilder)
        ensures
            r.path_spec() is None,
    {
        SessionBuilder { cookie_store_path: None }
    }

    /// Records the file the cookie jar is loaded from and saved to. Calling
    /// it again overwrites the previous choice: the last path wins.
    pub fn cookies_store_into(self, cookie_store_path: String) -> (r: SessionBuilder)
        ensures
            r.path_spec() == Some(cookie_store_path@),
    {
        SessionBuilder { cookie_store_path: Some(cookie_store_path) }
    }

    /// Builds the session, handing over what could be read at the configured
    /// path: `cookie_file` is `Some` exactly when the caller read a file
    /// there. Fails when a file was read but does not parse as cookie JSON,
    /// or when the HTTP client cannot be constructed.
    pub fn build(self, cookie_file: Option<Vec<u8>>) -> (r: Result<Session, SessionError>)
        ensures
            r matches Ok(s) ==> {
                &&& s.path_spec() == self.path_spec()
                &&& load_outcome(self.path_spec(), opt_bytes_view(cookie_file)) == Ok::<
                    JarOrigin,
                    (),
                >(s.origin())
            },
            r matches Err(e) ==> (if is_corrupt_file_error(e) {
                load_outcome(self.path_spec(), opt_bytes_view(cookie_file)) is Err && error_path(e)
                    == self.path_spec()
            } else {
                load_outcome(self.path_spec(), opt_bytes_view(cookie_file)) is Ok
            }),
            load_outcome(self.path_spec(), opt_bytes_view(cookie_file)) is Err ==> r is Err,
    {
        Session::try_new(self.cookie_store_path, cookie_file)
    }
}

/// An HTTP client paired with the persistent state its cookie jar lives in.
/// The jar handed to the client is the very handle the state owns, so what
/// the client sees and what gets persisted never diverge; requests are
/// issued through [`Session::client`].
pub struct Session {
    state: State,
    client: Client,
}

impl Session {
    /// The configured persistence path, if any.
    pub closed spec fn path_spec(&self) -> Option<Seq<char>> {
        self.state.path_spec()
    }

    /// Where this session's cookies came from.
    pub closed spec fn origin(&self) -> JarOrigin {
        self.state.origin()
    }

    /// The shared handle to this session's jar: the one its client consults
    /// and updates.
    pub closed spec fn jar_handle(&self) -> Arc<CookieStoreMutex> {
        self.state.jar_handle()
    }

    /// The wrapped HTTP client.
    pub closed spec fn client_spec(&self) -> Client {
        self.client
    }

    #[verifier::type_invariant]
    spec fn inv(&self) -> bool {
        &&& !self.state.released()
        &&& self.state.wf()
    }

    /// Creates a session: builds the state from the path and the bytes read
    /// there (see [`State::try_new`]), then an HTTP client wired to the
    /// state's own jar and carrying the fixed default `User-Agent` header.
    /// Rejected cookie bytes surface as [`SessionError::CorruptCookieFile`]
    /// naming the path; a client that cannot be constructed as
    /// [`SessionError::ClientBuild`], which arises only on inputs the jar
    /// loading accepted.
    pub fn try_new(cookie_store_path: Option<String>, cookie_file: Option<Vec<u8>>) -> (r: Result<
        Session,
        SessionError,
    >)
        ensures
            r matches Ok(s) ==> {
                &&& s.path_spec() == opt_str_view(cookie_store_path)
                &&& load_outcome(opt_str_view(cookie_store_path), opt_bytes_view(cookie_file))
                    == Ok::<JarOrigin, ()>(s.origin())
            },
            r matches Err(e) ==> (if is_corrupt_file_error(e) {
                load_outcome(opt_str_view(cookie_store_path), opt_bytes_view(cookie_file)) is Err
                    && error_path(e) == opt_str_view(cookie_store_path)
            } else {
                load_outcome(opt_str_view(cookie_store_path), opt_bytes_view(cookie_file)) is Ok
            }),
            load_outcome(opt_str_view(cookie_store_path), opt_bytes_view(cookie_file)) is Err
                ==> r is Err,
    {
        let state = match State::try_new(cookie_store_path, cookie_file) {
            Ok(st) => st,
            Err(e) => return Err(e),
        };
        let client = match store::build_http_client(&state.cookie_store, default_user_agent()) {
            Ok(c) => c,
            Err(detail) => return Err(SessionError::ClientBuild { detail }),
        };
        Ok(Session { state, client })
    }

    /// The shared, lock-guarded handle to the same jar the client uses:
    /// cookies seeded through it are seen by the client, and cookies the
    /// client stores are visible through it.
    pub fn get_cookie_store(&self) -> (r: Arc<CookieStoreMutex>)
        ensures
            r == self.jar_handle(),
    {
        store::clone_jar_handle(&self.state.cookie_store)
    }

    /// The wrapped HTTP client: every request-issuing capability of the
    /// session is exactly the client's, unmodified.
    pub fn client(&self) -> (r: &Client)
        ensures
            *r == self.client_spec(),
    {
        &self.client
    }

    /// Ends the session. With no configured path there is nothing to do and
    /// nothing is returned. With one, the path is returned together with the
    /// serialized jar to write there — or with the message of a
    /// serialization failure, which the caller logs rather than raises.
    pub fn release(self) -> (r: Option<(String, Result<Vec<u8>, String>)>)
        ensures
            self.path_spec() is None ==> r is None,
            self.path_spec() matches Some(p) ==> {
                &&& r matches Some(out)
                &&& out.0@ == p
                &&& (out.1 matches Ok(bytes) ==> is_cookie_json(bytes@))
            },
    {
        proof {
            use_type_invariant(&self);
        }
        let Session { state, client: _client } = self;
        let mut state = state;
        let path = match &state.cookie_store_path {
            Some(p) => Some(p.clone()),
            None => None,
        };
        let payload = state.release();
        match (path, payload) {
            (Some(p), Some(out)) => Some((p, out)),
            (Some(_), None) => None,
            (None, _) => None,
        }
    }
}

} // verus!
