//! The binary cache protocol: key derivation, the read path with its
//! upstream fallback, and the steps of an upload.

use vstd::prelude::*;
use vstd::string::*;

use crate::error::{Error, Response, STATUS_OK, STATUS_TEMPORARY_REDIRECT};

verus! {

/// The suffix that names a metadata record.
pub open spec fn narinfo_suffix() -> Seq<char> {
    ".narinfo"@
}

/// A metadata path `<hash>.narinfo`: split at its first `.`, it gives two
/// parts, and the second is `narinfo`.
pub open spec fn is_narinfo_path(p: Seq<char>) -> bool {
    &&& p.len() >= 8
    &&& p.subrange(p.len() - 8, p.len() as int) == narinfo_suffix()
    &&& forall|j: int| 0 <= j < p.len() - 8 ==> p[j] != '.'
}

/// The backend key of a metadata path: `<hash>.narinfo`, which is the path
/// itself; `None` where the path is not of that shape.
pub fn narinfo_key(path: &str) -> (r: Option<String>)
    ensures
        r is Some <==> is_narinfo_path(path@),
        r matches Some(k) ==> k@ == path@,
{
    proof {
        reveal_strlit(".narinfo");
    }
    let suffix: &str = ".narinfo";
    let n = path.unicode_len();
    let mut i: usize = 0;
    while i < n && path.get_char(i) != '.'
        invariant
            n == path@.len(),
            i <= n,
            forall|j: int| 0 <= j < i ==> path@[j] != '.',
        decreases n - i,
    {
        i = i + 1;
    }
    if i == n || n - i != 8 {
        assert(!is_narinfo_path(path@)) by {
            if is_narinfo_path(path@) {
                assert(path@[n - 8] == path@.subrange(n - 8, n as int)[0]);
            }
        }
        return None;
    }
    assert(suffix@.len() == 8);
    let mut k: usize = 0;
    while k < 8
        invariant
            n == path@.len(),
            i == n - 8,
            suffix@ == narinfo_suffix(),
            suffix@.len() == 8,
            k <= 8,
            forall|m: int| 0 <= m < k ==> path@[i + m] == suffix@[m],
        decreases 8 - k,
    {
        if path.get_char(i + k) != suffix.get_char(k) {
            assert(!is_narinfo_path(path@)) by {
                if is_narinfo_path(path@) {
                    assert(path@[i + k] == path@.subrange(n - 8, n as int)[k as int]);
                }
            }
            return None;
        }
        k = k + 1;
    }
    assert(path@.subrange(n - 8, n as int) =~= narinfo_suffix());
    Some(String::from_str(path))
}

/// A temporary redirect: the client fetches the artifact from `location`.
pub struct Redirect {
    pub location: String,
}

impl Redirect {
    pub fn into_response(self) -> (r: Response)
        ensures
            r.status == STATUS_TEMPORARY_REDIRECT,
            r.location matches Some(l) && l@ == self.location@,
            r.body@.len() == 0,
    {
        Response { status: STATUS_TEMPORARY_REDIRECT, location: Some(self.location), body: String::new() }
    }
}

/// What a read does first.
pub enum ReadStep {
    /// Ask the backend for the URL of this key.
    Lookup(String),
    /// Answer the client without asking the backend.
    Done(Result<Redirect, Error>),
}

/// The first step of a metadata read: look up its key, which is the path
/// itself; a path of another shape is reported as absent before the backend
/// is asked.
pub fn narinfo_lookup(path: &str) -> (r: ReadStep)
    ensures
        is_narinfo_path(path@) ==> (r matches ReadStep::Lookup(k) && k@ == path@),
        !is_narinfo_path(path@) ==> (r matches ReadStep::Done(Err(e)) && e is NotFound),
{
    match narinfo_key(path) {
        Some(k) => ReadStep::Lookup(k),
        None => ReadStep::Done(Err(Error::NotFound)),
    }
}

/// The first step of an archive read: look up the path verbatim.
pub fn nar_lookup(path: &str) -> (r: ReadStep)
    ensures
        r matches ReadStep::Lookup(k) && k@ == path@,
{
    ReadStep::Lookup(String::from_str(path))
}

/// The outcome of a read, given what the backend's lookup gave and the
/// redirect target upstream, if one is configured: the backend's URL where it
/// has one; else the upstream target; else not found. A failed lookup is
/// passed on as it is and never falls back.
pub open spec fn resolved(
    lookup: Result<Option<String>, Error>,
    fallback: Option<Seq<char>>,
    r: Result<Redirect, Error>,
) -> bool {
    match lookup {
        Err(e) => r == Err::<Redirect, Error>(e),
        Ok(Some(url)) => r matches Ok(red) && red.location@ == url@,
        Ok(None) => match fallback {
            Some(target) => r matches Ok(red) && red.location@ == target,
            None => r matches Err(e) && e is NotFound,
        },
    }
}

/// Where a metadata read that the backend misses is sent upstream.
pub open spec fn narinfo_fallback(upstream: Option<&str>, path: Seq<char>) -> Option<Seq<char>> {
    match upstream {
        Some(u) => Some(u@ + "/"@ + path),
        None => None,
    }
}

/// Where an archive read that the backend misses is sent upstream.
pub open spec fn nar_fallback(upstream: Option<&str>, path: Seq<char>) -> Option<Seq<char>> {
    match upstream {
        Some(u) => Some(u@ + "/nar/"@ + path),
        None => None,
    }
}

fn resolve(
    lookup: Result<Option<String>, Error>,
    fallback: Option<String>,
) -> (r: Result<Redirect, Error>)
    ensures
        resolved(
            lookup,
            match fallback {
                Some(t) => Some(t@),
                None => None,
            },
            r,
        ),
{
    match lookup {
        Err(e) => Err(e),
        Ok(Some(url)) => Ok(Redirect { location: url }),
        Ok(None) => match fallback {
            Some(target) => Ok(Redirect { location: target }),
            None => Err(Error::NotFound),
        },
    }
}

/// `upstream`, then `sep`, then `path`.
fn join(upstream: &str, sep: &str, path: &str) -> (r: String)
    ensures
        r@ == upstream@ + sep@ + path@,
{
    let mut r = String::from_str(upstream);
    r.append(sep);
    r.append(path);
    r
}

/// The answer to a metadata read of `path`, once the backend has been asked
/// for its key. A path that is not `<hash>.narinfo` is not found, whatever
/// the lookup gave.
pub fn get_narinfo(
    path: &str,
    lookup: Result<Option<String>, Error>,
    upstream: Option<&str>,
) -> (r: Result<Redirect, Error>)
    ensures
        !is_narinfo_path(path@) ==> (r matches Err(e) && e is NotFound),
        is_narinfo_path(path@) ==> resolved(lookup, narinfo_fallback(upstream, path@), r),
{
    if narinfo_key(path).is_none() {
        return Err(Error::NotFound);
    }
    let fallback = match upstream {
        Some(u) => Some(join(u, "/", path)),
        None => None,
    };
    resolve(lookup, fallback)
}

/// The answer to an archive read of `path`, once the backend has been asked
/// for it.
pub fn get_nar(
    path: &str,
    lookup: Result<Option<String>, Error>,
    upstream: Option<&str>,
) -> (r: Result<Redirect, Error>)
    ensures
        resolved(lookup, nar_fallback(upstream, path@), r),
{
    let fallback = match upstream {
        Some(u) => Some(join(u, "/nar/", path)),
        None => None,
    };
    resolve(lookup, fallback)
}

/// The response to a read.
pub fn read_response(r: Result<Redirect, Error>) -> (resp: Response)
    ensures
        r matches Ok(red) ==> resp.status == STATUS_TEMPORARY_REDIRECT
            && (resp.location matches Some(l) && l@ == red.location@) && resp.body@.len() == 0,
        r matches Err(e) ==> resp.status == e.status_spec() && resp.location is None
            && resp.body@ == e.message_spec(),
{
    match r {
        Ok(red) => red.into_response(),
        Err(e) => e.into_response(),
    }
}

/// The fixed description of the cache: mass queries allowed, the store
/// root, and the priority.
pub open spec fn nix_cache_info_body() -> Seq<char> {
    "WantMassQuery: 1\nStoreDir: /nix/store\nPriority: 41\n"@
}

/// The answer to `GET /nix-cache-info`, whatever the backend's state.
pub fn get_nix_cache_info() -> (r: Response)
    ensures
        r.status == STATUS_OK,
        r.location is None,
        r.body@ == nix_cache_info_body(),
{
    Response {
        status: STATUS_OK,
        location: None,
        body: String::from_str("WantMassQuery: 1\nStoreDir: /nix/store\nPriority: 41\n"),
    }
}

/// What an upload does next.
pub enum UploadStep {
    /// Ask the backend for a fresh allocation under this key.
    Allocate(String),
    /// Stream the request body into the allocation.
    Stream,
    /// Answer the client.
    Done(Result<(), Error>),
}

/// What the backend did with the last step of an upload.
pub enum UploadEvent {
    Allocated,
    AllocationFailed(Error),
    Streamed,
    StreamFailed(Error),
}

/// The first step of a metadata upload: allocate under its key, or reject a
/// path of another shape as a bad request before the backend is asked.
pub fn put_narinfo(path: &str) -> (r: UploadStep)
    ensures
        is_narinfo_path(path@) ==> (r matches UploadStep::Allocate(k) && k@ == path@),
        !is_narinfo_path(path@) ==> (r matches UploadStep::Done(Err(e)) && e is BadRequest),
{
    match narinfo_key(path) {
        Some(k) => UploadStep::Allocate(k),
        None => UploadStep::Done(Err(Error::BadRequest)),
    }
}

/// The first step of an archive upload: allocate under the path itself.
pub fn put_nar(path: &str) -> (r: UploadStep)
    ensures
        r matches UploadStep::Allocate(k) && k@ == path@,
{
    UploadStep::Allocate(String::from_str(path))
}

/// The step that follows an event: the body is streamed only once the
/// allocation is there, and a failure of either ends the upload with it.
pub open spec fn upload_next_spec(event: UploadEvent) -> UploadStep {
    match event {
        UploadEvent::Allocated => UploadStep::Stream,
        UploadEvent::AllocationFailed(e) => UploadStep::Done(Err(e)),
        UploadEvent::Streamed => UploadStep::Done(Ok(())),
        UploadEvent::StreamFailed(e) => UploadStep::Done(Err(e)),
    }
}

pub fn upload_next(event: UploadEvent) -> (r: UploadStep)
    ensures
        r == upload_next_spec(event),
{
    match event {
        UploadEvent::Allocated => UploadStep::Stream,
        UploadEvent::AllocationFailed(e) => UploadStep::Done(Err(e)),
        UploadEvent::Streamed => UploadStep::Done(Ok(())),
        UploadEvent::StreamFailed(e) => UploadStep::Done(Err(e)),
    }
}

/// One chunk of an upload body as the backend takes it: a chunk passes
/// unchanged, and a transport failure becomes an I/O failure with the same
/// description.
pub fn body_chunk<T>(chunk: Result<T, String>) -> (r: Result<T, Error>)
    ensures
        chunk matches Ok(c) ==> r == Ok::<T, Error>(c),
        chunk matches Err(m) ==> (r matches Err(Error::Io(n)) && n@ == m@),
{
    match chunk {
        Ok(c) => Ok(c),
        Err(m) => Err(Error::Io(m)),
    }
}

/// The response to a finished upload: an empty success, or the failure.
pub fn write_response(r: Result<(), Error>) -> (resp: Response)
    ensures
        r is Ok ==> resp.status == STATUS_OK && resp.location is None && resp.body@.len() == 0,
        r matches Err(e) ==> resp.status == e.status_spec() && resp.location is None
            && resp.body@ == e.message_spec(),
{
    match r {
        Ok(()) => Response { status: STATUS_OK, location: None, body: String::new() },
        Err(e) => e.into_response(),
    }
}

/// A hash without `.` followed by `.narinfo` is a metadata path, and its key
/// is that path unchanged.
pub proof fn lemma_narinfo_path_accepted(hash: Seq<char>)
    requires
        forall|j: int| 0 <= j < hash.len() ==> hash[j] != '.',
    ensures
        is_narinfo_path(hash + narinfo_suffix()),
{
    reveal_strlit(".narinfo");
    let p = hash + narinfo_suffix();
    assert(p.subrange(p.len() - 8, p.len() as int) =~= narinfo_suffix());
}

/// A path without `.` is rejected, and so is one whose part after the first
/// `.` is anything but `narinfo`.
pub proof fn lemma_narinfo_path_rejected(hash: Seq<char>, rest: Seq<char>)
    requires
        forall|j: int| 0 <= j < hash.len() ==> hash[j] != '.',
        rest != "narinfo"@,
    ensures
        !is_narinfo_path(hash),
        !is_narinfo_path(hash + "."@ + rest),
{
    reveal_strlit(".narinfo");
    reveal_strlit(".");
    reveal_strlit("narinfo");
    if is_narinfo_path(hash) {
        assert(hash[hash.len() - 8] == hash.subrange(hash.len() - 8, hash.len() as int)[0]);
    }
    let p = hash + "."@ + rest;
    if is_narinfo_path(p) {
        assert(p[hash.len() as int] == '.');
        assert(p.len() - 8 <= hash.len()) by {
            if p.len() - 8 > hash.len() {
                assert(p[hash.len() as int] != '.');
            }
        }
        assert(p[p.len() - 8] == p.subrange(p.len() - 8, p.len() as int)[0]);
        assert(p.len() - 8 == hash.len());
        assert(rest =~= p.subrange(p.len() - 7, p.len() as int));
        assert(rest =~= narinfo_suffix().subrange(1, 8));
        assert(rest =~= "narinfo"@);
    }
}

/// Once the backend has a URL for a key, a read of that key redirects to
/// exactly that URL, whether or not an upstream is configured.
pub proof fn lemma_found_redirects_to_url(
    url: String,
    fallback: Option<Seq<char>>,
    r: Result<Redirect, Error>,
)
    requires
        resolved(Ok(Some(url)), fallback, r),
    ensures
        r matches Ok(red) && red.location@ == url@,
{
}

/// An archive read that the backend misses, with upstream `u` configured,
/// redirects to `u/nar/<path>`, the path kept as it came.
pub proof fn lemma_nar_miss_falls_back(path: &str, u: &str, r: Result<Redirect, Error>)
    requires
        resolved(Ok(None), nar_fallback(Some(u), path@), r),
    ensures
        r matches Ok(red) && red.location@ == u@ + "/nar/"@ + path@,
{
}

/// A metadata read that the backend misses, with upstream `u` configured,
/// redirects to `u/<path>`.
pub proof fn lemma_narinfo_miss_falls_back(path: &str, u: &str, r: Result<Redirect, Error>)
    requires
        resolved(Ok(None), narinfo_fallback(Some(u), path@), r),
    ensures
        r matches Ok(red) && red.location@ == u@ + "/"@ + path@,
{
}

/// A read that the backend misses, with no upstream configured, is answered
/// with status 404.
pub proof fn lemma_miss_without_upstream_not_found(r: Result<Redirect, Error>)
    requires
        resolved(Ok(None), None, r),
    ensures
        r matches Err(e) && e.status_spec() == 404,
{
}

/// A failed backend lookup is never taken for a miss: the read fails with
/// the backend's failure, status 418, and neither falls back nor answers 404.
pub proof fn lemma_backend_failure_not_miss(
    e: Error,
    fallback: Option<Seq<char>>,
    r: Result<Redirect, Error>,
)
    requires
        e is Api,
        resolved(Err(e), fallback, r),
    ensures
        r matches Err(f) && f == e && f.status_spec() == 418 && f.status_spec() != 404,
{
}

/// An upload keeps no state from one request to the next: whatever an
/// earlier PUT to the same key did, a later one streams once its own fresh
/// allocation is there and succeeds once its own stream has.
pub proof fn lemma_repeated_put_succeeds()
    ensures
        upload_next_spec(UploadEvent::Allocated) is Stream,
        upload_next_spec(UploadEvent::Streamed) == UploadStep::Done(Ok(())),
{
}

} // verus!
