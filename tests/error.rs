use magic_nix_cache::error::Error;

#[test]
fn status_mapping() {
    assert_eq!(Error::Api("e".to_string()).status(), 418);
    assert_eq!(Error::NotFound.status(), 404);
    assert_eq!(Error::BadRequest.status(), 400);
    assert_eq!(Error::Io("e".to_string()).status(), 500);
    assert_eq!(Error::FailedToUpload.status(), 500);
    assert_eq!(Error::GHADisabled.status(), 500);
    assert_eq!(Error::FlakeHub("e".to_string()).status(), 500);
    assert_eq!(Error::FlakeHubHttp("e".to_string()).status(), 500);
    assert_eq!(Error::GetCacheName("401 Unauthorized".to_string(), "no".to_string()).status(), 500);
    assert_eq!(Error::Netrc("e".to_string()).status(), 500);
    assert_eq!(Error::MissingCreds("h".to_string()).status(), 500);
    assert_eq!(Error::Attic("e".to_string()).status(), 500);
    assert_eq!(Error::BadUrl("u".to_string()).status(), 500);
    assert_eq!(Error::Config("e".to_string()).status(), 500);
}

#[test]
fn messages() {
    assert_eq!(Error::GHADisabled.message(), "GHA cache is disabled");
    assert_eq!(Error::FailedToUpload.message(), "Failed to upload paths");
    assert_eq!(Error::BadUrl("http://x".to_string()).message(), "Bad URL");
    assert_eq!(Error::Config("no token".to_string()).message(), "Configuration error: no token");
    assert_eq!(
        Error::GetCacheName("401 Unauthorized".to_string(), "denied".to_string()).message(),
        "Got HTTP response 401 Unauthorized getting the cache name from FlakeHub: denied"
    );
    assert_eq!(Error::MissingCreds("flakehub.com".to_string()).message(), "Cannot find netrc credentials for flakehub.com");
    assert_eq!(Error::Attic("gone".to_string()).message(), "Attic error: gone");
}

#[test]
fn into_response_carries_status_and_message() {
    let resp = Error::Netrc("bad line".to_string()).into_response();
    assert_eq!(resp.status, 500);
    assert_eq!(resp.body, "netrc parse error: bad line");
    assert_eq!(resp.location, None);
}
