use vercel_cache_helper::get_remote_client;
use vercel_cache_helper::vercel::artifact::ArtifactOptions;
use vercel_cache_helper::vercel::constants::REMOTE_CACHE_ENDPOINT;
use vercel_cache_helper::vercel::remote_client::RemoteClient;
use vercel_cache_helper::vercel::utils::get_user_agent;
use vercel_cache_helper::Error;

fn invalid_hash() -> Error {
    Error::InvalidInput("Invalid hash: Cannot contain '/'".to_string())
}

#[test]
fn user_agent_is_the_product_name() {
    assert_eq!(get_user_agent("fastn"), "fastn");
}

#[test]
fn get_request_with_a_team() {
    let client = RemoteClient::new("tok".to_string(), Some("team_1".to_string()), "fastn".to_string());
    let req = client.get("abc123".to_string(), None).unwrap();
    assert_eq!(req.0.url, "https://api.vercel.com/v8/artifacts/abc123?teamId=team_1");
    assert_eq!(req.0.token, "tok");
    assert_eq!(req.0.user_agent, "fastn");
    assert_eq!(req.0.options, None);
}

#[test]
fn put_request_without_a_team() {
    let client = RemoteClient::new("tok".to_string(), None, "fastn".to_string());
    let req = client.put("abc123".to_string(), None).unwrap();
    assert_eq!(req.0.url, format!("{}/abc123", REMOTE_CACHE_ENDPOINT));
    assert_eq!(req.0.url, "https://api.vercel.com/v8/artifacts/abc123");
}

#[test]
fn empty_team_still_names_the_team() {
    let client = RemoteClient::new("tok".to_string(), Some(String::new()), "fastn".to_string());
    let req = client.exists_request("h".to_string(), None).unwrap();
    assert_eq!(req.0.url, "https://api.vercel.com/v8/artifacts/h?teamId=");
}

#[test]
fn options_are_carried() {
    let client = RemoteClient::new("tok".to_string(), None, "fastn".to_string());
    let options = ArtifactOptions { duration: Some(1200), tag: Some("sig".to_string()) };
    let req = client.put("h".to_string(), Some(options.clone())).unwrap();
    assert_eq!(req.0.options, Some(options));
}

#[test]
fn hash_with_a_slash_is_refused() {
    let client = RemoteClient::new("tok".to_string(), Some("t".to_string()), "fastn".to_string());
    assert_eq!(client.get("a/b".to_string(), None).unwrap_err(), invalid_hash());
    assert_eq!(client.put("/".to_string(), None).unwrap_err(), invalid_hash());
    assert_eq!(client.exists_request("abc/".to_string(), None).unwrap_err(), invalid_hash());
    assert_eq!(invalid_hash().message(), "Invalid input: Invalid hash: Cannot contain '/'");
}

#[test]
fn backslash_is_allowed_in_a_hash() {
    let client = RemoteClient::new("tok".to_string(), None, "fastn".to_string());
    let req = client.get("a\\b".to_string(), None).unwrap();
    assert_eq!(req.0.url, "https://api.vercel.com/v8/artifacts/a\\b");
}

#[test]
fn all_requests_share_url_and_credentials() {
    let client = RemoteClient::new("tok".to_string(), Some("t".to_string()), "prod".to_string());
    let g = client.get("x".to_string(), None).unwrap();
    let p = client.put("x".to_string(), None).unwrap();
    let e = client.exists_request("x".to_string(), None).unwrap();
    assert_eq!(g.0, p.0);
    assert_eq!(p.0, e.0);
}

#[test]
fn remote_client_from_the_library_root() {
    let client = get_remote_client("tok".to_string(), Some("t".to_string()), "prod".to_string());
    let req = client.get("x".to_string(), None).unwrap();
    assert_eq!(req.0.url, "https://api.vercel.com/v8/artifacts/x?teamId=t");
    assert_eq!(req.0.user_agent, "prod");
    assert_eq!(req.0.token, "tok");
}

fn pairs(items: &[(&str, &str)]) -> Vec<(String, String)> {
    items.iter().map(|(n, v)| (n.to_string(), v.to_string())).collect()
}

#[test]
fn headers_carry_token_and_user_agent() {
    let client = RemoteClient::new("tok".to_string(), None, "fastn".to_string());
    let req = client.get("h".to_string(), None).unwrap();
    assert_eq!(
        req.0.headers(),
        pairs(&[("authorization", "Bearer tok"), ("user-agent", "fastn")])
    );
}

#[test]
fn headers_carry_the_options() {
    let client = RemoteClient::new("tok".to_string(), None, "fastn".to_string());
    let options = ArtifactOptions { duration: Some(1200), tag: Some("sig".to_string()) };
    let req = client.put("h".to_string(), Some(options)).unwrap();
    assert_eq!(
        req.0.headers(),
        pairs(&[
            ("authorization", "Bearer tok"),
            ("user-agent", "fastn"),
            ("x-artifact-duration", "1200"),
            ("x-artifact-tag", "sig"),
        ])
    );
}

#[test]
fn duration_is_written_in_decimal() {
    let client = RemoteClient::new("t".to_string(), None, "p".to_string());
    for (d, text) in [(0u64, "0"), (7, "7"), (10, "10"), (907, "907"), (u64::MAX, "18446744073709551615")] {
        let options = ArtifactOptions { duration: Some(d), tag: None };
        let req = client.exists_request("h".to_string(), Some(options)).unwrap();
        let headers = req.0.headers();
        assert_eq!(headers.len(), 3);
        assert_eq!(headers[2], ("x-artifact-duration".to_string(), text.to_string()));
    }
    let options = ArtifactOptions { duration: None, tag: Some("x".to_string()) };
    let req = client.exists_request("h".to_string(), Some(options)).unwrap();
    assert_eq!(req.0.headers()[2], ("x-artifact-tag".to_string(), "x".to_string()));
    assert_eq!(req.0.headers().len(), 3);
}
