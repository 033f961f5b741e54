use vstd::prelude::*;
use vstd::string::StringExecFns;

use crate::vercel::artifact::{
    ArtifactBaseRequest, ArtifactExistsRequest, ArtifactGetRequest, ArtifactOptions,
    ArtifactPutRequest,
};
use crate::vercel::constants::REMOTE_CACHE_ENDPOINT;
use crate::vercel::utils::{get_user_agent, user_agent_for};
use crate::Error;

verus! {

/// A client of the remote cache: the credentials and identity every
/// request carries.
#[derive(Debug)]
pub struct RemoteClient {
    token: String,
    team_id: Option<String>,
    user_agent: String,
}

/// The abstract content of a `RemoteClient`.
pub struct RemoteClientView {
    pub token: Seq<char>,
    pub team_id: Option<Seq<char>>,
    pub user_agent: Seq<char>,
}

/// An optional string, by its characters.
pub open spec fn opt_view(s: Option<String>) -> Option<Seq<char>> {
    match s {
        Some(t) => Some(t@),
        None => None,
    }
}

impl View for RemoteClient {
    type V = RemoteClientView;

    closed spec fn view(&self) -> RemoteClientView {
        RemoteClientView {
            token: self.token@,
            team_id: opt_view(self.team_id),
            user_agent: self.user_agent@,
        }
    }
}

/// The query that names the team, if there is one.
pub open spec fn team_query(team_id: Option<Seq<char>>) -> Seq<char> {
    match team_id {
        Some(t) => "?teamId="@ + t,
        None => Seq::empty(),
    }
}

/// The URL of the artifact `hash`, for the given team.
pub open spec fn endpoint_url(hash: Seq<char>, team_id: Option<Seq<char>>) -> Seq<char> {
    REMOTE_CACHE_ENDPOINT@ + "/"@ + hash + team_query(team_id)
}

/// The detail of the error for a hash that holds a `/`.
pub open spec fn invalid_hash_detail() -> Seq<char> {
    "Invalid hash: Cannot contain '/'"@
}

/// Whether `e` is the error that refuses a hash holding a `/`.
pub open spec fn is_invalid_hash_error(e: Error) -> bool {
    e matches Error::InvalidInput(m) && m@ == invalid_hash_detail()
}

/// The outcome of asking for the URL of the artifact `hash`: refused when the
/// hash holds a `/`, else the endpoint URL.
pub open spec fn endpoint_url_result(
    hash: Seq<char>,
    team_id: Option<Seq<char>>,
    res: Result<Seq<char>, Error>,
) -> bool {
    if hash.contains('/') {
        res matches Err(e) && is_invalid_hash_error(e)
    } else {
        res == Ok::<Seq<char>, Error>(endpoint_url(hash, team_id))
    }
}

/// The request that a client builds for the artifact `hash`.
pub open spec fn request_for(
    client: RemoteClientView,
    hash: Seq<char>,
    options: Option<ArtifactOptions>,
    req: ArtifactBaseRequest,
) -> bool {
    &&& req.token@ == client.token
    &&& req.url@ == endpoint_url(hash, client.team_id)
    &&& req.user_agent@ == client.user_agent
    &&& req.options == options
}

/// The requests that a client builds for one artifact, whatever their kind,
/// carry the same credentials, URL, user agent and options.
pub proof fn lemma_requests_agree(
    client: RemoteClientView,
    hash: Seq<char>,
    options: Option<ArtifactOptions>,
    a: ArtifactBaseRequest,
    b: ArtifactBaseRequest,
)
    requires
        request_for(client, hash, options, a),
        request_for(client, hash, options, b),
    ensures
        a.token@ == b.token@,
        a.url@ == b.url@,
        a.user_agent@ == b.user_agent@,
        a.options == b.options,
{
}

/// The URL of an artifact is the endpoint, `/` and the whole hash; a team
/// appends `?teamId=` and the whole team id, nothing else.
pub proof fn lemma_endpoint_url_spelled_out(hash: Seq<char>, team_id: Option<Seq<char>>)
    ensures
        endpoint_url(hash, None) == REMOTE_CACHE_ENDPOINT@ + "/"@ + hash,
        team_id matches Some(t) ==> endpoint_url(hash, team_id) == REMOTE_CACHE_ENDPOINT@ + "/"@
            + hash + "?teamId="@ + t,
        team_id matches Some(t) ==> endpoint_url(hash, team_id) == endpoint_url(hash, None)
            + "?teamId="@ + t,
        team_id matches Some(t) ==> endpoint_url(hash, team_id).len() == endpoint_url(hash, None).len()
            + "?teamId="@.len() + t.len(),
        team_id is None ==> endpoint_url(hash, team_id) == endpoint_url(hash, None),
{
    assert(endpoint_url(hash, None) =~= REMOTE_CACHE_ENDPOINT@ + "/"@ + hash);
    if let Some(t) = team_id {
        assert(endpoint_url(hash, team_id) =~= REMOTE_CACHE_ENDPOINT@ + "/"@ + hash + "?teamId="@ + t);
    }
}

/// Whether `s` holds the character `c`.
fn contains_char(s: &str, c: char) -> (found: bool)
    ensures
        found == s@.contains(c),
{
    broadcast use vstd::string::group_string_axioms;
    for d in it: s.chars()
        invariant
            it.seq() == s@,
            forall|j: int| 0 <= j < it.index() ==> s@[j] != c,
    {
        if d == c {
            assert(s@[it.index()] == c);
            return true;
        }
    }
    false
}

impl RemoteClient {
    /// A client for `token` and the optional team, whose requests name
    /// `product` as their user agent.
    pub fn new(token: String, team_id: Option<String>, product: String) -> (client: RemoteClient)
        ensures
            client@.token == token@,
            client@.team_id == opt_view(team_id),
            client@.user_agent == user_agent_for(product@),
    {
        RemoteClient { token, team_id, user_agent: get_user_agent(product.as_str()) }
    }

    /// The URL of the artifact `hash`; refused when the hash holds a `/`.
    fn get_remote_cache_endpoint_url(&self, hash: String) -> (res: Result<String, Error>)
        ensures
            endpoint_url_result(
                hash@,
                self@.team_id,
                match res {
                    Ok(u) => Ok(u@),
                    Err(e) => Err(e),
                },
            ),
            res matches Ok(u) ==> u@ == match self@.team_id {
                Some(t) => REMOTE_CACHE_ENDPOINT@ + "/"@ + hash@ + "?teamId="@ + t,
                None => REMOTE_CACHE_ENDPOINT@ + "/"@ + hash@,
            },
    {
        proof {
            lemma_endpoint_url_spelled_out(hash@, self@.team_id);
        }
        if contains_char(hash.as_str(), '/') {
            return Err(Error::InvalidInput(String::from_str("Invalid hash: Cannot contain '/'")));
        }
        let mut url = String::from_str(REMOTE_CACHE_ENDPOINT);
        url.append("/");
        url.append(hash.as_str());
        match &self.team_id {
            Some(team_id) => {
                url.append("?teamId=");
                url.append(team_id.as_str());
            },
            None => {},
        }
        assert(url@ =~= endpoint_url(hash@, self@.team_id));
        Ok(url)
    }

    /// The base request for the artifact `hash`.
    fn base_request(&self, hash: String, options: Option<ArtifactOptions>) -> (res: Result<
        ArtifactBaseRequest,
        Error,
    >)
        ensures
            match res {
                Ok(req) => !hash@.contains('/') && request_for(self@, hash@, options, req),
                Err(e) => hash@.contains('/') && is_invalid_hash_error(e),
            },
            res matches Ok(req) ==> req.url@ == match self@.team_id {
                Some(t) => REMOTE_CACHE_ENDPOINT@ + "/"@ + hash@ + "?teamId="@ + t,
                None => REMOTE_CACHE_ENDPOINT@ + "/"@ + hash@,
            },
            res matches Ok(req) ==> req.token@ == self@.token && req.user_agent@ == self@.user_agent
                && req.options == options,
    {
        proof {
            lemma_endpoint_url_spelled_out(hash@, self@.team_id);
        }
        let url = self.get_remote_cache_endpoint_url(hash)?;
        Ok(ArtifactBaseRequest::new(self.token.clone(), url, self.user_agent.clone(), options))
    }

    /// The request that downloads the artifact `hash`; refused when the
    /// hash holds a `/`.
    pub fn get(&self, hash: String, options: Option<ArtifactOptions>) -> (res: Result<
        ArtifactGetRequest,
        Error,
    >)
        ensures
            match res {
                Ok(req) => !hash@.contains('/') && request_for(self@, hash@, options, req.0),
                Err(e) => hash@.contains('/') && is_invalid_hash_error(e),
            },
            res matches Ok(req) ==> req.0.url@ == match self@.team_id {
                Some(t) => REMOTE_CACHE_ENDPOINT@ + "/"@ + hash@ + "?teamId="@ + t,
                None => REMOTE_CACHE_ENDPOINT@ + "/"@ + hash@,
            },
            res matches Ok(req) ==> req.0.token@ == self@.token && req.0.user_agent@ == self@.user_agent
                && req.0.options == options,
    {
        proof {
            lemma_endpoint_url_spelled_out(hash@, self@.team_id);
        }
        let base = self.base_request(hash, options)?;
        Ok(ArtifactGetRequest(base))
    }

    /// The request that uploads the artifact `hash`; refused when the hash
    /// holds a `/`.
    pub fn put(&self, hash: String, options: Option<ArtifactOptions>) -> (res: Result<
        ArtifactPutRequest,
        Error,
    >)
        ensures
            match res {
                Ok(req) => !hash@.contains('/') && request_for(self@, hash@, options, req.0),
                Err(e) => hash@.contains('/') && is_invalid_hash_error(e),
            },
            res matches Ok(req) ==> req.0.url@ == match self@.team_id {
                Some(t) => REMOTE_CACHE_ENDPOINT@ + "/"@ + hash@ + "?teamId="@ + t,
                None => REMOTE_CACHE_ENDPOINT@ + "/"@ + hash@,
            },
            res matches Ok(req) ==> req.0.token@ == self@.token && req.0.user_agent@ == self@.user_agent
                && req.0.options == options,
    {
        proof {
            lemma_endpoint_url_spelled_out(hash@, self@.team_id);
        }
        let base = self.base_request(hash, options)?;
        Ok(ArtifactPutRequest(base))
    }

    /// The request that asks whether the artifact `hash` is stored; refused
    /// when the hash holds a `/`.
    pub fn exists_request(&self, hash: String, options: Option<ArtifactOptions>) -> (res: Result<
        ArtifactExistsRequest,
        Error,
    >)
        ensures
            match res {
                Ok(req) => !hash@.contains('/') && request_for(self@, hash@, options, req.0),
                Err(e) => hash@.contains('/') && is_invalid_hash_error(e),
            },
            res matches Ok(req) ==> req.0.url@ == match self@.team_id {
                Some(t) => REMOTE_CACHE_ENDPOINT@ + "/"@ + hash@ + "?teamId="@ + t,
                None => REMOTE_CACHE_ENDPOINT@ + "/"@ + hash@,
            },
            res matches Ok(req) ==> req.0.token@ == self@.token && req.0.user_agent@ == self@.user_agent
                && req.0.options == options,
    {
        proof {
            lemma_endpoint_url_spelled_out(hash@, self@.team_id);
        }
        let base = self.base_request(hash, options)?;
        Ok(ArtifactExistsRequest(base))
    }
}

} // verus!
