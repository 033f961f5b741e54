use vstd::prelude::*;
use vstd::string::StringExecFns;

use crate::utils::{push_char, upper_hex_digit, upper_hex_digits};

verus! {

/// Optional settings of an artifact request.
#[derive(Debug, Clone, PartialEq, Eq)]
pub struct ArtifactOptions {
    /// How long, in milliseconds, producing the artifact took.
    pub duration: Option<u64>,
    /// A tag that signs the artifact.
    pub tag: Option<String>,
}

/// Everything a request to the remote cache is made from.
#[derive(Debug, Clone, PartialEq, Eq)]
pub struct ArtifactBaseRequest {
    pub token: String,
    pub url: String,
    pub user_agent: String,
    pub options: Option<ArtifactOptions>,
}

impl ArtifactBaseRequest {
    pub fn new(token: String, url: String, user_agent: String, options: Option<ArtifactOptions>) -> (req: Self)
        ensures
            req.token == token,
            req.url == url,
            req.user_agent == user_agent,
            req.options == options,
    {
        ArtifactBaseRequest { token, url, user_agent, options }
    }
}

/// A request that downloads an artifact.
#[derive(Debug, Clone, PartialEq, Eq)]
pub struct ArtifactGetRequest(pub ArtifactBaseRequest);

/// A request that uploads an artifact.
#[derive(Debug, Clone, PartialEq, Eq)]
pub struct ArtifactPutRequest(pub ArtifactBaseRequest);

/// A request that asks whether an artifact is stored.
#[derive(Debug, Clone, PartialEq, Eq)]
pub struct ArtifactExistsRequest(pub ArtifactBaseRequest);

/// The decimal digit worth `d`, for `d < 10` (the first ten hex digits).
pub open spec fn decimal_digit(d: nat) -> char {
    upper_hex_digits()[d as int]
}

/// The decimal numeral of `n`, without leading zeros.
pub open spec fn decimal(n: nat) -> Seq<char>
    decreases n,
{
    if n < 10 {
        seq![decimal_digit(n)]
    } else {
        decimal(n / 10).push(decimal_digit(n % 10))
    }
}

/// Appends the decimal numeral of `n` to `s`.
fn push_decimal(s: &mut String, n: u64)
    ensures
        final(s)@ == old(s)@ + decimal(n as nat),
    decreases n,
{
    if n >= 10 {
        push_decimal(s, n / 10);
    }
    let c = upper_hex_digit((n % 10) as u8);
    push_char(s, c);
}

/// The header lines that a request carries: its bearer token and user
/// agent, then the duration and the tag of its options where they are given.
pub open spec fn request_headers(req: ArtifactBaseRequest) -> Seq<(Seq<char>, Seq<char>)> {
    let base = seq![
        ("authorization"@, "Bearer "@ + req.token@),
        ("user-agent"@, req.user_agent@),
    ];
    match req.options {
        Some(o) => base + match o.duration {
            Some(d) => seq![("x-artifact-duration"@, decimal(d as nat))],
            None => Seq::empty(),
        } + match o.tag {
            Some(t) => seq![("x-artifact-tag"@, t@)],
            None => Seq::empty(),
        },
        None => base,
    }
}

/// Every request is sent first with its whole token as a bearer credential
/// and then with its whole user agent; the options add at most two lines
/// after them, one for each option that is given.
pub proof fn lemma_headers_start_with_credentials(req: ArtifactBaseRequest)
    ensures
        request_headers(req).len() >= 2,
        request_headers(req)[0] == ("authorization"@, "Bearer "@ + req.token@),
        request_headers(req)[0].1.len() == 7 + req.token@.len(),
        request_headers(req)[0].1.subrange(7, 7 + req.token@.len() as int) == req.token@,
        request_headers(req)[1] == ("user-agent"@, req.user_agent@),
        request_headers(req).len() == 2 + match req.options {
            Some(o) => (if o.duration is Some { 1int } else { 0 }) + (if o.tag is Some { 1int } else { 0 }),
            None => 0,
        },
{
    reveal_strlit("Bearer ");
    let value = "Bearer "@ + req.token@;
    assert(value.subrange(7, 7 + req.token@.len() as int) =~= req.token@);
}

/// A list of header lines, by their characters.
pub open spec fn headers_view(headers: Seq<(String, String)>) -> Seq<(Seq<char>, Seq<char>)> {
    headers.map_values(|h: (String, String)| (h.0@, h.1@))
}

impl ArtifactBaseRequest {
    /// The header lines (name, value) that this request is sent with.
    pub fn headers(&self) -> (headers: Vec<(String, String)>)
        ensures
            headers_view(headers@) == request_headers(*self),
            headers@.len() >= 2,
            headers@[0].0@ == "authorization"@,
            headers@[0].1@ == "Bearer "@ + self.token@,
            headers@[1].0@ == "user-agent"@,
            headers@[1].1@ == self.user_agent@,
    {
        proof {
            lemma_headers_start_with_credentials(*self);
        }
        let mut headers: Vec<(String, String)> = Vec::new();
        let mut bearer = String::from_str("Bearer ");
        bearer.append(self.token.as_str());
        headers.push((String::from_str("authorization"), bearer));
        headers.push((String::from_str("user-agent"), self.user_agent.clone()));
        let ghost base = headers_view(headers@);
        assert(base =~= seq![
            ("authorization"@, "Bearer "@ + self.token@),
            ("user-agent"@, self.user_agent@),
        ]);
        match &self.options {
            Some(o) => {
                match o.duration {
                    Some(d) => {
                        let mut value = String::new();
                        push_decimal(&mut value, d);
                        headers.push((String::from_str("x-artifact-duration"), value));
                    },
                    None => {},
                }
                let ghost with_duration = headers_view(headers@);
                assert(with_duration =~= base + match o.duration {
                    Some(d) => seq![("x-artifact-duration"@, decimal(d as nat))],
                    None => Seq::<(Seq<char>, Seq<char>)>::empty(),
                });
                match &o.tag {
                    Some(t) => {
                        headers.push((String::from_str("x-artifact-tag"), t.clone()));
                    },
                    None => {},
                }
                assert(headers_view(headers@) =~= with_duration + match o.tag {
                    Some(t) => seq![("x-artifact-tag"@, t@)],
                    None => Seq::<(Seq<char>, Seq<char>)>::empty(),
                });
            },
            None => {},
        }
        headers
    }
}

} // verus!
