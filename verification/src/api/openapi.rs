//! The OpenAPI document that describes one version of the API.

use vstd::prelude::*;

verus! {

/// A server that serves the API.
pub struct ApiServer {
    /// Where the version of the API is served.
    pub url: String,
    /// What kind of deployment the server is.
    pub description: Option<String>,
}

/// The parts of the OpenAPI document that the API fills in.
pub struct ApiDoc {
    /// The description of the API.
    pub description: Option<String>,
    /// The servers that serve it, production first.
    pub servers: Vec<ApiServer>,
}

/// Where a deployment at `base_url` serves `version` of the API.
pub open spec fn server_url(base_url: Seq<char>, version: Seq<char>) -> Seq<char> {
    base_url + "/"@ + version
}

/// A server URL is the whole base URL, then `/`, then the whole version.
pub proof fn lemma_server_url_shape(base_url: Seq<char>, version: Seq<char>)
    ensures
        server_url(base_url, version).len() == base_url.len() + 1 + version.len(),
        server_url(base_url, version).subrange(0, base_url.len() as int) == base_url,
        server_url(base_url, version)[base_url.len() as int] == '/',
        server_url(base_url, version).subrange(
            (base_url.len() + 1) as int,
            server_url(base_url, version).len() as int,
        ) == version,
{
    reveal_strlit("/");
    let u = server_url(base_url, version);
    assert(u.subrange(0, base_url.len() as int) =~= base_url);
    assert(u.subrange((base_url.len() + 1) as int, u.len() as int) =~= version);
}

/// `desc` is present and reads `text`.
pub open spec fn described_as(desc: Option<String>, text: Seq<char>) -> bool {
    desc matches Some(d) && d@ == text
}

/// The URL under which a deployment at `base_url` serves `version`.
pub fn versioned_url(base_url: &str, version: &str) -> (r: String)
    ensures
        r@ == server_url(base_url@, version@),
{
    String::from_str(base_url).concat("/").concat(version)
}

/// The OpenAPI document for `version` of the API, served by a production
/// deployment at `prod_url` and a test deployment at `test_url`.
pub fn get_open_api(version: &str, prod_url: &str, test_url: &str) -> (r: ApiDoc)
    ensures
        described_as(r.description, "an example API"@),
        r.servers.len() == 2,
        r.servers[0].url@ == server_url(prod_url@, version@),
        described_as(r.servers[0].description, "production"@),
        r.servers[1].url@ == server_url(test_url@, version@),
        described_as(r.servers[1].description, "test"@),
{
    let mut servers: Vec<ApiServer> = Vec::new();
    servers.push(
        ApiServer {
            url: versioned_url(prod_url, version),
            description: Some(String::from_str("production")),
        },
    );
    servers.push(
        ApiServer {
            url: versioned_url(test_url, version),
            description: Some(String::from_str("test")),
        },
    );
    ApiDoc { description: Some(String::from_str("an example API")), servers }
}

} // verus!
