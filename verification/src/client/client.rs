//! The client's address book and its reading of response codes. Sending
//! and receiving are not done here.

use vstd::prelude::*;
use vstd::string::*;
use crate::client::error::GlpkError;

verus! {

/// `reqwest::Client`, carried through without looking inside.
#[verifier::external_type_specification]
#[verifier::external_body]
pub struct ExHttpClient(reqwest::Client);

/// `reqwest::Url`, carried through without looking inside.
#[verifier::external_type_specification]
#[verifier::external_body]
pub struct ExUrl(reqwest::Url);

/// What `Url::parse` objects to in a text: the message of its error, or
/// nothing where the text is an absolute URL.
pub uninterp spec fn url_objection(text: Seq<char>) -> Option<Seq<char>>;

/// Calls `Url::parse`, which reads an absolute URL from a text, and on
/// failure `to_string` on its error. The contract names the outcome: it
/// depends on the text alone.
#[verifier::external_body]
fn parse_url(text: &str) -> (r: Result<reqwest::Url, String>)
    ensures
        r is Ok <==> url_objection(text@) is None,
        r matches Err(message) ==> url_objection(text@) == Some(message@),
{
    match reqwest::Url::parse(text) {
        Ok(url) => Ok(url),
        Err(error) => Err(error.to_string()),
    }
}

/// Calls `Url::join`, which reads `path` as a URL relative to `base`, and
/// on failure `to_string` on its error. Nothing is claimed of the result.
#[verifier::external_body]
fn join_url(base: &reqwest::Url, path: &str) -> (r: Result<reqwest::Url, String>) {
    match base.join(path) {
        Ok(url) => Ok(url),
        Err(error) => Err(error.to_string()),
    }
}

/// Calls `reqwest::Client::builder` and `ClientBuilder::build`, which make
/// a client with the default settings, or fail where the machine cannot
/// provide what the client needs. Nothing is claimed of the result.
#[verifier::external_body]
fn default_http_client() -> (r: Result<reqwest::Client, reqwest::Error>) {
    reqwest::Client::builder().build()
}

/// A client of the service: the address of the service, the HTTP client
/// that requests go through, and the caller's key, if any.
#[derive(Debug)]
pub struct GlpkClient {
    client: reqwest::Client,
    base_url: reqwest::Url,
    api_key: Option<String>,
}

impl GlpkClient {
    /// The key that is sent with each request, if any.
    pub closed spec fn spec_api_key(&self) -> Option<Seq<char>> {
        match self.api_key {
            Some(key) => Some(key@),
            None => None,
        }
    }

    /// The HTTP client that requests go through.
    pub closed spec fn spec_http_client(&self) -> reqwest::Client {
        self.client
    }

    /// The address of the service.
    pub closed spec fn spec_base_url(&self) -> reqwest::Url {
        self.base_url
    }

    /// A client for the service at `base_url`, without a key. A text that
    /// is no absolute URL is refused with the parser's message; otherwise
    /// the only failure left is that of making the HTTP client.
    pub fn new(base_url: &str) -> (r: Result<GlpkClient, GlpkError>)
        ensures
            url_objection(base_url@) matches Some(reason) ==> (r matches Err(
                GlpkError::InvalidUrl(message),
            ) && message@ == reason),
            url_objection(base_url@) is None ==> (r matches Err(error) ==> error is Request),
            r matches Ok(client) ==> client.spec_api_key() is None,
    {
        Self::from_parsed(parse_url(base_url), default_http_client())
    }

    /// As `new`, with an HTTP client of the caller's own. Fails exactly
    /// when `base_url` is no absolute URL.
    pub fn with_client(base_url: &str, client: reqwest::Client) -> (r: Result<
        GlpkClient,
        GlpkError,
    >)
        ensures
            r is Ok <==> url_objection(base_url@) is None,
            r matches Ok(made) ==> made.spec_api_key() is None && made.spec_http_client()
                == client,
            r matches Err(error) ==> error matches GlpkError::InvalidUrl(message)
                && url_objection(base_url@) == Some(message@),
    {
        Self::from_parsed(parse_url(base_url), Ok(client))
    }

    /// A client from an address that has been read and an HTTP client that
    /// has been made already. Where the address was no URL the error
    /// carries the parser's message; where it was one and the HTTP client
    /// could not be made, the error is that of the HTTP client; otherwise
    /// the result is a client without a key that holds that address and
    /// that HTTP client.
    pub fn from_parsed(
        parsed: Result<reqwest::Url, String>,
        client: Result<reqwest::Client, reqwest::Error>,
    ) -> (r: Result<GlpkClient, GlpkError>)
        ensures
            r is Ok <==> parsed is Ok && client is Ok,
            r matches Ok(made) ==> made.spec_api_key() is None,
            r matches Ok(made) ==> (parsed matches Ok(address) && made.spec_base_url()
                == address),
            r matches Ok(made) ==> (client matches Ok(given) && made.spec_http_client()
                == given),
            parsed matches Err(reason) ==> (r matches Err(GlpkError::InvalidUrl(message))
                && message@ == reason@),
            parsed is Ok ==> (client matches Err(failure) ==> r matches Err(
                GlpkError::Request(error),
            ) && error == failure),
    {
        match parsed {
            Err(reason) => Err(GlpkError::InvalidUrl(reason)),
            Ok(base_url) => match client {
                Ok(client) => Ok(GlpkClient { client, base_url, api_key: None }),
                Err(failure) => Err(GlpkError::Request(failure)),
            },
        }
    }

    /// Sets the key that is sent with each request; the address and the
    /// HTTP client stay as they are.
    pub fn with_api_key(self, api_key: &str) -> (client: GlpkClient)
        ensures
            client.spec_api_key() == Some(api_key@),
            client.spec_http_client() == self.spec_http_client(),
            client.spec_base_url() == self.spec_base_url(),
    {
        let mut client = self;
        client.api_key = Some(String::from_str(api_key));
        client
    }

    /// The key that is sent with each request, if any.
    pub fn api_key(&self) -> (key: Option<String>)
        ensures
            key is Some <==> self.spec_api_key() is Some,
            key matches Some(text) ==> Some(text@) == self.spec_api_key(),
    {
        match &self.api_key {
            Some(key) => Some(key.clone()),
            None => None,
        }
    }

    /// The HTTP client that requests go through: the one that this client
    /// was made with.
    pub fn http_client(&self) -> (client: &reqwest::Client)
        ensures
            *client == self.spec_http_client(),
    {
        &self.client
    }

    /// The address of an endpoint of the service; `path` is read relative
    /// to the client's base address. A path that gives no URL is an
    /// invalid-URL error, whatever else came back: see `endpoint_from`.
    pub fn endpoint(&self, path: &str) -> (r: Result<reqwest::Url, GlpkError>)
        ensures
            r matches Err(error) ==> error is InvalidUrl,
    {
        Self::endpoint_from(join_url(&self.base_url, path))
    }

    /// What `endpoint` makes of a path that has been read already: the
    /// URL itself where it gave one, and otherwise the invalid-URL error
    /// that carries the reader's message.
    pub fn endpoint_from(joined: Result<reqwest::Url, String>) -> (r: Result<
        reqwest::Url,
        GlpkError,
    >)
        ensures
            joined matches Ok(url) ==> r == Ok::<reqwest::Url, GlpkError>(url),
            joined matches Err(reason) ==> r == Err::<reqwest::Url, GlpkError>(
                GlpkError::InvalidUrl(reason),
            ),
    {
        match joined {
            Ok(url) => Ok(url),
            Err(reason) => Err(GlpkError::InvalidUrl(reason)),
        }
    }

    /// Whether a response code reports success: the codes 200 to 299.
    pub fn is_success(status: u16) -> (r: bool)
        ensures
            r == (200 <= status <= 299),
    {
        200 <= status && status <= 299
    }

    /// What a response to a solve request means for the caller: nothing to
    /// report for a success code, a failed authentication for the codes
    /// 401 and 403, and for any other code an error of the service with
    /// the text of the response, or `Unknown error` where the text could
    /// not be read.
    pub fn response_error(status: u16, body: Option<String>) -> (r: Option<GlpkError>)
        ensures
            200 <= status <= 299 ==> r is None,
            status == 401 || status == 403 ==> r == Some(GlpkError::AuthenticationFailed),
            !(200 <= status <= 299) && status != 401 && status != 403 ==> (r matches Some(
                GlpkError::ApiError(text),
            ) && text@ == (match body {
                Some(b) => b@,
                None => "Unknown error"@,
            })),
    {
        if Self::is_success(status) {
            None
        } else if status == 401 || status == 403 {
            Some(GlpkError::AuthenticationFailed)
        } else {
            let text = match body {
                Some(b) => b,
                None => String::from_str("Unknown error"),
            };
            Some(GlpkError::ApiError(text))
        }
    }
}

} // verus!
