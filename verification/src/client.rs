use vstd::prelude::*;
use vstd::string::StringExecFns;
use vstd::utf8::{decode_utf8, valid_utf8};
use crate::auth::{
    auth_fragment, hashable, is_fresh_salt, password_fits, token, token_auth_since, SunkAuth,
};
use crate::error::{plain_outcome, text_outcome, Error, ErrorView, ProtocolViolation, UriError};
use crate::json::{decoded_view, json_decoded, Json, JsonValue};
use crate::response::{
    interpret, outcome_view, response_outcome, scan_report, scan_report_outcome,
};
use crate::text::{lemma_empty_text, string_from_utf8};
use crate::uri::{cuts_cleanly, uri_parts, BaseUri};
use crate::version::{version_ge, ApiVersion};

verus! {

/// The endpoint that answers whether the server can be reached.
pub const PING: &'static str = "ping";

/// The endpoint that starts a scan of the library.
pub const START_SCAN: &'static str = "startScan";

/// The endpoint that reports on a scan.
pub const GET_SCAN_STATUS: &'static str = "getScanStatus";

/// A client of one server: where the server is, who asks, and in which version of the
/// interface. It builds the URL of a request and says what the response means; sending
/// the one and receiving the other is the caller's part.
#[derive(Debug, PartialEq, Eq)]
pub struct Sunk {
    pub url: BaseUri,
    pub auth: SunkAuth,
    pub api: ApiVersion,
    /// The name under which this client reports itself to the server.
    pub client: String,
}

/// The scheme of a request: that of the base address, or "http" where it has none.
pub open spec fn scheme_or_http(scheme: Option<Seq<char>>) -> Seq<char> {
    match scheme {
        Some(s) => s,
        None => "http"@,
    }
}

/// The URL of a request.
pub open spec fn url_text(
    scheme: Option<Seq<char>>,
    authority: Seq<char>,
    query: Seq<char>,
    fragment: Seq<char>,
    args: Seq<char>,
) -> Seq<char> {
    scheme_or_http(scheme) + "://"@ + authority + "/rest/"@ + query + "?"@ + fragment + "&"@
        + args
}

/// What an exchange gives that carries nothing back but its success.
pub open spec fn unit_outcome(r: Result<JsonValue, ErrorView>) -> Result<(), ErrorView> {
    match r {
        Ok(_) => Ok(()),
        Err(e) => Err(e),
    }
}

/// What a response to a scan-status request means.
pub open spec fn scan_outcome(r: Result<JsonValue, ErrorView>) -> Result<(bool, u64), ErrorView> {
    match r {
        Ok(payload) => scan_report_outcome(payload),
        Err(e) => Err(e),
    }
}

/// What probing for a binary stream gives: the URL where the body is no JSON.
pub open spec fn probe_outcome(url: Seq<char>, decoded: Option<JsonValue>) -> Result<
    Seq<char>,
    ErrorView,
> {
    match decoded {
        None => Ok(url),
        Some(_) => Err(ErrorView::Protocol(ProtocolViolation::UnexpectedJson)),
    }
}

/// What reading a body as text gives.
pub open spec fn raw_outcome(body: Seq<u8>) -> Result<Seq<char>, ErrorView> {
    if valid_utf8(body) {
        Ok(decode_utf8(body))
    } else {
        Err(ErrorView::Decode)
    }
}

/// Says what probing for a binary stream gives, from what the body decoded to.
pub fn probe(url: String, decoded: Option<Json>) -> (r: Result<String, Error>)
    ensures
        text_outcome(r) == probe_outcome(url@, decoded_view(decoded)),
{
    match decoded {
        None => Ok(url),
        Some(_) => Err(Error::Protocol(ProtocolViolation::UnexpectedJson)),
    }
}

impl Sunk {
    /// The URL of a request for `query` with `args`, authenticated under `salt`, given
    /// that the base address names a server.
    pub open spec fn url_with(self, query: Seq<char>, args: Seq<char>, salt: Seq<char>) -> Seq<
        char,
    > {
        url_text(
            self.url@.0,
            self.url@.1->0,
            query,
            auth_fragment(self.auth@.user, self.auth@.password, self.api@, self.client@, salt),
            args,
        )
    }

    /// What building a URL under `salt` gives: the URL where the base address names a
    /// server, whether or not it has a scheme, and an error where it names none.
    pub open spec fn url_outcome(
        self,
        query: Seq<char>,
        args: Seq<char>,
        salt: Seq<char>,
    ) -> Result<Seq<char>, ErrorView> {
        if self.url@.1 is Some {
            Ok(self.url_with(query, args, salt))
        } else {
            Err(ErrorView::Uri(UriError::Address))
        }
    }

    /// Whether `r` is what [`Sunk::build_url`] may give for `query` and `args`: the
    /// outcome under some fresh salt where the server takes tokens, and under no salt
    /// where it does not.
    pub open spec fn is_request_url(
        self,
        query: Seq<char>,
        args: Seq<char>,
        r: Result<String, Error>,
    ) -> bool {
        if version_ge(self.api@, token_auth_since()) {
            exists|salt: Seq<char>|
                is_fresh_salt(salt) && (self.url@.1 is Some ==> token(
                    self.auth@.password,
                    salt,
                ).len() == 32) && #[trigger] self.url_outcome(query, args, salt)
                    == text_outcome(r)
        } else {
            self.url_outcome(query, args, Seq::empty()) == text_outcome(r)
        }
    }

    /// A client for the server at `url`, which speaks version 1.14.0 of the interface.
    /// The address is refused where [`BaseUri::parse`] refuses it. The password must
    /// be short enough to be hashed: see [`SunkAuth::accepts`].
    pub fn new(url: &str, user: &str, password: &str, client: &str) -> (r: Result<Sunk, Error>)
        requires
            password_fits(password@),
        ensures
            match r {
                Ok(sunk) => {
                    &&& cuts_cleanly(url@)
                    &&& uri_parts(url@) == Some(sunk.url@)
                    &&& sunk.auth@.user == user@
                    &&& sunk.auth@.password == password@
                    &&& sunk.api@ == (1nat, 14nat, 0nat)
                    &&& sunk.client@ == client@
                },
                Err(e) => {
                    &&& !cuts_cleanly(url@) || uri_parts(url@) is None
                    &&& e@ == ErrorView::Uri(UriError::Malformed)
                },
            },
    {
        match BaseUri::parse(url) {
            Some(base) => Ok(
                Sunk {
                    url: base,
                    auth: SunkAuth::new(user, password),
                    api: ApiVersion::new(1, 14, 0),
                    client: client.to_owned(),
                },
            ),
            None => Err(Error::Uri(UriError::Malformed)),
        }
    }

    /// The URL of a request for `query` with `args`, authenticated under `salt`. It
    /// takes a base address that names a server; one without a scheme is taken as
    /// "http".
    pub fn build_url_with_salt(&self, query: &str, args: &str, salt: &str) -> (r: Result<
        String,
        Error,
    >)
        requires
            version_ge(self.api@, token_auth_since()) ==> hashable(self.auth@.password, salt@),
        ensures
            text_outcome(r) == self.url_outcome(query@, args@, salt@),
            version_ge(self.api@, token_auth_since()) && self.url@.1 is Some ==> token(
                self.auth@.password,
                salt@,
            ).len() == 32,
            self.url@.1 is None ==> r is Err,
            self.url@.1 is Some ==> r is Ok,
            self.url@.1 is Some && self.url@.0 is None ==> r->Ok_0@ == url_text(
                Some("http"@),
                self.url@.1->0,
                query@,
                auth_fragment(
                    self.auth@.user,
                    self.auth@.password,
                    self.api@,
                    self.client@,
                    salt@,
                ),
                args@,
            ),
    {
        let authority = match &self.url.authority {
            Some(a) => a,
            None => {
                return Err(Error::Uri(UriError::Address));
            },
        };
        let mut url = String::new();
        match &self.url.scheme {
            Some(s) => url.append(s.as_str()),
            None => url.append("http"),
        }
        url.append("://");
        url.append(authority.as_str());
        url.append("/rest/");
        url.append(query);
        url.append("?");
        url.append(self.auth.as_uri_with_salt(&self.api, self.client.as_str(), salt).as_str());
        url.append("&");
        url.append(args);
        Ok(url)
    }

    /// The URL of a request for `query` with `args`. Where the server takes tokens, a
    /// salt is drawn for this URL.
    pub fn build_url(&self, query: &str, args: &str) -> (r: Result<String, Error>)
        ensures
            self.is_request_url(query@, args@, r),
            self.url@.1 is None ==> r is Err && r->Err_0@ == ErrorView::Uri(UriError::Address),
            self.url@.1 is Some ==> r is Ok,
    {
        if self.api.at_least(&ApiVersion::new(1, 13, 0)) {
            let salt = self.auth.fresh_salt();
            self.build_url_with_salt(query, args, salt.as_str())
        } else {
            proof {
                lemma_empty_text();
            }
            self.build_url_with_salt(query, args, "")
        }
    }

    /// Says what the response to a request means: the payload of a reply with status
    /// "ok", or why there is none.
    pub fn get(&self, status: u16, body: &[u8]) -> (r: Result<Json, Error>)
        ensures
            outcome_view(r) == response_outcome(status, json_decoded(body@)),
    {
        if !crate::response::status_is_success(status) {
            return Err(Error::Transport(status));
        }
        interpret(status, Json::decode(body))
    }

    /// Says whether a body is a binary stream: gives back the URL that was asked where
    /// the body is no JSON, and an error where it is.
    pub fn try_binary(&self, url: String, body: &[u8]) -> (r: Result<String, Error>)
        ensures
            text_outcome(r) == probe_outcome(url@, json_decoded(body@)),
    {
        probe(url, Json::decode(body))
    }

    /// The body of a response as text, where it is UTF-8.
    pub fn get_raw(&self, body: Vec<u8>) -> (r: Result<String, Error>)
        ensures
            text_outcome(r) == raw_outcome(body@),
    {
        match string_from_utf8(body) {
            Some(text) => Ok(text),
            None => Err(Error::Decode),
        }
    }

    /// The URL that asks whether the server can be reached.
    pub fn ping_url(&self) -> (r: Result<String, Error>)
        ensures
            self.is_request_url("ping"@, Seq::empty(), r),
    {
        proof {
            lemma_empty_text();
        }
        self.build_url(PING, "")
    }

    /// Says whether the server could be reached with these credentials.
    pub fn check_connection(&self, status: u16, body: &[u8]) -> (r: Result<(), Error>)
        ensures
            plain_outcome(r) == unit_outcome(response_outcome(status, json_decoded(body@))),
    {
        match self.get(status, body) {
            Ok(_) => Ok(()),
            Err(e) => Err(e),
        }
    }

    /// The URL that starts a scan of the library.
    pub fn scan_library_url(&self) -> (r: Result<String, Error>)
        ensures
            self.is_request_url("startScan"@, Seq::empty(), r),
    {
        proof {
            lemma_empty_text();
        }
        self.build_url(START_SCAN, "")
    }

    /// Says whether the server has started a scan.
    pub fn scan_library(&self, status: u16, body: &[u8]) -> (r: Result<(), Error>)
        ensures
            plain_outcome(r) == unit_outcome(response_outcome(status, json_decoded(body@))),
    {
        match self.get(status, body) {
            Ok(_) => Ok(()),
            Err(e) => Err(e),
        }
    }

    /// The URL that asks for the state of a scan.
    pub fn scan_status_url(&self) -> (r: Result<String, Error>)
        ensures
            self.is_request_url("getScanStatus"@, Seq::empty(), r),
    {
        proof {
            lemma_empty_text();
        }
        self.build_url(GET_SCAN_STATUS, "")
    }

    /// Reads the state of a scan off a response: whether the scan is running, and the
    /// number of items found.
    pub fn scan_status(&self, status: u16, body: &[u8]) -> (r: Result<(bool, u64), Error>)
        ensures
            plain_outcome(r) == scan_outcome(response_outcome(status, json_decoded(body@))),
    {
        match self.get(status, body) {
            Ok(payload) => scan_report(&payload),
            Err(e) => Err(e),
        }
    }
}

} // verus!
