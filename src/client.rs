use vstd::prelude::*;

use crate::options::QueryOptions;

verus! {

/// The endpoint of text queries; the API version is appended to it.
pub const QUERY_ENDPOINT: &'static str = "https://api.api.ai/v1/query?v=";

/// The API version used when the options name none.
pub const DEFAULT_VERSION: &'static str = "20150910";

/// The scheme put before the access token in the authorization header.
pub const AUTH_SCHEME: &'static str = "Bearer ";

/// The options key that selects the API version; it is never sent in the body.
pub const VERSION_KEY: &'static str = "version";

/// What the body of a text query holds: the caller's options without the
/// version, with the query, the language and the session written over them.
pub open spec fn request_body(
    options: Map<Seq<char>, Seq<char>>,
    query: Seq<char>,
    lang: Seq<char>,
    session_id: Seq<char>,
) -> Map<Seq<char>, Seq<char>> {
    options.remove(VERSION_KEY@).insert("query"@, query).insert("lang"@, lang).insert(
        "sessionId"@,
        session_id,
    )
}

/// The API version a query is sent to: the one the options name, if any.
pub open spec fn selected_version(options: Map<Seq<char>, Seq<char>>) -> Seq<char> {
    if options.contains_key(VERSION_KEY@) {
        options[VERSION_KEY@]
    } else {
        DEFAULT_VERSION@
    }
}

/// A client of the text query endpoint, for one access token, language and
/// session.
pub struct Client {
    client_access_token: String,
    api_lang: String,
    session_id: String,
}

/// Everything that goes on the wire for one text query.
pub struct PreparedRequest {
    /// Where the query is posted.
    pub url: String,
    /// The value of the authorization header.
    pub authorization: String,
    /// The fields of the JSON body.
    pub body: QueryOptions,
    /// The JSON text of `body`.
    pub payload: Vec<u8>,
}

impl Client {
    pub closed spec fn access_token(&self) -> Seq<char> {
        self.client_access_token@
    }

    pub closed spec fn lang(&self) -> Seq<char> {
        self.api_lang@
    }

    pub closed spec fn session(&self) -> Seq<char> {
        self.session_id@
    }

    /// Keeps the three values as given; nothing is checked or sent.
    pub fn new(client_access_token: &str, api_lang: &str, session_id: &str) -> (r: Client)
        ensures
            r.access_token() == client_access_token@,
            r.lang() == api_lang@,
            r.session() == session_id@,
    {
        Client {
            client_access_token: client_access_token.to_owned(),
            api_lang: api_lang.to_owned(),
            session_id: session_id.to_owned(),
        }
    }

    /// The URL of a text query to the given API version.
    pub fn build_url(&self, version: &str) -> (r: String)
        ensures
            r@ == QUERY_ENDPOINT@ + version@,
    {
        QUERY_ENDPOINT.to_owned().concat(version)
    }

    /// The value of the authorization header: the bearer scheme and the token.
    pub fn build_auth_header(&self) -> (r: String)
        ensures
            r@ == AUTH_SCHEME@ + self.access_token(),
    {
        let mut auth = AUTH_SCHEME.to_owned();
        auth.append(self.client_access_token.as_str());
        auth
    }

    /// Builds the request of a text query: the reserved keys are written over
    /// the caller's options, and the version is taken out of the body and into
    /// the URL.
    pub fn prepare_text_request(&self, query: &str, options: QueryOptions) -> (r: PreparedRequest)
        requires
            options.wf(),
        ensures
            r.body.wf(),
            r.body@ == request_body(options@, query@, self.lang(), self.session()),
            r.body@.contains_key("query"@) && r.body@["query"@] == query@,
            r.body@.contains_key("lang"@) && r.body@["lang"@] == self.lang(),
            r.body@.contains_key("sessionId"@) && r.body@["sessionId"@] == self.session(),
            !r.body@.contains_key(VERSION_KEY@),
            options@.contains_key(VERSION_KEY@) ==> r.url@ == QUERY_ENDPOINT@ + options@[VERSION_KEY@],
            !options@.contains_key(VERSION_KEY@) ==> r.url@ == QUERY_ENDPOINT@ + DEFAULT_VERSION@,
            r.url@ == QUERY_ENDPOINT@ + selected_version(options@),
            r.authorization@ == AUTH_SCHEME@ + self.access_token(),
            r.payload@ == crate::json::json_object_text(r.body@),
    {
        let mut body = options;
        body.insert("query".to_owned(), query.to_owned());
        body.insert("lang".to_owned(), self.api_lang.clone());
        body.insert("sessionId".to_owned(), self.session_id.clone());
        proof {
            reveal_strlit("query");
            reveal_strlit("lang");
            reveal_strlit("sessionId");
            reveal_strlit("version");
        }
        assert(VERSION_KEY@ == "version"@);
        assert("query"@ != VERSION_KEY@ && "lang"@ != VERSION_KEY@ && "sessionId"@ != VERSION_KEY@)
            by {
            assert("query"@.len() != VERSION_KEY@.len());
            assert("lang"@.len() != VERSION_KEY@.len());
            assert("sessionId"@.len() != VERSION_KEY@.len());
        }
        assert("query"@ != "lang"@ && "query"@ != "sessionId"@ && "lang"@ != "sessionId"@) by {
            assert("query"@.len() != "lang"@.len());
            assert("query"@.len() != "sessionId"@.len());
            assert("lang"@.len() != "sessionId"@.len());
        }

        let authorization = self.build_auth_header();
        let url = match body.remove(VERSION_KEY) {
            Some(version) => self.build_url(version.as_str()),
            None => self.build_url(DEFAULT_VERSION),
        };
        assert(body@ =~= request_body(options@, query@, self.lang(), self.session()));
        let payload = body.encode_json();
        PreparedRequest { url, authorization, body, payload }
    }
}

} // verus!
