use crate::error::{Result, SpeechApiError};
use crate::json::Json;
use crate::retry::RetryPolicy;
use crate::types::SessionConfig;
use vstd::prelude::*;

verus! {

/// The JSON string literal for `text`: quoted, with the escapes that JSON
/// asks for.
pub uninterp spec fn json_string_literal(text: Seq<char>) -> Seq<char>;

/// Writes `text` as a JSON string literal, through the `Display` impl of
/// `serde_json::Value` on a `Value::String`, in its compact form. The
/// contract only names the outcome.
#[verifier::external_body]
fn json_quote(text: &str) -> (r: String)
    ensures
        r@ == json_string_literal(text@),
{
    serde_json::Value::String(text.to_owned()).to_string()
}

/// The control-plane endpoint used where the caller names none.
pub open spec fn spec_default_api_url() -> Seq<char> {
    "https://service.video.taxi/graphiql"@
}

/// The control-plane endpoint used where the caller names none.
pub fn default_api_url() -> (r: &'static str)
    ensures
        r@ == spec_default_api_url(),
{
    "https://service.video.taxi/graphiql"
}

/// The language codes as a bracketless list of quoted strings, separated by
/// a comma and a space.
pub open spec fn spec_language_list(languages: Seq<Seq<char>>) -> Seq<char>
    decreases languages.len(),
{
    if languages.len() == 0 {
        Seq::empty()
    } else if languages.len() == 1 {
        json_string_literal(languages[0])
    } else {
        spec_language_list(languages.drop_last()) + ", "@ + json_string_literal(languages.last())
    }
}

/// The query document that asks for a new session.
pub open spec fn spec_create_query(name: Seq<char>, languages: Seq<Seq<char>>) -> Seq<char> {
    "mutation { createRealtimeSession(name: "@ + json_string_literal(name)
        + " translationLanguages: ["@ + spec_language_list(languages) + "]) { id } }"@
}

/// The query document that asks for a session's endpoints.
pub open spec fn spec_details_query(
    session_id: Seq<char>,
    master_language: Seq<char>,
    viewer_language: Seq<char>,
    enable_voiceover: bool,
) -> Seq<char> {
    "query { realtimeSession(id: "@ + json_string_literal(session_id)
        + ") { id masterSocketUrl(languageCode: "@ + json_string_literal(master_language)
        + ") name translationLanguages viewerSocketUrl(enableVoiceover: "@ + (if enable_voiceover {
        "true"@
    } else {
        "false"@
    }) + ", languageCode: "@ + json_string_literal(viewer_language) + ") viewerWebUrl } }"@
}

/// The request body that carries a query document.
pub open spec fn spec_request_body(query: Seq<char>) -> Seq<char> {
    "{\"query\":"@ + json_string_literal(query) + "}"@
}

/// The text at `data.<field>.<leaf>` of a response, where it is there and
/// is a string.
pub open spec fn spec_response_text(response: Json, field: Seq<char>, leaf: Seq<char>) -> Option<
    String,
> {
    match response.spec_member("data"@) {
        Some(data) => match data.spec_member(field) {
            Some(inner) => inner.spec_text(leaf),
            None => None,
        },
        None => None,
    }
}

fn response_text(response: &Json, field: &str, leaf: &str) -> (r: Option<String>)
    ensures
        r == spec_response_text(*response, field@, leaf@),
{
    match response.member("data") {
        Some(data) => match data.member(field) {
            Some(inner) => inner.text_field(leaf),
            None => None,
        },
        None => None,
    }
}

fn request_body(query: &str) -> (r: String)
    ensures
        r@ == spec_request_body(query@),
{
    let mut body = "{\"query\":".to_owned();
    let quoted = json_quote(query);
    body.append(quoted.as_str());
    body.append("}");
    body
}

fn language_list(languages: &Vec<String>) -> (r: String)
    ensures
        r@ == spec_language_list(Seq::new(languages@.len(), |i: int| languages@[i]@)),
{
    let ghost all = Seq::new(languages@.len(), |i: int| languages@[i]@);
    let mut list = String::new();
    let mut i: usize = 0;
    while i < languages.len()
        invariant
            i <= languages@.len(),
            all == Seq::new(languages@.len(), |k: int| languages@[k]@),
            list@ == spec_language_list(all.take(i as int)),
        decreases languages@.len() - i,
    {
        let quoted = json_quote(languages[i].as_str());
        if i > 0 {
            list.append(", ");
        }
        list.append(quoted.as_str());
        proof {
            let next = all.take(i as int + 1);
            assert(next.drop_last() =~= all.take(i as int));
            assert(next.last() == languages@[i as int]@);
            if i == 0 {
                assert(list@ =~= json_string_literal(all[0]));
            }
        }
        i += 1;
    }
    assert(all.take(i as int) =~= all);
    list
}

/// Credentials and endpoint for the control plane.
#[derive(Debug, Clone, PartialEq)]
pub struct VideoTaxiClient {
    pub api_key: String,
    pub api_url: String,
}

/// A provisioned stream: its identifier, the endpoint for audio upload, the
/// endpoint for events, and the options it was made with.
#[derive(Debug, Clone, PartialEq)]
pub struct VideoTaxiSession {
    pub session_id: String,
    pub master_socket_url: String,
    pub viewer_socket_url: String,
    pub config: SessionConfig,
}

impl VideoTaxiClient {
    /// A client for `api_url`, or for the default endpoint where none is
    /// given.
    pub fn new(api_key: String, api_url: Option<String>) -> (r: Self)
        ensures
            r.api_key == api_key,
            r.api_url@ == (match api_url {
                Some(url) => url@,
                None => spec_default_api_url(),
            }),
    {
        let api_url = match api_url {
            Some(url) => url,
            None => default_api_url().to_owned(),
        };
        VideoTaxiClient { api_key, api_url }
    }

    /// A client from the two settings of the process environment, as read
    /// by the caller: the token, which must be set, and the endpoint.
    pub fn from_env(token: Option<String>, url: Option<String>) -> (r: Result<Self>)
        ensures
            match token {
                Some(key) => r is Ok && r->Ok_0.api_key == key && r->Ok_0.api_url@ == (match url {
                    Some(u) => u@,
                    None => spec_default_api_url(),
                }),
                None => r is Err && r->Err_0 is InvalidConfig && r->Err_0->InvalidConfig_0@
                    == "VIDEOTAXI_TOKEN environment variable not set"@,
            },
    {
        match token {
            Some(key) => Ok(Self::new(key, url)),
            None => Err(
                SpeechApiError::InvalidConfig(
                    "VIDEOTAXI_TOKEN environment variable not set".to_owned(),
                ),
            ),
        }
    }

    /// The value of the authorization header: the bearer scheme and the
    /// credential.
    pub fn authorization(&self) -> (r: String)
        ensures
            r@ == "Bearer "@ + self.api_key@,
    {
        let mut header = "Bearer ".to_owned();
        header.append(self.api_key.as_str());
        header
    }

    /// The body of the first request: create a session with the name and
    /// the translation languages of `config`.
    pub fn create_session_request(config: &SessionConfig) -> (r: String)
        ensures
            r@ == spec_request_body(
                spec_create_query(config.session_name@, config.spec_languages()),
            ),
    {
        let mut query = "mutation { createRealtimeSession(name: ".to_owned();
        let name = json_quote(config.session_name.as_str());
        query.append(name.as_str());
        query.append(" translationLanguages: [");
        let list = language_list(&config.translation_languages);
        query.append(list.as_str());
        query.append("]) { id } }");
        request_body(query.as_str())
    }

    /// Reads the session identifier from the answer to the first request.
    pub fn session_id_from_response(response: &Json) -> (r: Result<String>)
        ensures
            match spec_response_text(*response, "createRealtimeSession"@, "id"@) {
                Some(id) => r == Ok::<String, SpeechApiError>(id),
                None => r is Err && r->Err_0 is InvalidConfig && r->Err_0->InvalidConfig_0@
                    == "Failed to get session ID from response"@,
            },
    {
        match response_text(response, "createRealtimeSession", "id") {
            Some(id) => Ok(id),
            None => Err(
                SpeechApiError::InvalidConfig("Failed to get session ID from response".to_owned()),
            ),
        }
    }

    /// The body of the second request: describe the session, with the
    /// languages and the voiceover flag of `config`.
    pub fn session_details_request(session_id: &str, config: &SessionConfig) -> (r: String)
        ensures
            r@ == spec_request_body(
                spec_details_query(
                    session_id@,
                    config.master_language@,
                    config.viewer_language@,
                    config.enable_voiceover,
                ),
            ),
    {
        let mut query = "query { realtimeSession(id: ".to_owned();
        let id = json_quote(session_id);
        query.append(id.as_str());
        query.append(") { id masterSocketUrl(languageCode: ");
        let master = json_quote(config.master_language.as_str());
        query.append(master.as_str());
        query.append(") name translationLanguages viewerSocketUrl(enableVoiceover: ");
        if config.enable_voiceover {
            query.append("true");
        } else {
            query.append("false");
        }
        query.append(", languageCode: ");
        let viewer = json_quote(config.viewer_language.as_str());
        query.append(viewer.as_str());
        query.append(") viewerWebUrl } }");
        request_body(query.as_str())
    }

    /// Builds the session from the answer to the second request. The
    /// master endpoint is looked for first.
    pub fn session_from_response(
        response: &Json,
        session_id: String,
        config: SessionConfig,
    ) -> (r: Result<VideoTaxiSession>)
        ensures
            match (
                spec_response_text(*response, "realtimeSession"@, "masterSocketUrl"@),
                spec_response_text(*response, "realtimeSession"@, "viewerSocketUrl"@),
            ) {
                (Some(master), Some(viewer)) => r == Ok::<VideoTaxiSession, SpeechApiError>(
                    VideoTaxiSession {
                        session_id,
                        master_socket_url: master,
                        viewer_socket_url: viewer,
                        config,
                    },
                ),
                (None, _) => r is Err && r->Err_0 is InvalidConfig && r->Err_0->InvalidConfig_0@
                    == "Failed to get master socket URL"@,
                (Some(_), None) => r is Err && r->Err_0 is InvalidConfig
                    && r->Err_0->InvalidConfig_0@ == "Failed to get viewer socket URL"@,
            },
    {
        let master_socket_url = match response_text(response, "realtimeSession", "masterSocketUrl") {
            Some(url) => url,
            None => {
                return Err(
                    SpeechApiError::InvalidConfig("Failed to get master socket URL".to_owned()),
                );
            },
        };
        let viewer_socket_url = match response_text(response, "realtimeSession", "viewerSocketUrl") {
            Some(url) => url,
            None => {
                return Err(
                    SpeechApiError::InvalidConfig("Failed to get viewer socket URL".to_owned()),
                );
            },
        };
        Ok(VideoTaxiSession { session_id, master_socket_url, viewer_socket_url, config })
    }
}

impl VideoTaxiSession {
    /// The retry policy of the event connection where the caller names
    /// none. The audio connection is tried once.
    pub fn event_receiver_policy(&self) -> (r: RetryPolicy)
        ensures
            r.max_attempts == 30,
            r.delay_millis == 2000,
    {
        RetryPolicy::standard()
    }
}

} // verus!
