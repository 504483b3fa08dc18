//! The client session: a base server URL and the draft identifier the
//! server assigned, if any.  Each remote operation is split into the part
//! this crate is responsible for — checking the draft gate, building the
//! exact request, and reading the response — while the HTTP transport
//! itself lives outside the library.
//!
//! Times are carried as whole milliseconds and the volume as thousandths
//! of full scale; on the wire both appear as decimal seconds / a decimal
//! scalar, exactly as [`crate::text::fixed3`] renders them.

use vstd::prelude::*;

use crate::parse::string_field;
use crate::parse::extract_string_field;
use crate::text::dec_str;
use crate::text::escape_str;
use crate::text::fixed3;
use crate::text::append_dec;
use crate::text::append_escaped;
use crate::text::append_fixed3;

verus! {

/// Why an operation was refused without any request being made, or why a
/// response could not be used.
#[derive(Debug, PartialEq, Eq, Clone, Copy)]
pub enum ClientError {
    /// An operation that needs a draft ran before a draft was created.
    NoActiveDraft,
    /// The response body was not a flat JSON object binding the expected
    /// field to a string.
    BadResponse,
}

impl ClientError {
    /// A short description, in place of a `Display` implementation.
    pub fn message(&self) -> (r: String)
        ensures
            *self is NoActiveDraft ==> r@ == "no active draft"@,
            *self is BadResponse ==> r@ == "malformed server response"@,
    {
        match self {
            ClientError::NoActiveDraft => String::from_str("no active draft"),
            ClientError::BadResponse => String::from_str("malformed server response"),
        }
    }
}

/// One fully prepared HTTP POST: the absolute URL and the JSON body.
#[derive(Debug, PartialEq, Eq)]
pub struct HttpRequest {
    pub url: String,
    pub body: String,
}

/// The request body for `/create_draft`.
pub open spec fn create_draft_body(w: nat, h: nat) -> Seq<char> {
    "{\"canvas_width\":"@ + dec_str(w) + ",\"canvas_height\":"@ + dec_str(h) + "}"@
}

/// The request body for `/add_video`.
pub open spec fn add_video_body(
    draft: Seq<char>,
    video_url: Seq<char>,
    start_ms: nat,
    end_ms: nat,
    volume_milli: nat,
) -> Seq<char> {
    "{\"draft_id\":\""@ + escape_str(draft) + "\",\"video_url\":\""@ + escape_str(video_url)
        + "\",\"start\":"@ + fixed3(start_ms) + ",\"end\":"@ + fixed3(end_ms) + ",\"volume\":"@
        + fixed3(volume_milli) + "}"@
}

/// The request body for `/add_text`.
pub open spec fn add_text_body(
    draft: Seq<char>,
    text: Seq<char>,
    start_ms: nat,
    end_ms: nat,
) -> Seq<char> {
    "{\"draft_id\":\""@ + escape_str(draft) + "\",\"text\":\""@ + escape_str(text)
        + "\",\"start\":"@ + fixed3(start_ms) + ",\"end\":"@ + fixed3(end_ms) + "}"@
}

/// The request body for `/save_draft`.
pub open spec fn save_draft_body(draft: Seq<char>) -> Seq<char> {
    "{\"draft_id\":\""@ + escape_str(draft) + "\"}"@
}

/// The draft identifier a `/create_draft` response carries, if it is
/// well-formed.
pub open spec fn draft_id_of(body: Seq<char>) -> Option<Seq<char>> {
    string_field(body, "draft_id"@)
}

/// The draft path a `/save_draft` response carries, if it is well-formed.
pub open spec fn draft_path_of(body: Seq<char>) -> Option<Seq<char>> {
    string_field(body, "draft_path"@)
}

/// The client session.  `draft_id` is set once, by a successful
/// create-draft exchange, and every later operation requires it.
pub struct VectCutClient {
    pub base_url: String,
    pub draft_id: Option<String>,
}

impl VectCutClient {
    /// A fresh session against the given server, with no active draft.
    pub fn new(base_url: String) -> (r: Self)
        ensures
            r.base_url@ == base_url@,
            r.draft_id is None,
    {
        VectCutClient { base_url, draft_id: None }
    }

    /// A fresh session against the default local server.
    pub fn default() -> (r: Self)
        ensures
            r.base_url@ == "http://127.0.0.1:9001"@,
            r.draft_id is None,
    {
        VectCutClient::new(String::from_str("http://127.0.0.1:9001"))
    }

    /// The `/create_draft` request for the given canvas size.  This is the
    /// one operation that needs no draft.
    pub fn create_draft_request(&self, width: u32, height: u32) -> (r: HttpRequest)
        ensures
            r.url@ == self.base_url@ + "/create_draft"@,
            r.body@ == create_draft_body(width as nat, height as nat),
    {
        let mut url = self.base_url.clone();
        url.append("/create_draft");
        let mut body = String::from_str("{\"canvas_width\":");
        append_dec(&mut body, width as u64);
        body.append(",\"canvas_height\":");
        append_dec(&mut body, height as u64);
        body.append("}");
        HttpRequest { url, body }
    }

    /// Takes the `/create_draft` response body: on a well-formed response
    /// the server-issued identifier is stored and returned; otherwise the
    /// session is left unchanged.
    pub fn create_draft(&mut self, response_body: &str) -> (r: Result<String, ClientError>)
        ensures
            final(self).base_url@ == old(self).base_url@,
            match draft_id_of(response_body@) {
                Some(d) => r matches Ok(id) && id@ == d && (final(self).draft_id matches Some(t)
                    && t@ == d),
                None => r == Err::<String, ClientError>(ClientError::BadResponse)
                    && final(self).draft_id == old(self).draft_id,
            },
    {
        match extract_string_field(response_body, "draft_id") {
            Some(id) => {
                self.draft_id = Some(id.clone());
                Ok(id)
            },
            None => Err(ClientError::BadResponse),
        }
    }

    /// The `/add_video` request, or `NoActiveDraft` — without any request
    /// being built — when no draft exists yet.
    pub fn add_video(
        &self,
        video_url: &str,
        start_ms: u64,
        end_ms: u64,
        volume_milli: u64,
    ) -> (r: Result<HttpRequest, ClientError>)
        ensures
            self.draft_id is None ==> r == Err::<HttpRequest, ClientError>(
                ClientError::NoActiveDraft,
            ),
            self.draft_id matches Some(d) ==> r matches Ok(q) && q.url@ == self.base_url@
                + "/add_video"@ && q.body@ == add_video_body(
                d@,
                video_url@,
                start_ms as nat,
                end_ms as nat,
                volume_milli as nat,
            ),
    {
        match &self.draft_id {
            None => Err(ClientError::NoActiveDraft),
            Some(d) => {
                let mut url = self.base_url.clone();
                url.append("/add_video");
                let mut body = String::from_str("{\"draft_id\":\"");
                append_escaped(&mut body, d.as_str());
                body.append("\",\"video_url\":\"");
                append_escaped(&mut body, video_url);
                body.append("\",\"start\":");
                append_fixed3(&mut body, start_ms);
                body.append(",\"end\":");
                append_fixed3(&mut body, end_ms);
                body.append(",\"volume\":");
                append_fixed3(&mut body, volume_milli);
                body.append("}");
                Ok(HttpRequest { url, body })
            },
        }
    }

    /// The `/add_text` request, or `NoActiveDraft` — without any request
    /// being built — when no draft exists yet.
    pub fn add_text(&self, text: &str, start_ms: u64, end_ms: u64) -> (r: Result<
        HttpRequest,
        ClientError,
    >)
        ensures
            self.draft_id is None ==> r == Err::<HttpRequest, ClientError>(
                ClientError::NoActiveDraft,
            ),
            self.draft_id matches Some(d) ==> r matches Ok(q) && q.url@ == self.base_url@
                + "/add_text"@ && q.body@ == add_text_body(
                d@,
                text@,
                start_ms as nat,
                end_ms as nat,
            ),
    {
        match &self.draft_id {
            None => Err(ClientError::NoActiveDraft),
            Some(d) => {
                let mut url = self.base_url.clone();
                url.append("/add_text");
                let mut body = String::from_str("{\"draft_id\":\"");
                append_escaped(&mut body, d.as_str());
                body.append("\",\"text\":\"");
                append_escaped(&mut body, text);
                body.append("\",\"start\":");
                append_fixed3(&mut body, start_ms);
                body.append(",\"end\":");
                append_fixed3(&mut body, end_ms);
                body.append("}");
                Ok(HttpRequest { url, body })
            },
        }
    }

    /// The `/save_draft` request, or `NoActiveDraft` — without any request
    /// being built — when no draft exists yet.
    pub fn save_draft(&self) -> (r: Result<HttpRequest, ClientError>)
        ensures
            self.draft_id is None ==> r == Err::<HttpRequest, ClientError>(
                ClientError::NoActiveDraft,
            ),
            self.draft_id matches Some(d) ==> r matches Ok(q) && q.url@ == self.base_url@
                + "/save_draft"@ && q.body@ == save_draft_body(d@),
    {
        match &self.draft_id {
            None => Err(ClientError::NoActiveDraft),
            Some(d) => {
                let mut url = self.base_url.clone();
                url.append("/save_draft");
                let mut body = String::from_str("{\"draft_id\":\"");
                append_escaped(&mut body, d.as_str());
                body.append("\"}");
                Ok(HttpRequest { url, body })
            },
        }
    }

    /// Takes the `/save_draft` response body and returns the draft path
    /// exactly as the server sent it.
    pub fn save_draft_response(response_body: &str) -> (r: Result<String, ClientError>)
        ensures
            match draft_path_of(response_body@) {
                Some(p) => r matches Ok(path) && path@ == p,
                None => r == Err::<String, ClientError>(ClientError::BadResponse),
            },
    {
        match extract_string_field(response_body, "draft_path") {
            Some(path) => Ok(path),
            None => Err(ClientError::BadResponse),
        }
    }
}

} // verus!
