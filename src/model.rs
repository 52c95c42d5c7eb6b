//! The records exchanged with the service, and the JSON framing of the
//! records this client sends.
use vstd::prelude::*;

verus! {

/// Capabilities and settings the server reports about itself.
#[derive(Debug)]
pub struct ApplicationInformation {
    /// Whether pastes are created with a modification token.
    pub modification_tokens: bool,
    /// Default lifetime of a paste in seconds, or -1 for unlimited.
    pub paste_lifetime: isize,
    /// Whether reporting of pastes is enabled.
    pub reports: bool,
    /// Version string of the server.
    pub version: String,
}

/// Parameters of client-side encryption of a paste's content.
#[derive(Debug)]
pub struct PfEncryption {
    /// Name of the encryption algorithm.
    pub alg: String,
    /// Initialization vector.
    pub iv: String,
}

/// Optional side-channel description attached to a paste.
#[derive(Debug)]
pub struct Metadata {
    pub pf_encryption: Option<PfEncryption>,
}

/// A stored paste as the server returns it.
#[derive(Debug)]
pub struct Paste {
    pub id: String,
    pub content: String,
    /// Creation time, in seconds since the Unix epoch.
    pub created: usize,
    pub metadata: Option<Metadata>,
}

/// Body of a request that creates or replaces a paste's content.
#[derive(Debug)]
pub struct CreatePasteRequest {
    pub content: String,
    pub metadata: Option<Metadata>,
}

/// A freshly created paste together with the token that allows changing it.
///
/// On the wire the token is a sibling of the paste's own fields, all in one
/// flat JSON object.
#[derive(Debug)]
pub struct CreatedPaste {
    pub modification_token: String,
    pub paste: Paste,
}

/// The JSON string literal, quotes and escapes included, that encodes `s`.
pub uninterp spec fn json_quoted(s: Seq<char>) -> Seq<char>;

/// Relies on `serde_json::to_string` applied to a `str`: it yields the JSON
/// string literal for `s`, and writing a string into memory cannot fail.
#[verifier::external_body]
fn quote(s: &str) -> (r: core::result::Result<String, serde_json::Error>)
    ensures
        r is Ok,
        r->Ok_0@ == json_quoted(s@),
{
    serde_json::to_string(s)
}

/// JSON text of an optional value: its own text, or `null` when absent.
pub open spec fn json_or_null(v: Option<Seq<char>>) -> Seq<char> {
    match v {
        Some(t) => t,
        None => "null"@,
    }
}

impl PfEncryption {
    /// `{"alg":<alg>,"iv":<iv>}`
    pub open spec fn json(self) -> Seq<char> {
        "{\"alg\":"@ + json_quoted(self.alg@) + ",\"iv\":"@ + json_quoted(self.iv@) + "}"@
    }

    /// Encodes this record as JSON.
    pub fn to_json(&self) -> (r: String)
        ensures
            r@ == self.json(),
    {
        let mut out = String::from_str("{\"alg\":");
        out.append(quote(self.alg.as_str()).unwrap().as_str());
        out.append(",\"iv\":");
        out.append(quote(self.iv.as_str()).unwrap().as_str());
        out.append("}");
        out
    }
}

impl Metadata {
    /// `{"pf_encryption":<encryption or null>}`
    pub open spec fn json(self) -> Seq<char> {
        "{\"pf_encryption\":"@ + json_or_null(
            match self.pf_encryption {
                Some(e) => Some(e.json()),
                None => None,
            },
        ) + "}"@
    }

    /// Encodes this record as JSON.
    pub fn to_json(&self) -> (r: String)
        ensures
            r@ == self.json(),
    {
        let mut out = String::from_str("{\"pf_encryption\":");
        match &self.pf_encryption {
            Some(e) => {
                let inner = e.to_json();
                out.append(inner.as_str());
            },
            None => {
                out.append("null");
            },
        }
        out.append("}");
        out
    }
}

/// JSON text of optional metadata: `null` when absent.
pub open spec fn metadata_json(m: Option<Metadata>) -> Seq<char> {
    json_or_null(
        match m {
            Some(m) => Some(m.json()),
            None => None,
        },
    )
}

/// `{"content":<content>,"metadata":<metadata or null>}`
pub open spec fn paste_body_json(content: Seq<char>, metadata: Option<Metadata>) -> Seq<char> {
    "{\"content\":"@ + json_quoted(content) + ",\"metadata\":"@ + metadata_json(metadata) + "}"@
}

impl CreatePasteRequest {
    /// Encodes this request body as JSON.
    pub fn to_json(&self) -> (r: String)
        ensures
            r@ == paste_body_json(self.content@, self.metadata),
    {
        let mut out = String::from_str("{\"content\":");
        out.append(quote(self.content.as_str()).unwrap().as_str());
        out.append(",\"metadata\":");
        match &self.metadata {
            Some(m) => {
                let inner = m.to_json();
                out.append(inner.as_str());
            },
            None => {
                out.append("null");
            },
        }
        out.append("}");
        out
    }
}

} // verus!
