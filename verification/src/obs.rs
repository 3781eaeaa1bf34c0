//! The object-store backend: bucket addressing and the signed PUT request.
//! Only the network send is left to the caller; every request part is
//! computed and specified here.

use vstd::prelude::*;
use vstd::utf8::encode_utf8;

use crate::codec::b64_of;
use crate::codec::hmac_sha1_of;
use crate::codec::gmt_date_of;
use crate::codec::b64_encode;
use crate::codec::format_gmt;
use crate::codec::hmac_sha1;
use crate::codec::MAX_GMT_SECS;
use crate::credentials::ObsCredentials;

verus! {

/// Whether or not to use SSL.
#[derive(Debug, Copy, Clone, PartialEq, Eq, Structural)]
pub enum Ssl {
    Yes,
    No,
}

/// The base URL of an endpoint: scheme, endpoint host, trailing slash.
pub open spec fn spec_base_url(endpoint: Seq<char>, ssl: Ssl) -> Seq<char> {
    (if ssl is Yes {
        "https://"@
    } else {
        "http://"@
    }) + endpoint + "/"@
}

/// Forms the base URL a bucket's requests go to.
pub fn base_url(endpoint: &str, ssl: Ssl) -> (r: String)
    ensures
        r@ == spec_base_url(endpoint@, ssl),
{
    let mut out = match ssl {
        Ssl::Yes => "https://".to_owned(),
        Ssl::No => "http://".to_owned(),
    };
    out.append(endpoint);
    out.append("/");
    out
}

/// The Base64 HMAC-SHA-1 signature of a string to sign under a signing key.
pub open spec fn spec_signature(string_to_sign: Seq<char>, signing_key: Seq<char>) -> Seq<char> {
    b64_of(hmac_sha1_of(encode_utf8(signing_key), encode_utf8(string_to_sign)))
}

/// Signs the canonical request text with the secret key.
pub fn signature(string_to_sign: &str, signing_key: &str) -> (r: String)
    ensures
        r@ == spec_signature(string_to_sign@, signing_key@),
{
    let digest = hmac_sha1(signing_key.as_bytes(), string_to_sign.as_bytes());
    b64_encode(digest.as_slice())
}

/// The canonical string to sign for an object-store request: verb, MD5,
/// content type and date, each newline-terminated, then the canonicalized
/// headers and the resource `/{bucket}/{path}`.
pub open spec fn obs_string_to_sign(
    verb: Seq<char>,
    md5: Seq<char>,
    content_type: Seq<char>,
    date: Seq<char>,
    headers: Seq<char>,
    bucket: Seq<char>,
    path: Seq<char>,
) -> Seq<char> {
    verb + "\n"@ + md5 + "\n"@ + content_type + "\n"@ + date + "\n"@ + headers + "/"@ + bucket
        + "/"@ + path
}

/// The `Authorization` header: the access key and the signature of the
/// string to sign under the secret key.
pub open spec fn obs_auth(access: Seq<char>, secret: Seq<char>, string_to_sign: Seq<char>) -> Seq<
    char,
> {
    "OBS "@ + access + ":"@ + spec_signature(string_to_sign, secret)
}

/// The canonicalized `x-obs-` headers of a request: the security token line
/// when a token is present, nothing otherwise.
pub open spec fn obs_canonical_headers(token: Option<Seq<char>>) -> Seq<char> {
    match token {
        Some(t) => "x-obs-security-token:"@ + t + "\n"@,
        None => Seq::empty(),
    }
}

/// An object-store bucket: its name, the base URL requests go to, and the
/// `Host` header value.
pub struct Bucket {
    pub name: String,
    pub base_url: String,
    pub host: String,
}

/// Every part of the PUT request the store receives; the caller sends it
/// without touching any value.
pub struct ObsPutRequest {
    pub url: String,
    pub date: String,
    pub host: String,
    pub content_type: String,
    pub content_length: usize,
    pub security_token: Option<String>,
    pub authorization: String,
}

impl Bucket {
    /// Addresses a bucket on an endpoint.
    pub fn new(name: &str, endpoint: &str, ssl: Ssl) -> (b: Bucket)
        ensures
            b.name@ == name@,
            b.base_url@ == spec_base_url(endpoint@, ssl),
            b.host@ == name@ + "."@ + endpoint@,
    {
        let burl = base_url(endpoint, ssl);
        let mut host = name.to_owned();
        host.append(".");
        host.append(endpoint);
        Bucket { name: name.to_owned(), base_url: burl, host }
    }

    /// A short description of the bucket.
    pub fn describe(&self) -> (r: String)
        ensures
            r@ == "Bucket(name="@ + self.name@ + ", base_url="@ + self.base_url@ + ")"@,
    {
        let mut out = "Bucket(name=".to_owned();
        out.append(self.name.as_str());
        out.append(", base_url=");
        out.append(self.base_url.as_str());
        out.append(")");
        out
    }

    /// The `Authorization` header for a request, exactly as the store's
    /// signing scheme demands it.
    pub fn auth(
        &self,
        verb: &str,
        date: &str,
        path: &str,
        md5: &str,
        headers: &str,
        content_type: &str,
        creds: &ObsCredentials,
    ) -> (r: String)
        ensures
            r@ == obs_auth(
                creds.access@,
                creds.secret@,
                obs_string_to_sign(verb@, md5@, content_type@, date@, headers@, self.name@, path@),
            ),
    {
        let mut sts = verb.to_owned();
        sts.append("\n");
        sts.append(md5);
        sts.append("\n");
        sts.append(content_type);
        sts.append("\n");
        sts.append(date);
        sts.append("\n");
        sts.append(headers);
        sts.append("/");
        sts.append(self.name.as_str());
        sts.append("/");
        sts.append(path);
        let sig = signature(sts.as_str(), creds.secret.as_str());
        let mut out = "OBS ".to_owned();
        out.append(creds.access.as_str());
        out.append(":");
        out.append(sig.as_str());
        out
    }

    /// Assembles the signed PUT of `content_length` bytes at `key`, dated
    /// `now_secs`: the URL under the bucket's base, the GMT date, the host
    /// and content headers, the token header when the credentials carry one,
    /// and the matching authorization.
    pub fn put_request(
        &self,
        key: &str,
        content_length: usize,
        now_secs: i64,
        creds: &ObsCredentials,
    ) -> (r: ObsPutRequest)
        requires
            0 <= now_secs <= MAX_GMT_SECS,
        ensures
            r.url@ == self.base_url@ + key@,
            r.date@ == gmt_date_of(now_secs),
            r.host@ == self.host@,
            r.content_type@ == "application/octet-stream"@,
            r.content_length == content_length,
            r.security_token is Some <==> creds.security_token is Some,
            r.security_token matches Some(t) ==> t@ == creds.security_token->0@,
            r.authorization@ == obs_auth(
                creds.access@,
                creds.secret@,
                obs_string_to_sign(
                    "PUT"@,
                    ""@,
                    "application/octet-stream"@,
                    gmt_date_of(now_secs),
                    obs_canonical_headers(
                        match creds.security_token {
                            Some(t) => Some(t@),
                            None => None,
                        },
                    ),
                    self.name@,
                    key@,
                ),
            ),
    {
        let mut url = self.base_url.clone();
        url.append(key);
        let date = format_gmt(now_secs);
        let (canonical_headers, token): (String, Option<String>) = match &creds.security_token {
            Some(t) => {
                let mut h = "x-obs-security-token:".to_owned();
                h.append(t.as_str());
                h.append("\n");
                (h, Some(t.clone()))
            },
            None => (String::new(), None),
        };
        let authorization = self.auth(
            "PUT",
            date.as_str(),
            key,
            "",
            canonical_headers.as_str(),
            "application/octet-stream",
            creds,
        );
        ObsPutRequest {
            url,
            date,
            host: self.host.clone(),
            content_type: "application/octet-stream".to_owned(),
            content_length,
            security_token: token,
            authorization,
        }
    }
}

} // verus!
