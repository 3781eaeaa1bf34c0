//! The CDN storage backend: operator identity, request addressing, and the
//! outcome rule for uploads. The network send is the caller's; everything it
//! sends is computed and specified here.

use vstd::prelude::*;
use vstd::utf8::encode_utf8;

use crate::codec::b64_of;
use crate::codec::gmt_date_of;
use crate::codec::b64_encode;
use crate::codec::format_gmt;
use crate::codec::MAX_GMT_SECS;
use crate::json::json_u64_field;
use crate::json::get_json_u64_field;

verus! {

/// The storage service's access networks.
#[derive(Debug, Clone, Copy, PartialEq, Eq, Structural)]
pub enum Provider {
    Auto,
    ChinaNet,
    Unicom,
    ChinaMobile,
}

/// The API base each provider answers on.
pub open spec fn provider_base(p: Provider) -> Seq<char> {
    match p {
        Provider::Auto => "https://v0.api.upyun.com"@,
        Provider::ChinaNet => "https://v1.api.upyun.com"@,
        Provider::Unicom => "https://v2.api.upyun.com"@,
        Provider::ChinaMobile => "https://v3.api.upyun.com"@,
    }
}

impl Provider {
    /// The API base this provider answers on.
    pub fn endpoint(&self) -> (r: String)
        ensures
            r@ == provider_base(*self),
    {
        match self {
            Provider::Auto => "https://v0.api.upyun.com".to_owned(),
            Provider::ChinaNet => "https://v1.api.upyun.com".to_owned(),
            Provider::Unicom => "https://v2.api.upyun.com".to_owned(),
            Provider::ChinaMobile => "https://v3.api.upyun.com".to_owned(),
        }
    }
}

/// An upload failure: the error code the service reported, zero when the
/// response body carried none.
#[derive(Clone, Copy, Debug, PartialEq, Eq, Structural)]
pub struct UpyunError {
    pub code: u64,
}

/// The parts of one storage request: its URL and the three header values the
/// service requires.
pub struct UpyunRequest {
    pub url: String,
    pub user_agent: String,
    pub authorization: String,
    pub date: String,
}

/// The operator account requests are made under; its authorization header is
/// the Base64 of `name:password`.
#[derive(Clone, Debug)]
pub struct Operator {
    pub name: String,
    pub passwd: String,
    pub authorization: String,
}

impl Operator {
    /// An operator whose authorization header is derived from its name and
    /// password.
    pub fn new(name: &str, passwd: &str) -> (o: Operator)
        ensures
            o.name@ == name@,
            o.passwd@ == passwd@,
            o.authorization@ == "Basic "@ + b64_of(encode_utf8(name@ + ":"@ + passwd@)),
    {
        let mut joined = name.to_owned();
        joined.append(":");
        joined.append(passwd);
        let encoded = b64_encode(joined.as_str().as_bytes());
        let mut authorization = "Basic ".to_owned();
        authorization.append(encoded.as_str());
        Operator { name: name.to_owned(), passwd: passwd.to_owned(), authorization }
    }

    /// The parts of a request for `path` on `provider`, dated `date_secs` if
    /// given and `now_secs` otherwise.
    pub fn request(&self, provider: Provider, path: &str, date_secs: Option<i64>, now_secs: i64) -> (r:
        UpyunRequest)
        requires
            0 <= now_secs <= MAX_GMT_SECS,
            date_secs matches Some(d) ==> 0 <= d <= MAX_GMT_SECS,
        ensures
            r.url@ == provider_base(provider) + path@,
            r.user_agent@ == "upyun-client (crates-io.cn)"@,
            r.authorization@ == self.authorization@,
            r.date@ == gmt_date_of(
                match date_secs {
                    Some(d) => d,
                    None => now_secs,
                },
            ),
    {
        let mut url = provider.endpoint();
        url.append(path);
        let date = match date_secs {
            Some(d) => format_gmt(d),
            None => format_gmt(now_secs),
        };
        UpyunRequest {
            url,
            user_agent: "upyun-client (crates-io.cn)".to_owned(),
            authorization: self.authorization.clone(),
            date,
        }
    }
}

/// A handle on the storage service: the operator and the provider network
/// requests go through.
#[derive(Clone, Debug)]
pub struct Upyun {
    pub operator: Operator,
    pub provider: Provider,
}

impl Upyun {
    /// A handle that picks the provider automatically.
    pub fn new(operator: Operator) -> (u: Upyun)
        ensures
            u.operator == operator,
            u.provider is Auto,
    {
        Upyun { operator, provider: Provider::Auto }
    }

    /// Routes subsequent requests through the given provider.
    pub fn set_provider(&mut self, provider: Provider)
        ensures
            final(self).provider == provider,
            final(self).operator == old(self).operator,
    {
        self.provider = provider;
    }

    /// The storage path of `key` in `bucket`.
    pub fn put_path(bucket: &str, key: &str) -> (r: String)
        ensures
            r@ == "/"@ + bucket@ + "/"@ + key@,
    {
        let mut out = "/".to_owned();
        out.append(bucket);
        out.append("/");
        out.append(key);
        out
    }

    /// The request that stores `key` in `bucket`, dated `now_secs`.
    pub fn put_request(&self, bucket: &str, key: &str, now_secs: i64) -> (r: UpyunRequest)
        requires
            0 <= now_secs <= MAX_GMT_SECS,
        ensures
            r.url@ == provider_base(self.provider) + "/"@ + bucket@ + "/"@ + key@,
            r.user_agent@ == "upyun-client (crates-io.cn)"@,
            r.authorization@ == self.operator.authorization@,
            r.date@ == gmt_date_of(now_secs),
    {
        let path = Upyun::put_path(bucket, key);
        let r = self.operator.request(self.provider, path.as_str(), None, now_secs);
        proof {
            assert(provider_base(self.provider) + ("/"@ + bucket@ + ("/"@ + key@))
                =~= provider_base(self.provider) + "/"@ + bucket@ + "/"@ + key@);
        }
        r
    }

    /// Decides an upload's outcome from the response: status 200 is success;
    /// anything else fails with the `code` field of the response body, or
    /// code zero when the body has no such field.
    pub fn put_outcome(status: u16, body: &str) -> (r: Result<(), UpyunError>)
        ensures
            status == 200 <==> r is Ok,
            status != 200 ==> r == Result::<(), UpyunError>::Err(
                UpyunError {
                    code: match json_u64_field(body@, "code"@) {
                        Some(c) => c,
                        None => 0,
                    },
                },
            ),
    {
        if status == 200 {
            Ok(())
        } else {
            let code = match get_json_u64_field(body, "code") {
                Some(c) => c,
                None => 0,
            };
            Err(UpyunError { code })
        }
    }
}

} // verus!
