//! Configuration of the webhook that delivers e-mail one-time codes.
use vstd::prelude::*;

use crate::text::{chars_of, has_prefix, starts_with, trim_chars, trim_spec};

verus! {

/// Where and how one-time codes are handed to the mailer.
#[derive(Debug)]
pub struct EmailOtpMailerConfig {
    pub endpoint: String,
    pub token: String,
    pub from: Option<String>,
}

/// The host named by `rest`, the part of a URL after `scheme://`: everything
/// up to the first `:` or `/`.
pub open spec fn host_part(rest: Seq<char>) -> Seq<char>
    decreases rest.len(),
{
    if rest.len() == 0 || rest[0] == ':' || rest[0] == '/' {
        seq![]
    } else {
        seq![rest[0]] + host_part(rest.drop_first())
    }
}

/// A local test endpoint: plain HTTP to this machine.
pub open spec fn local_http_endpoint(url: Seq<char>) -> bool {
    starts_with(url, "http://"@) && {
        let host = host_part(url.skip(7));
        host == "127.0.0.1"@ || host == "localhost"@
    }
}

/// The mailer must be reached over HTTPS, except for local test endpoints.
pub open spec fn acceptable_endpoint(url: Seq<char>) -> bool {
    starts_with(url, "https://"@) || local_http_endpoint(url)
}

fn host_of(chars: &Vec<char>, from: usize) -> (r: Vec<char>)
    requires
        from <= chars@.len(),
    ensures
        r@ == host_part(chars@.skip(from as int)),
{
    let mut r: Vec<char> = Vec::new();
    // Find where the host ends.
    let mut end = from;
    while end < chars.len() && chars[end] != ':' && chars[end] != '/'
        invariant
            from <= end <= chars@.len(),
            forall|k: int| from <= k < end ==> chars@[k] != ':' && chars@[k] != '/',
        decreases chars@.len() - end,
    {
        end = end + 1;
    }
    proof {
        lemma_host_part(chars@.skip(from as int), (end - from) as int);
    }
    let mut k = from;
    while k < end
        invariant
            from <= k <= end <= chars@.len(),
            r@ == chars@.subrange(from as int, k as int),
        decreases end - k,
    {
        r.push(chars[k]);
        k = k + 1;
        assert(r@ =~= chars@.subrange(from as int, k as int));
    }
    assert(r@ =~= chars@.skip(from as int).take((end - from) as int));
    r
}

proof fn lemma_host_part(s: Seq<char>, k: int)
    requires
        0 <= k <= s.len(),
        forall|j: int| 0 <= j < k ==> s[j] != ':' && s[j] != '/',
        k < s.len() ==> (s[k] == ':' || s[k] == '/'),
    ensures
        host_part(s) == s.take(k),
    decreases k,
{
    if k > 0 {
        let t = s.drop_first();
        assert forall|j: int| 0 <= j < k - 1 implies t[j] != ':' && t[j] != '/' by {
            assert(t[j] == s[j + 1]);
        }
        lemma_host_part(t, k - 1);
        assert(seq![s[0]] + t.take(k - 1) =~= s.take(k));
    } else {
        assert(s.take(0) =~= seq![]);
    }
}

fn same_text(a: &Vec<char>, b: &str) -> (r: bool)
    ensures
        r == (a@ == b@),
{
    let bc = chars_of(b);
    if a.len() != bc.len() {
        return false;
    }
    let mut i: usize = 0;
    while i < a.len()
        invariant
            a@.len() == bc@.len(),
            bc@ == b@,
            i <= a@.len(),
            forall|k: int| 0 <= k < i ==> a@[k] == bc@[k],
        decreases a@.len() - i,
    {
        if a[i] != bc[i] {
            return false;
        }
        i = i + 1;
    }
    assert(a@ =~= bc@);
    true
}

impl EmailOtpMailerConfig {
    /// A mailer configuration; refused when the endpoint is neither HTTPS
    /// nor a local test endpoint, or when the token is blank.
    pub fn new(endpoint: String, token: String, from: Option<String>) -> (r: Result<Self, String>)
        ensures
            match r {
                Ok(config) => acceptable_endpoint(endpoint@) && trim_spec(token@).len() > 0
                    && config.endpoint@ == endpoint@ && config.token@ == token@ && config.from
                    == from,
                Err(message) => (!acceptable_endpoint(endpoint@) && message@
                    == "email otp mailer endpoint must use https"@) || (acceptable_endpoint(
                    endpoint@,
                ) && trim_spec(token@).len() == 0 && message@
                    == "email otp mailer token is required"@),
            },
    {
        let chars = chars_of(endpoint.as_str());
        let https = has_prefix(&chars, &chars_of("https://"));
        let http = has_prefix(&chars, &chars_of("http://"));
        let mut local = false;
        if http {
            proof {
                reveal_strlit("http://");
            }
            let host = host_of(&chars, 7);
            local = same_text(&host, "127.0.0.1") || same_text(&host, "localhost");
        }
        if !https && !local {
            return Err("email otp mailer endpoint must use https".to_owned());
        }
        let token_chars = chars_of(token.as_str());
        let trimmed = trim_chars(token_chars.as_slice());
        if trimmed.len() == 0 {
            return Err("email otp mailer token is required".to_owned());
        }
        Ok(EmailOtpMailerConfig { endpoint, token, from })
    }
}

} // verus!
