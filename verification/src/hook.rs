//! A hook binds an event pattern, an optional shared secret, and a
//! callback, and authenticates each delivery before running it.

use vstd::prelude::*;
use vstd::utf8::encode_utf8;

use crate::crypto::decode_hex;
use crate::crypto::hex_decode;
use crate::crypto::hex_ok;
use crate::crypto::hmac_sha1;
use crate::crypto::hmac_sha1_matches;
use crate::crypto::MAX_HMAC_INPUT;
use crate::handler::Delivery;
use crate::handler::DeliveryType;
use crate::text::push_char;

verus! {

/// The work a hook performs once a delivery has been authenticated.
/// Implement this for your own type to receive deliveries.
pub trait HookFunc: Sync + Send {
    fn run(&self, delivery: &Delivery);
}

/// An event-pattern-to-callback binding with optional shared-secret
/// authentication. The pattern `"*"` matches every event.
pub struct Hook {
    pub event: &'static str,
    pub secret: Option<String>,
    pub func: std::sync::Arc<dyn HookFunc>,
}

/// Whether a signature header starts with the GitHub scheme marker
/// `sha1=`.
pub open spec fn sha1_prefixed(sig: Seq<char>) -> bool {
    &&& sig.len() >= 5
    &&& sig[0] == 's'
    &&& sig[1] == 'h'
    &&& sig[2] == 'a'
    &&& sig[3] == '1'
    &&& sig[4] == '='
}

/// The GitHub check: the signature header is `sha1=` followed by the
/// hex form of the HMAC-SHA1 tag of the exact body bytes under the
/// secret. Oversized inputs (beyond any real request) never pass.
pub open spec fn github_sig_ok(secret: Seq<char>, sig: Seq<char>, body: Seq<char>) -> bool {
    &&& sha1_prefixed(sig)
    &&& hex_ok(sig.skip(5))
    &&& encode_utf8(secret).len() <= MAX_HMAC_INPUT
    &&& encode_utf8(body).len() <= MAX_HMAC_INPUT
    &&& hex_decode(sig.skip(5)) == hmac_sha1(encode_utf8(secret), encode_utf8(body))
}

/// GitHub authentication: a secret, a signature header and a buffered
/// body must all be present, and the signature must check out.
pub open spec fn github_accepts(h: Hook, d: Delivery) -> bool {
    &&& h.secret matches Some(s)
    &&& d.signature matches Some(sig)
    &&& d.request_body matches Some(b)
    &&& github_sig_ok(s@, sig@, b@)
}

/// GitLab authentication: the token header equals the secret,
/// byte for byte.
pub open spec fn gitlab_accepts(h: Hook, d: Delivery) -> bool {
    &&& h.secret matches Some(s)
    &&& d.signature matches Some(t)
    &&& t@ == s@
}

/// Per-hook authentication: no configured secret always passes; with a
/// secret, the platform's own scheme decides, and DockerHub (which has
/// none) always fails.
pub open spec fn accepts(h: Hook, d: Delivery) -> bool {
    match h.secret {
        None => true,
        Some(_) => match d.delivery_type {
            DeliveryType::GitHub => github_accepts(h, d),
            DeliveryType::GitLab => gitlab_accepts(h, d),
            DeliveryType::DockerHub => false,
        },
    }
}

/// A hook with no configured secret authenticates every delivery,
/// whatever its signature headers hold.
pub proof fn lemma_no_secret_accepts(h: Hook, d: Delivery)
    requires
        h.secret is None,
    ensures
        accepts(h, d),
{
}

impl Hook {
    /// Create a new hook.
    ///
    /// Relies on Arc::new and the coercion to a shared `dyn` callback,
    /// which the verifier does not model.
    #[verifier::external_body]
    pub fn new(event: &'static str, secret: Option<String>, func: impl HookFunc + 'static) -> (r:
        Self)
        ensures
            r.event == event,
            r.secret == secret,
    {
        Hook { event, secret, func: std::sync::Arc::new(func) }
    }

    /// Relies on Arc::clone: the copy shares the same callback.
    #[verifier::external_body]
    fn clone_parts(&self) -> (r: Self)
        ensures
            r == *self,
    {
        Hook {
            event: self.event,
            secret: self.secret.clone(),
            func: std::sync::Arc::clone(&self.func),
        }
    }

    /// Authenticate a delivery claiming to come from GitHub.
    pub fn auth_github(&self, delivery: &Delivery) -> (r: bool)
        ensures
            r == github_accepts(*self, *delivery),
    {
        let secret = match &self.secret {
            Some(s) => s,
            None => {
                return false;
            },
        };
        let signature = match &delivery.signature {
            Some(s) => s,
            None => {
                return false;
            },
        };
        let request_body = match &delivery.request_body {
            Some(b) => b,
            None => {
                return false;
            },
        };
        let sig = signature.as_str();
        let n = sig.unicode_len();
        if n < 5 {
            return false;
        }
        if !(sig.get_char(0) == 's' && sig.get_char(1) == 'h' && sig.get_char(2) == 'a'
            && sig.get_char(3) == '1' && sig.get_char(4) == '=') {
            return false;
        }
        let mut hexpart = String::new();
        let mut i: usize = 5;
        while i < n
            invariant
                n == sig@.len(),
                5 <= i <= n,
                hexpart@ == sig@.skip(5).take(i - 5),
            decreases n - i,
        {
            let c = sig.get_char(i);
            push_char(&mut hexpart, c);
            proof {
                assert(sig@.skip(5).take(i + 1 - 5) =~= sig@.skip(5).take(i - 5).push(
                    sig@[i as int],
                ));
            }
            i = i + 1;
        }
        proof {
            assert(sig@.skip(5).take(n - 5) =~= sig@.skip(5));
        }
        let sig_bytes = match decode_hex(hexpart.as_str()) {
            Some(v) => v,
            None => {
                return false;
            },
        };
        let secret_bytes = secret.as_str().as_bytes();
        let body_bytes = request_body.as_str().as_bytes();
        if (secret_bytes.len() as u64) > MAX_HMAC_INPUT {
            return false;
        }
        if (body_bytes.len() as u64) > MAX_HMAC_INPUT {
            return false;
        }
        hmac_sha1_matches(secret_bytes, body_bytes, sig_bytes.as_slice())
    }

    /// Authenticate a delivery claiming to come from GitLab; no
    /// cryptography is involved.
    fn auth_gitlab(&self, delivery: &Delivery) -> (r: bool)
        ensures
            r == gitlab_accepts(*self, *delivery),
    {
        let secret = match &self.secret {
            Some(s) => s,
            None => {
                return false;
            },
        };
        let signature = match &delivery.signature {
            Some(s) => s,
            None => {
                return false;
            },
        };
        *signature == *secret
    }

    /// Authenticate a delivery according to its source platform.
    pub fn auth(&self, delivery: &Delivery) -> (r: bool)
        ensures
            r == accepts(*self, *delivery),
    {
        if self.secret.is_some() {
            match delivery.delivery_type {
                DeliveryType::GitHub => self.auth_github(delivery),
                DeliveryType::GitLab => self.auth_gitlab(delivery),
                DeliveryType::DockerHub => false,
            }
        } else {
            true
        }
    }

    /// Run the hook's callback, but only if the delivery authenticates;
    /// a failure silently skips this hook.
    pub fn handle_delivery(self, delivery: &Delivery) {
        if self.auth(delivery) {
            self.func.run(delivery);
        }
    }
}

impl Clone for Hook {
    /// The copy shares the callback and keeps the pattern and secret.
    fn clone(&self) -> (r: Self)
        ensures
            r == *self,
    {
        self.clone_parts()
    }
}

} // verus!
