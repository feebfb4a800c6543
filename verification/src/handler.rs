//! Delivery construction: detecting the sending platform from the header
//! shape, normalizing the event name, resolving the content type, and
//! extracting the payload once the body is known.

use vstd::prelude::*;

pub use serde_json::Value;

use crate::constructor::registry_get;
use crate::constructor::Constructor;
use crate::constructor::HookRegistry;
use crate::headers::header_lookup;
use crate::headers::Headers;
use crate::hook::Hook;
use crate::json::clone_json;
use crate::json::json_parses;
use crate::json::parse_json;
use crate::text::lower;
use crate::text::normalize;
use crate::text::normalize_event;
use crate::text::str_eq;
use crate::text::eq_ignore_case;

verus! {

/// The view of a header set: name/value pairs in insertion order.
pub type HeaderSeq = Seq<(Seq<char>, Seq<char>)>;

/// Type of content carried by the request body.
#[derive(Clone, Copy, Debug, PartialEq, Eq, Structural)]
pub enum ContentType {
    JSON,
    URLENCODED,
}

/// Source of the delivery.
#[derive(Clone, Copy, Debug, PartialEq, Eq, Structural)]
pub enum DeliveryType {
    GitHub,
    GitLab,
    DockerHub,
}

/// The value of header `name` (itself given in any ASCII case).
pub open spec fn header_value(h: HeaderSeq, name: Seq<char>) -> Option<Seq<char>> {
    header_lookup(h, lower(name))
}

/// ASCII-case-insensitive equality of two strings.
pub open spec fn same_ci(a: Seq<char>, b: Seq<char>) -> bool {
    lower(a) == lower(b)
}

/// Platform detection from the header shape alone, first match wins:
/// a GitHub event header, else a GitLab event header, else the fixed
/// DockerHub sentinel; anything else is undetermined. The event name is
/// returned as sent, before normalization.
pub open spec fn detection(h: HeaderSeq) -> Option<(DeliveryType, Seq<char>)> {
    if header_value(h, "x-github-event"@) is Some {
        Some((DeliveryType::GitHub, header_value(h, "x-github-event"@)->Some_0))
    } else if header_value(h, "x-gitlab-event"@) is Some {
        Some((DeliveryType::GitLab, header_value(h, "x-gitlab-event"@)->Some_0))
    } else if header_value(h, "x-newrelic-id"@) == Some("UQUFVFJUGwUJVlhaBgY="@) {
        Some((DeliveryType::DockerHub, "docker_push"@))
    } else {
        None
    }
}

/// Content-type resolution: unrecognized or absent defaults to JSON.
pub open spec fn content_type_of(h: HeaderSeq) -> ContentType {
    match header_value(h, "content-type"@) {
        Some(v) => if same_ci(v, "application/json"@) {
            ContentType::JSON
        } else if same_ci(v, "application/x-www-form-urlencoded"@) {
            ContentType::URLENCODED
        } else {
            ContentType::JSON
        },
        None => ContentType::JSON,
    }
}

/// The delivery id: only GitHub sends one.
pub open spec fn delivery_id_of(h: HeaderSeq, t: DeliveryType) -> Option<Seq<char>> {
    match t {
        DeliveryType::GitHub => header_value(h, "x-github-delivery"@),
        _ => None,
    }
}

/// The signature (or token) header of each platform; DockerHub has none.
pub open spec fn signature_of(h: HeaderSeq, t: DeliveryType) -> Option<Seq<char>> {
    match t {
        DeliveryType::GitHub => header_value(h, "x-hub-signature"@),
        DeliveryType::GitLab => header_value(h, "x-gitlab-token"@),
        DeliveryType::DockerHub => None,
    }
}

/// The value of the last pair named `key`, as a urlencoded map lookup
/// sees it (a later duplicate shadows an earlier one).
pub open spec fn assoc_last(pairs: Seq<(Seq<char>, Seq<char>)>, key: Seq<char>) -> Option<
    Seq<char>,
>
    decreases pairs.len(),
{
    if pairs.len() == 0 {
        None
    } else if pairs.last().0 == key {
        Some(pairs.last().1)
    } else {
        assoc_last(pairs.drop_last(), key)
    }
}

/// The decoded key/value pairs of a urlencoded body, in order of
/// appearance: a pure function of the body, computed by the URL library.
pub uninterp spec fn form_pairs(s: Seq<char>) -> Seq<(Seq<char>, Seq<char>)>;

/// Relies on url's form_urlencoded::parse: decodes a urlencoded body
/// into its key/value pairs, in order of appearance.
#[verifier::external_body]
fn form_decode(body: &str) -> (r: Vec<(String, String)>)
    ensures
        r.deep_view() == form_pairs(body@),
{
    url::form_urlencoded::parse(body.as_bytes()).into_owned().collect()
}

/// The raw payload extracted from a body: the body itself under JSON,
/// the `payload` form field under urlencoded, nothing without a body.
pub open spec fn payload_of(ct: ContentType, body: Option<Seq<char>>) -> Option<Seq<char>> {
    match body {
        None => None,
        Some(b) => match ct {
            ContentType::JSON => Some(b),
            ContentType::URLENCODED => assoc_last(form_pairs(b), "payload"@),
        },
    }
}

/// The `payload` field of a urlencoded body, if any.
fn form_payload(body: &String) -> (r: Option<String>)
    ensures
        r.deep_view() == assoc_last(form_pairs(body@), "payload"@),
{
    let pairs = form_decode(body.as_str());
    let ghost ps = pairs.deep_view();
    let n = pairs.len();
    let mut i: usize = n;
    proof {
        assert(pairs.deep_view().len() == n);
        assert(ps.take(n as int) =~= ps);
    }
    while i > 0
        invariant
            n == pairs.len(),
            0 <= i <= n,
            ps == pairs.deep_view(),
            ps.len() == n,
            assoc_last(form_pairs(body@), "payload"@) == assoc_last(
                ps.take(i as int),
                "payload"@,
            ),
        decreases i,
    {
        i = i - 1;
        let entry = &pairs[i];
        proof {
            assert(ps.take(i + 1).last() == ps[i as int]);
            assert(ps.take(i + 1).drop_last() =~= ps.take(i as int));
            assert(ps[i as int].0 == pairs@[i as int].0@);
            assert(ps[i as int].1 == pairs@[i as int].1@);
        }
        if str_eq(entry.0.as_str(), "payload") {
            return Some(entry.1.clone());
        }
    }
    proof {
        assert(ps.take(0) =~= Seq::<(Seq<char>, Seq<char>)>::empty());
    }
    None
}

/// Information gathered from one received request. Construction succeeds
/// only once the platform and event are identified; the body-derived
/// fields stay empty until the body is supplied.
#[derive(Debug)]
pub struct Delivery {
    pub delivery_type: DeliveryType,
    pub content_type: ContentType,
    pub id: Option<String>,
    pub event: String,
    pub payload: Option<Value>,
    pub unparsed_payload: Option<String>,
    pub request_body: Option<String>,
    pub signature: Option<String>,
}

/// How a completed delivery relates to the header set and body it was
/// built from.
pub open spec fn built_from(d: Delivery, h: HeaderSeq, body: Option<Seq<char>>) -> bool {
    &&& detection(h) is Some
    &&& d.delivery_type == detection(h)->Some_0.0
    &&& d.event@ == normalize(detection(h)->Some_0.1)
    &&& d.content_type == content_type_of(h)
    &&& d.id.deep_view() == delivery_id_of(h, d.delivery_type)
    &&& d.signature.deep_view() == signature_of(h, d.delivery_type)
    &&& d.request_body.deep_view() == body
    &&& d.unparsed_payload.deep_view() == payload_of(d.content_type, body)
    &&& (d.payload is Some <==> (d.unparsed_payload matches Some(p) && json_parses(p@)))
}

impl Delivery {
    /// Create a new delivery from a header set and, if already buffered,
    /// the request body. Fails exactly when no platform can be
    /// determined from the headers.
    pub fn new(headers: Headers, request_body: Option<String>) -> (r: Result<
        Delivery,
        &'static str,
    >)
        ensures
            r is Ok <==> detection(headers@) is Some,
            r matches Ok(d) ==> built_from(d, headers@, request_body.deep_view()),
            r matches Err(m) ==> m@ == "Could not determine delivery type"@,
    {
        let (event_raw, delivery_type): (String, DeliveryType) = if let Some(e) = headers.get(
            "x-github-event",
        ) {
            (e.clone(), DeliveryType::GitHub)
        } else if let Some(e) = headers.get("x-gitlab-event") {
            (e.clone(), DeliveryType::GitLab)
        } else if let Some(nr) = headers.get("x-newrelic-id") {
            if str_eq(nr.as_str(), "UQUFVFJUGwUJVlhaBgY=") {
                (String::from_str("docker_push"), DeliveryType::DockerHub)
            } else {
                return Err("Could not determine delivery type");
            }
        } else {
            return Err("Could not determine delivery type");
        };
        let event = normalize_event(event_raw.as_str());
        let content_type = match headers.get("content-type") {
            Some(v) => {
                if eq_ignore_case(v.as_str(), "application/json") {
                    ContentType::JSON
                } else if eq_ignore_case(v.as_str(), "application/x-www-form-urlencoded") {
                    ContentType::URLENCODED
                } else {
                    ContentType::JSON
                }
            },
            None => ContentType::JSON,
        };
        let id: Option<String> = match delivery_type {
            DeliveryType::GitHub => match headers.get("x-github-delivery") {
                Some(v) => Some(v.clone()),
                None => None,
            },
            _ => None,
        };
        let signature: Option<String> = match delivery_type {
            DeliveryType::GitHub => match headers.get("x-hub-signature") {
                Some(v) => Some(v.clone()),
                None => None,
            },
            DeliveryType::GitLab => match headers.get("x-gitlab-token") {
                Some(v) => Some(v.clone()),
                None => None,
            },
            DeliveryType::DockerHub => None,
        };
        let mut delivery = Delivery {
            delivery_type,
            content_type,
            id,
            event,
            payload: None,
            unparsed_payload: None,
            request_body: None,
            signature,
        };
        if request_body.is_some() {
            delivery.update_request_body(request_body);
        }
        Ok(delivery)
    }

    /// Complete the delivery with the buffered request body: extract the
    /// raw payload according to the content type, and parse it if it is
    /// valid JSON (a parse failure is tolerated, not an error).
    pub fn update_request_body(&mut self, request_body: Option<String>)
        ensures
            final(self).delivery_type == old(self).delivery_type,
            final(self).content_type == old(self).content_type,
            final(self).id == old(self).id,
            final(self).event == old(self).event,
            final(self).signature == old(self).signature,
            final(self).request_body == request_body,
            final(self).unparsed_payload.deep_view() == payload_of(
                old(self).content_type,
                request_body.deep_view(),
            ),
            final(self).payload is Some <==> (final(self).unparsed_payload matches Some(p)
                && json_parses(p@)),
    {
        let payload: Option<String> = match self.content_type {
            ContentType::JSON => match &request_body {
                Some(b) => Some(b.clone()),
                None => None,
            },
            ContentType::URLENCODED => match &request_body {
                Some(b) => form_payload(b),
                None => None,
            },
        };
        let parsed: Option<Value> = match &payload {
            Some(p) => parse_json(p.as_str()),
            None => None,
        };
        self.request_body = request_body;
        self.unparsed_payload = payload;
        self.payload = parsed;
    }
}

impl Clone for Delivery {
    /// The copy holds the same information.
    fn clone(&self) -> (r: Self)
        ensures
            r == *self,
    {
        Delivery {
            delivery_type: self.delivery_type,
            content_type: self.content_type,
            id: match &self.id {
                Some(s) => Some(s.clone()),
                None => None,
            },
            event: self.event.clone(),
            payload: match &self.payload {
                Some(v) => Some(clone_json(v)),
                None => None,
            },
            unparsed_payload: match &self.unparsed_payload {
                Some(s) => Some(s.clone()),
                None => None,
            },
            request_body: match &self.request_body {
                Some(s) => Some(s.clone()),
                None => None,
            },
            signature: match &self.signature {
                Some(s) => Some(s.clone()),
                None => None,
            },
        }
    }
}

/// The hooks matched by a normalized event name: the exact match, if
/// registered, followed by the wildcard hook, if registered.
pub open spec fn matched_hooks_of(reg: Seq<Hook>, event: Seq<char>) -> Seq<Hook> {
    (match registry_get(reg, event) {
        Some(h) => seq![h],
        None => Seq::<Hook>::empty(),
    }) + (match registry_get(reg, "*"@) {
        Some(h) => seq![h],
        None => Seq::<Hook>::empty(),
    })
}

/// Matching for a normalized event name: the exact hook, when
/// registered, always precedes the wildcard hook, when registered;
/// zero, one, or two hooks match.
pub proof fn lemma_match_order(reg: Seq<Hook>, event: Seq<char>)
    ensures
        registry_get(reg, event) is Some && registry_get(reg, "*"@) is Some
            ==> matched_hooks_of(reg, event) == seq![
            registry_get(reg, event)->Some_0,
            registry_get(reg, "*"@)->Some_0,
        ],
        registry_get(reg, event) is None && registry_get(reg, "*"@) is Some
            ==> matched_hooks_of(reg, event) == seq![registry_get(reg, "*"@)->Some_0],
        registry_get(reg, event) is Some && registry_get(reg, "*"@) is None
            ==> matched_hooks_of(reg, event) == seq![registry_get(reg, event)->Some_0],
        registry_get(reg, event) is None && registry_get(reg, "*"@) is None
            ==> matched_hooks_of(reg, event) == Seq::<Hook>::empty(),
{
    if registry_get(reg, event) is Some && registry_get(reg, "*"@) is Some {
        assert(matched_hooks_of(reg, event) =~= seq![
            registry_get(reg, event)->Some_0,
            registry_get(reg, "*"@)->Some_0,
        ]);
    }
    if registry_get(reg, event) is None && registry_get(reg, "*"@) is Some {
        assert(matched_hooks_of(reg, event) =~= seq![registry_get(reg, "*"@)->Some_0]);
    }
    if registry_get(reg, event) is Some && registry_get(reg, "*"@) is None {
        assert(matched_hooks_of(reg, event) =~= seq![registry_get(reg, event)->Some_0]);
    }
    if registry_get(reg, event) is None && registry_get(reg, "*"@) is None {
        assert(matched_hooks_of(reg, event) =~= Seq::<Hook>::empty());
    }
}

/// Executor of the hooks matched by one request.
pub struct Executor {
    matched_hooks: Vec<Hook>,
}

impl View for Executor {
    type V = Seq<Hook>;

    closed spec fn view(&self) -> Seq<Hook> {
        self.matched_hooks@
    }
}

impl Executor {
    /// Run the matched hooks in order against the delivery, each behind
    /// its own authentication; a hook that fails it is skipped silently.
    pub fn run(self, delivery: Delivery) {
        let mut hooks = self.matched_hooks;
        while hooks.len() > 0
            decreases hooks.len(),
        {
            let hook = hooks.remove(0);
            hook.handle_delivery(&delivery);
        }
    }

    /// Whether no hook matched.
    pub fn is_empty(&self) -> (r: bool)
        ensures
            r == (self@.len() == 0),
    {
        self.matched_hooks.len() == 0
    }
}

/// The response owed to one request, given the registry, the header
/// set, and the buffered body (if any): an undetermined source is an
/// invalid payload; a determined event without a registered hook is
/// unmatched; a matched event without a body is an invalid payload;
/// otherwise the matched hooks are dispatched.
pub open spec fn outcome_of(reg: Seq<Hook>, h: HeaderSeq, body: Option<Seq<char>>) -> Outcome {
    if detection(h) is None {
        Outcome::InvalidPayload
    } else if matched_hooks_of(reg, normalize(detection(h)->Some_0.1)).len() == 0 {
        Outcome::NoMatchedHook
    } else if body is None {
        Outcome::InvalidPayload
    } else {
        Outcome::Dispatched
    }
}

/// A header set lacking a GitHub event header, a GitLab event header,
/// and the DockerHub sentinel determines no platform: construction
/// fails, and the request is answered as an invalid payload, whatever
/// the registry and body hold.
pub proof fn lemma_undetermined_source(
    reg: Seq<Hook>,
    h: HeaderSeq,
    body: Option<Seq<char>>,
)
    requires
        header_value(h, "x-github-event"@) is None,
        header_value(h, "x-gitlab-event"@) is None,
        header_value(h, "x-newrelic-id"@) != Some("UQUFVFJUGwUJVlhaBgY="@),
    ensures
        detection(h) is None,
        outcome_of(reg, h, body) == Outcome::InvalidPayload,
{
}

/// The outcome of one request, mapped to an HTTP status and body by the
/// serving side.
#[derive(Clone, Copy, Debug, PartialEq, Eq, Structural)]
pub enum Outcome {
    InvalidPayload,
    NoMatchedHook,
    Dispatched,
}

impl Outcome {
    /// The HTTP status code of this outcome.
    pub fn status(&self) -> (r: u16)
        ensures
            *self is Dispatched ==> r == 200,
            !(*self is Dispatched) ==> r == 202,
    {
        match self {
            Outcome::InvalidPayload => 202,
            Outcome::NoMatchedHook => 202,
            Outcome::Dispatched => 200,
        }
    }

    /// The HTTP response body of this outcome.
    pub fn body(&self) -> (r: &'static str)
        ensures
            *self is InvalidPayload ==> r@ == "Invalid payload"@,
            *self is NoMatchedHook ==> r@ == "No matched hook configured"@,
            *self is Dispatched ==> r@ == "OK"@,
    {
        match self {
            Outcome::InvalidPayload => "Invalid payload",
            Outcome::NoMatchedHook => "No matched hook configured",
            Outcome::Dispatched => "OK",
        }
    }
}

/// The main handler: holds a frozen copy of the registry and serves
/// requests against it.
pub struct Handler {
    hooks: HookRegistry,
}

impl View for Handler {
    type V = Seq<Hook>;

    closed spec fn view(&self) -> Seq<Hook> {
        self.hooks@
    }
}

impl Handler {
    /// Create a handler from a constructor, copying its registry.
    pub fn from(constructor: &Constructor) -> (r: Handler)
        ensures
            r@ == constructor.hooks@,
    {
        Handler { hooks: constructor.hooks.clone() }
    }

    /// The executor for the hooks matching a normalized event name:
    /// the exact hook first, then the wildcard hook.
    pub fn get_hooks(&self, event: &str) -> (e: Executor)
        ensures
            e@ == matched_hooks_of(self@, event@),
    {
        let mut matched: Vec<Hook> = Vec::new();
        if let Some(hook) = self.hooks.get(event) {
            matched.push(hook.clone());
        }
        if let Some(hook) = self.hooks.get("*") {
            matched.push(hook.clone());
        }
        proof {
            assert(matched@ =~= matched_hooks_of(self@, event@));
        }
        Executor { matched_hooks: matched }
    }

    /// Serve one request whose body, if it arrived, is already
    /// buffered: build the delivery from the headers, look up the
    /// matched hooks, and only then complete the delivery and dispatch
    /// it. The outcome does not depend on any hook's authentication.
    pub fn handle_request(&self, headers: Headers, request_body: Option<String>) -> (r: Outcome)
        ensures
            r == outcome_of(self@, headers@, request_body.deep_view()),
    {
        let mut delivery = match Delivery::new(headers, None) {
            Ok(d) => d,
            Err(_) => {
                return Outcome::InvalidPayload;
            },
        };
        let executor = self.get_hooks(delivery.event.as_str());
        if executor.is_empty() {
            return Outcome::NoMatchedHook;
        }
        if request_body.is_some() {
            delivery.update_request_body(request_body);
            executor.run(delivery);
            Outcome::Dispatched
        } else {
            Outcome::InvalidPayload
        }
    }
}

} // verus!
