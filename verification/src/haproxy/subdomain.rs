//! Names of services in the domain name system.
//!
//! A provider turns a wish into calls of its own API. [`DnsCall`] decides what to
//! ask next; the caller sends the requests.
use crate::text;
use vstd::prelude::*;

verus! {

/// What can go wrong while a name is managed.
#[derive(Debug)]
pub enum DnsError {
    /// A request could not be made.
    Http(String),
    /// The provider refused a request.
    Api(String),
}

/// The value of a [`DnsError`].
pub enum DnsErrorView {
    /// See [`DnsError::Http`].
    Http(Seq<char>),
    /// See [`DnsError::Api`].
    Api(Seq<char>),
}

impl View for DnsError {
    type V = DnsErrorView;

    open spec fn view(&self) -> DnsErrorView {
        match *self {
            DnsError::Http(e) => DnsErrorView::Http(e@),
            DnsError::Api(e) => DnsErrorView::Api(e@),
        }
    }
}

impl DnsErrorView {
    /// The error in words.
    pub open spec fn text(self) -> Seq<char> {
        match self {
            DnsErrorView::Http(e) => "http error: "@ + e,
            DnsErrorView::Api(e) => "cloudflare API error: "@ + e,
        }
    }
}

impl DnsError {
    /// The error in words.
    pub fn message(&self) -> (words: String)
        ensures
            words@ == self@.text(),
    {
        match self {
            DnsError::Http(e) => "http error: ".to_owned().concat(e.as_str()),
            DnsError::Api(e) => "cloudflare API error: ".to_owned().concat(e.as_str()),
        }
    }
}

// ── requests ────────────────────────────────────────────────────────────────
/// What to ask of the provider's API.
pub enum DnsRequest {
    /// Create a record.
    Create {
        /// Where to ask.
        url: String,
        /// What kind of record it is.
        record_type: String,
        /// The full name of the record.
        name: String,
        /// The address that it is to hold.
        content: String,
        /// For how many seconds it may be remembered. One leaves it to the provider.
        ttl: u32,
        /// Whether the provider stands between the name's visitors and the address.
        proxied: bool,
    },
    /// Find records.
    Find {
        /// Where to ask.
        url: String,
    },
    /// Delete a record.
    Delete {
        /// Where to ask.
        url: String,
    },
}

/// The value of a [`DnsRequest`].
pub enum DnsRequestView {
    /// See [`DnsRequest::Create`].
    Create {
        /// Where to ask.
        url: Seq<char>,
        /// What kind of record it is.
        record_type: Seq<char>,
        /// The full name of the record.
        name: Seq<char>,
        /// The address that it is to hold.
        content: Seq<char>,
        /// For how many seconds it may be remembered.
        ttl: u32,
        /// Whether the provider stands between the name's visitors and the address.
        proxied: bool,
    },
    /// See [`DnsRequest::Find`].
    Find {
        /// Where to ask.
        url: Seq<char>,
    },
    /// See [`DnsRequest::Delete`].
    Delete {
        /// Where to ask.
        url: Seq<char>,
    },
}

impl View for DnsRequest {
    type V = DnsRequestView;

    open spec fn view(&self) -> DnsRequestView {
        match *self {
            DnsRequest::Create { url, record_type, name, content, ttl, proxied } =>
                DnsRequestView::Create {
                url: url@,
                record_type: record_type@,
                name: name@,
                content: content@,
                ttl,
                proxied,
            },
            DnsRequest::Find { url } => DnsRequestView::Find { url: url@ },
            DnsRequest::Delete { url } => DnsRequestView::Delete { url: url@ },
        }
    }
}

impl Clone for DnsRequest {
    fn clone(&self) -> (copy: DnsRequest)
        ensures
            copy@ == self@,
    {
        match self {
            DnsRequest::Create { url, record_type, name, content, ttl, proxied } =>
                DnsRequest::Create {
                url: url.clone(),
                record_type: record_type.clone(),
                name: name.clone(),
                content: content.clone(),
                ttl: *ttl,
                proxied: *proxied,
            },
            DnsRequest::Find { url } => DnsRequest::Find { url: url.clone() },
            DnsRequest::Delete { url } => DnsRequest::Delete { url: url.clone() },
        }
    }
}

// ── answers ─────────────────────────────────────────────────────────────────
/// What `from_str` and `as_bool` give for a member of a JSON object: `None` where
/// the text is no JSON, `Some(None)` where the member is no truth value.
pub uninterp spec fn json_bool(text: Seq<char>, member: Seq<char>) -> Option<Option<bool>>;

/// What `from_str` and `to_string` give for a member of a JSON object: `None` where
/// the text is no JSON.
pub uninterp spec fn json_text(text: Seq<char>, member: Seq<char>) -> Option<Seq<char>>;

/// What `from_str`, indexing and `as_str` give for a member of the first object in
/// a list: `None` where the text is no JSON, `Some(None)` where there is no such
/// string.
pub uninterp spec fn json_first(
    text: Seq<char>,
    list: Seq<char>,
    member: Seq<char>,
) -> Option<Option<Seq<char>>>;

/// `serde_json` reads a text and looks for a truth value under a member's name.
#[verifier::external_body]
fn read_bool(text: &str, member: &str) -> (found: Option<Option<bool>>)
    ensures
        found == json_bool(text@, member@),
{
    let value = serde_json::from_str::<serde_json::Value>(text).ok()?;
    Some(value[member].as_bool())
}

/// `serde_json` reads a text and writes out what is under a member's name.
#[verifier::external_body]
fn read_text(text: &str, member: &str) -> (found: Option<String>)
    ensures
        text::maybe(found) == json_text(text@, member@),
{
    let value = serde_json::from_str::<serde_json::Value>(text).ok()?;
    Some(value[member].to_string())
}

/// The value of a string that may be missing from an answer that may be none.
pub open spec fn maybe_found(found: Option<Option<String>>) -> Option<Option<Seq<char>>> {
    match found {
        Some(inner) => Some(text::maybe(inner)),
        None => None,
    }
}

/// `serde_json` reads a text and looks, under a member's name, for the string under
/// another name in the first object of a list.
#[verifier::external_body]
fn read_first(text: &str, list: &str, member: &str) -> (found: Option<Option<String>>)
    ensures
        maybe_found(found) == json_first(text@, list@, member@),
{
    let value = serde_json::from_str::<serde_json::Value>(text).ok()?;
    Some(value[list][0][member].as_str().map(str::to_string))
}

/// How a request that was to change a record ended.
pub open spec fn change_outcome(
    success: Option<Option<bool>>,
    errors: Option<Seq<char>>,
) -> Result<(), DnsErrorView> {
    if success is None || errors is None {
        Err(DnsErrorView::Http("error decoding response body"@))
    } else if success == Some(Some(true)) {
        Ok(())
    } else {
        Err(DnsErrorView::Api(errors->0))
    }
}

/// The value of an outcome.
pub open spec fn outcome_view(outcome: Result<(), DnsError>) -> Result<(), DnsErrorView> {
    match outcome {
        Ok(_) => Ok(()),
        Err(e) => Err(e@),
    }
}

/// Decides how a request that was to change a record ended, from what its answer
/// says of its success and of errors.
pub fn judge_change(success: Option<Option<bool>>, errors: Option<String>) -> (outcome: Result<
    (),
    DnsError,
>)
    ensures
        outcome_view(outcome) == change_outcome(success, text::maybe(errors)),
{
    match (success, errors) {
        (Some(flag), Some(words)) => match flag {
            Some(true) => Ok(()),
            _ => Err(DnsError::Api(words)),
        },
        _ => Err(DnsError::Http("error decoding response body".to_owned())),
    }
}

// ── calls ───────────────────────────────────────────────────────────────────
/// Where an API is and how records are named there.
pub struct Zone {
    /// The identifier of the zone.
    pub zone_id: String,
    /// The domain that all names are under.
    pub base_domain: String,
}

/// The address of a path of the API.
pub open spec fn api_address(path: Seq<char>) -> Seq<char> {
    "https://api.cloudflare.com/client/v4"@ + path
}

/// The address of the records of a zone.
pub open spec fn records_address(zone_id: Seq<char>) -> Seq<char> {
    api_address("/zones/"@ + zone_id + "/dns_records"@)
}

/// The address of the records with a name.
pub open spec fn find_address(zone_id: Seq<char>, name: Seq<char>) -> Seq<char> {
    api_address("/zones/"@ + zone_id + "/dns_records?type=A&name="@ + name)
}

/// The address of a record.
pub open spec fn record_address(zone_id: Seq<char>, id: Seq<char>) -> Seq<char> {
    api_address("/zones/"@ + zone_id + "/dns_records/"@ + id)
}

/// The full name of a subdomain.
pub open spec fn full_name(subdomain: Seq<char>, base_domain: Seq<char>) -> Seq<char> {
    subdomain + "."@ + base_domain
}

/// Calls of an API that create or delete a record.
pub enum DnsCall {
    /// A request is to be sent that changes a record.
    Changing(DnsRequest),
    /// A request is to be sent that finds a record of a zone, to delete it.
    Finding {
        /// The request.
        request: DnsRequest,
        /// The zone.
        zone_id: String,
    },
    /// Nothing is left to do.
    Done(Result<(), DnsError>),
}

/// The value of a [`DnsCall`].
pub enum DnsCallView {
    /// See [`DnsCall::Changing`].
    Changing(DnsRequestView),
    /// See [`DnsCall::Finding`].
    Finding {
        /// The request.
        request: DnsRequestView,
        /// The zone.
        zone_id: Seq<char>,
    },
    /// See [`DnsCall::Done`].
    Done(Result<(), DnsErrorView>),
}

impl View for DnsCall {
    type V = DnsCallView;

    open spec fn view(&self) -> DnsCallView {
        match *self {
            DnsCall::Changing(request) => DnsCallView::Changing(request@),
            DnsCall::Finding { request, zone_id } => DnsCallView::Finding {
                request: request@,
                zone_id: zone_id@,
            },
            DnsCall::Done(outcome) => DnsCallView::Done(outcome_view(outcome)),
        }
    }
}

/// The value of an answer: a text, or why there is none.
pub open spec fn answer_view(answer: Result<String, String>) -> Result<Seq<char>, Seq<char>> {
    match answer {
        Ok(body) => Ok(body@),
        Err(e) => Err(e@),
    }
}

/// What follows once it is known whether a record was found: it is deleted, and a
/// record that is not there needs no deleting.
pub open spec fn after_finding(
    zone_id: Seq<char>,
    found: Option<Option<Seq<char>>>,
) -> DnsCallView {
    match found {
        None => DnsCallView::Done(Err(DnsErrorView::Http("error decoding response body"@))),
        Some(None) => DnsCallView::Done(Ok(())),
        Some(Some(id)) => DnsCallView::Changing(
            DnsRequestView::Delete { url: record_address(zone_id, id) },
        ),
    }
}

impl DnsCallView {
    /// The call after an answer. An answer to a call that is over changes nothing.
    pub open spec fn after(self, answer: Result<Seq<char>, Seq<char>>) -> DnsCallView {
        match (self, answer) {
            (DnsCallView::Done(outcome), _) => self,
            (_, Err(e)) => DnsCallView::Done(Err(DnsErrorView::Http(e))),
            (DnsCallView::Changing(_), Ok(body)) => DnsCallView::Done(
                change_outcome(json_bool(body, "success"@), json_text(body, "errors"@)),
            ),
            (DnsCallView::Finding { request, zone_id }, Ok(body)) => after_finding(
                zone_id,
                json_first(body, "result"@, "id"@),
            ),
        }
    }
}

/// Goes on once it is known whether a record was found.
pub fn continue_deletion(zone_id: &str, found: Option<Option<String>>) -> (call: DnsCall)
    ensures
        call@ == after_finding(zone_id@, maybe_found(found)),
{
    match found {
        None => DnsCall::Done(Err(DnsError::Http("error decoding response body".to_owned()))),
        Some(None) => DnsCall::Done(Ok(())),
        Some(Some(id)) => {
            let mut path = "/zones/".to_owned();
            path.append(zone_id);
            path.append("/dns_records/");
            path.append(id.as_str());
            DnsCall::Changing(DnsRequest::Delete { url: api_url(path.as_str()) })
        },
    }
}

/// Builds the address of a path of the API.
pub fn api_url(path: &str) -> (url: String)
    ensures
        url@ == api_address(path@),
{
    "https://api.cloudflare.com/client/v4".to_owned().concat(path)
}

impl DnsCall {
    /// The request to send, or `None` where the call is over.
    pub fn request(&self) -> (request: Option<DnsRequest>)
        ensures
            match (self@, request) {
                (DnsCallView::Changing(r), Some(s)) => s@ == r,
                (DnsCallView::Finding { request: r, zone_id }, Some(s)) => s@ == r,
                (DnsCallView::Done(_), None) => true,
                _ => false,
            },
    {
        match self {
            DnsCall::Changing(request) => Some(request.clone()),
            DnsCall::Finding { request, zone_id: _ } => Some(request.clone()),
            DnsCall::Done(_) => None,
        }
    }

    /// Takes in the answer to the last request.
    pub fn resume(self, answer: Result<String, String>) -> (next: DnsCall)
        ensures
            next@ == self@.after(answer_view(answer)),
    {
        match self {
            DnsCall::Done(outcome) => DnsCall::Done(outcome),
            DnsCall::Changing(_) => match answer {
                Err(e) => DnsCall::Done(Err(DnsError::Http(e))),
                Ok(body) => DnsCall::Done(
                    judge_change(
                        read_bool(body.as_str(), "success"),
                        read_text(body.as_str(), "errors"),
                    ),
                ),
            },
            DnsCall::Finding { request: _, zone_id } => match answer {
                Err(e) => DnsCall::Done(Err(DnsError::Http(e))),
                Ok(body) => continue_deletion(
                    zone_id.as_str(),
                    read_first(body.as_str(), "result", "id"),
                ),
            },
        }
    }

    /// How the call ended, or `None` where it is still under way.
    pub fn outcome(self) -> (outcome: Option<Result<(), DnsError>>)
        ensures
            match outcome {
                Some(r) => self@ == DnsCallView::Done(outcome_view(r)),
                None => !(self@ is Done),
            },
    {
        match self {
            DnsCall::Done(r) => Some(r),
            _ => None,
        }
    }
}

// ── providers ───────────────────────────────────────────────────────────────
/// Someone who manages names.
pub trait DnsProvider {
    /// The calls that create the name of a subdomain.
    spec fn creating(&self, subdomain: Seq<char>, server_ip: Option<Seq<char>>) -> DnsCallView;

    /// The calls that delete the name of a subdomain.
    spec fn deleting(&self, subdomain: Seq<char>) -> DnsCallView;

    /// Starts to create the name of a subdomain. `server_ip` is the address that it
    /// is to stand for, where one is set.
    fn create(&self, subdomain: &str, server_ip: Option<String>) -> (call: DnsCall)
        ensures
            call@ == self.creating(subdomain@, text::maybe(server_ip)),
    ;

    /// Starts to delete the name of a subdomain.
    fn delete(&self, subdomain: &str) -> (call: DnsCall)
        ensures
            call@ == self.deleting(subdomain@),
    ;
}

/// A provider that does nothing, for names that a wildcard covers.
pub struct NoopProvider;

impl DnsProvider for NoopProvider {
    open spec fn creating(
        &self,
        subdomain: Seq<char>,
        server_ip: Option<Seq<char>>,
    ) -> DnsCallView {
        DnsCallView::Done(Ok(()))
    }

    open spec fn deleting(&self, subdomain: Seq<char>) -> DnsCallView {
        DnsCallView::Done(Ok(()))
    }

    fn create(&self, subdomain: &str, server_ip: Option<String>) -> (call: DnsCall) {
        DnsCall::Done(Ok(()))
    }

    fn delete(&self, subdomain: &str) -> (call: DnsCall) {
        DnsCall::Done(Ok(()))
    }
}

/// A provider that asks Cloudflare.
pub struct CloudflareProvider {
    token: String,
    zone: Zone,
}

/// The value of a [`CloudflareProvider`].
pub struct CloudflareView {
    /// What its requests are signed with.
    pub token: Seq<char>,
    /// The identifier of its zone.
    pub zone_id: Seq<char>,
    /// The domain that all its names are under.
    pub base_domain: Seq<char>,
}

impl View for CloudflareProvider {
    type V = CloudflareView;

    closed spec fn view(&self) -> CloudflareView {
        CloudflareView {
            token: self.token@,
            zone_id: self.zone.zone_id@,
            base_domain: self.zone.base_domain@,
        }
    }
}

impl CloudflareProvider {
    /// Makes a provider from what the environment holds; each of the three settings
    /// must be there.
    pub fn from_env(
        token: Option<String>,
        zone_id: Option<String>,
        base_domain: Option<String>,
    ) -> (provider: Option<CloudflareProvider>)
        ensures
            match provider {
                Some(p) => {
                    &&& text::maybe(token) == Some(p@.token)
                    &&& text::maybe(zone_id) == Some(p@.zone_id)
                    &&& text::maybe(base_domain) == Some(p@.base_domain)
                },
                None => token is None || zone_id is None || base_domain is None,
            },
    {
        match (token, zone_id, base_domain) {
            (Some(token), Some(zone_id), Some(base_domain)) => Some(
                CloudflareProvider { token, zone: Zone { zone_id, base_domain } },
            ),
            _ => None,
        }
    }

    /// What the provider's requests are signed with.
    pub fn token(&self) -> (token: String)
        ensures
            token@ == self@.token,
    {
        self.token.clone()
    }

    /// Builds the full name of a subdomain.
    fn name_for(&self, subdomain: &str) -> (name: String)
        ensures
            name@ == full_name(subdomain@, self@.base_domain),
    {
        let mut name = subdomain.to_owned();
        name.append(".");
        name.append(self.zone.base_domain.as_str());
        name
    }
}

impl DnsProvider for CloudflareProvider {
    open spec fn creating(
        &self,
        subdomain: Seq<char>,
        server_ip: Option<Seq<char>>,
    ) -> DnsCallView {
        DnsCallView::Changing(
            DnsRequestView::Create {
                url: records_address(self@.zone_id),
                record_type: "A"@,
                name: full_name(subdomain, self@.base_domain),
                content: match server_ip {
                    Some(ip) => ip,
                    None => "127.0.0.1"@,
                },
                ttl: 1,
                proxied: false,
            },
        )
    }

    open spec fn deleting(&self, subdomain: Seq<char>) -> DnsCallView {
        DnsCallView::Finding {
            request: DnsRequestView::Find {
                url: find_address(self@.zone_id, full_name(subdomain, self@.base_domain)),
            },
            zone_id: self@.zone_id,
        }
    }

    fn create(&self, subdomain: &str, server_ip: Option<String>) -> (call: DnsCall) {
        let mut path = "/zones/".to_owned();
        path.append(self.zone.zone_id.as_str());
        path.append("/dns_records");
        DnsCall::Changing(
            DnsRequest::Create {
                url: api_url(path.as_str()),
                record_type: "A".to_owned(),
                name: self.name_for(subdomain),
                content: match server_ip {
                    Some(ip) => ip,
                    None => "127.0.0.1".to_owned(),
                },
                ttl: 1,
                proxied: false,
            },
        )
    }

    fn delete(&self, subdomain: &str) -> (call: DnsCall) {
        let mut path = "/zones/".to_owned();
        path.append(self.zone.zone_id.as_str());
        path.append("/dns_records?type=A&name=");
        path.append(self.name_for(subdomain).as_str());
        DnsCall::Finding {
            request: DnsRequest::Find { url: api_url(path.as_str()) },
            zone_id: self.zone.zone_id.clone(),
        }
    }
}

// ── laws ────────────────────────────────────────────────────────────────────
/// Deleting a name that has no record succeeds without another request.
pub proof fn deleting_nothing_succeeds(provider: CloudflareProvider, subdomain: Seq<char>, body: Seq<
    char,
>)
    ensures
        json_first(body, "result"@, "id"@) == Some(None::<Seq<char>>) ==> provider.deleting(
            subdomain,
        ).after(Ok(body)) == DnsCallView::Done(Ok(())),
{
}

/// A record that was found is the one that is deleted, and in the same zone.
pub proof fn found_record_is_deleted(
    provider: CloudflareProvider,
    subdomain: Seq<char>,
    body: Seq<char>,
    id: Seq<char>,
)
    ensures
        json_first(body, "result"@, "id"@) == Some(Some(id)) ==> provider.deleting(subdomain).after(
            Ok(body),
        ) == DnsCallView::Changing(
            (DnsRequestView::Delete { url: record_address(provider@.zone_id, id) }),
        ),
{
}

} // verus!
