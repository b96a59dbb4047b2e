//! The names of services in the domain name system.
use crate::haproxy::subdomain;
use crate::haproxy::subdomain::{
    CloudflareProvider, DnsCall, DnsCallView, DnsError, DnsErrorView, DnsProvider, DnsRequest,
    DnsRequestView, NoopProvider,
};
use vstd::prelude::*;

verus! {

/// Creating a name asks for one address record: the subdomain under the base domain, with
/// the given address, or this machine's where none is given, not proxied, and with the
/// time to live that the provider chooses.
pub proof fn created_names_point_at_the_server(
    provider: CloudflareProvider,
    name: Seq<char>,
    ip: Seq<char>,
)
    ensures
        provider.creating(name, Some(ip)) == DnsCallView::Changing(
            DnsRequestView::Create {
                url: "https://api.cloudflare.com/client/v4"@ + ("/zones/"@ + provider@.zone_id
                    + "/dns_records"@),
                record_type: "A"@,
                name: name + "."@ + provider@.base_domain,
                content: ip,
                ttl: 1,
                proxied: false,
            },
        ),
        provider.creating(name, None) == provider.creating(name, Some("127.0.0.1"@)),
{
}

/// Deleting a name looks up its address record first.
pub proof fn deleted_names_are_looked_up(provider: CloudflareProvider, name: Seq<char>)
    ensures
        provider.deleting(name) == (DnsCallView::Finding {
            request: DnsRequestView::Find {
                url: "https://api.cloudflare.com/client/v4"@ + ("/zones/"@ + provider@.zone_id
                    + "/dns_records?type=A&name="@ + (name + "."@ + provider@.base_domain)),
            },
            zone_id: provider@.zone_id,
        }),
{
}

/// The record that was found is deleted, in the zone that it was found in. Where none was
/// found nothing is left to do, and where the answer cannot be read the call has failed.
pub proof fn found_records_are_deleted(zone_id: Seq<char>, id: Seq<char>)
    ensures
        subdomain::after_finding(zone_id, Some(Some(id))) == DnsCallView::Changing(
            DnsRequestView::Delete {
                url: "https://api.cloudflare.com/client/v4"@ + ("/zones/"@ + zone_id
                    + "/dns_records/"@ + id),
            },
        ),
        subdomain::after_finding(zone_id, Some(None)) == DnsCallView::Done(Ok(())),
        subdomain::after_finding(zone_id, None) == DnsCallView::Done(
            Err(DnsErrorView::Http("error decoding response body"@)),
        ),
{
}

/// A change has succeeded just where the answer says so and can be read. Where it says
/// otherwise, or does not say, the call has failed with the errors that it names.
pub proof fn changes_succeed_where_the_answer_says_so(
    success: Option<Option<bool>>,
    errors: Option<Seq<char>>,
)
    ensures
        subdomain::change_outcome(success, errors) is Ok <==> success == Some(Some(true))
            && errors is Some,
        success is Some && success != Some(Some(true)) && errors is Some
            ==> subdomain::change_outcome(success, errors) == Err::<(), DnsErrorView>(
            DnsErrorView::Api(errors->0),
        ),
        success is None || errors is None ==> subdomain::change_outcome(success, errors) == Err::<
            (),
            DnsErrorView,
        >(DnsErrorView::Http("error decoding response body"@)),
{
}

/// A call that got no answer has failed for that reason; one that got an answer goes on
/// as the answer says; one that is over stays over.
pub proof fn calls_go_on_as_the_answer_says(
    request: DnsRequestView,
    zone_id: Seq<char>,
    body: Seq<char>,
    e: Seq<char>,
    outcome: Result<(), DnsErrorView>,
    answer: Result<Seq<char>, Seq<char>>,
)
    ensures
        DnsCallView::Changing(request).after(Err(e)) == DnsCallView::Done(
            Err(DnsErrorView::Http(e)),
        ),
        (DnsCallView::Finding { request, zone_id }).after(Err(e)) == DnsCallView::Done(
            Err(DnsErrorView::Http(e)),
        ),
        DnsCallView::Changing(request).after(Ok(body)) == DnsCallView::Done(
            subdomain::change_outcome(
                subdomain::json_bool(body, "success"@),
                subdomain::json_text(body, "errors"@),
            ),
        ),
        (DnsCallView::Finding { request, zone_id }).after(Ok(body)) == subdomain::after_finding(
            zone_id,
            subdomain::json_first(body, "result"@, "id"@),
        ),
        DnsCallView::Done(outcome).after(answer) == DnsCallView::Done(outcome),
{
}

/// Where no provider is set up, names are neither created nor deleted, and that is a
/// success.
pub proof fn without_a_provider_nothing_is_asked(
    provider: NoopProvider,
    name: Seq<char>,
    ip: Option<Seq<char>>,
)
    ensures
        provider.creating(name, ip) == DnsCallView::Done(Ok(())),
        provider.deleting(name) == DnsCallView::Done(Ok(())),
{
}

/// Errors in words.
pub proof fn errors_are_told(e: Seq<char>)
    ensures
        DnsErrorView::Http(e).text() == "http error: "@ + e,
        DnsErrorView::Api(e).text() == "cloudflare API error: "@ + e,
{
}

/// Requests, calls and errors are shown as they are.
pub proof fn calls_are_shown(request: DnsRequest, call: DnsCall, error: DnsError)
    ensures
        match request {
            DnsRequest::Create { url, record_type, name, content, ttl, proxied } => request@ == (
            DnsRequestView::Create {
                url: url@,
                record_type: record_type@,
                name: name@,
                content: content@,
                ttl,
                proxied,
            }),
            DnsRequest::Find { url } => request@ == (DnsRequestView::Find { url: url@ }),
            DnsRequest::Delete { url } => request@ == (DnsRequestView::Delete { url: url@ }),
        },
        match call {
            DnsCall::Changing(r) => call@ == DnsCallView::Changing(r@),
            DnsCall::Finding { request: r, zone_id } => call@ == (DnsCallView::Finding {
                request: r@,
                zone_id: zone_id@,
            }),
            DnsCall::Done(Ok(_)) => call@ == DnsCallView::Done(Ok(())),
            DnsCall::Done(Err(e)) => call@ == DnsCallView::Done(Err(e@)),
        },
        match error {
            DnsError::Http(e) => error@ == DnsErrorView::Http(e@),
            DnsError::Api(e) => error@ == DnsErrorView::Api(e@),
        },
{
}

/// What is to be asked is the request that the call is at, and nothing once it is over;
/// then its outcome can be had.
pub proof fn calls_ask_what_they_are_at(
    call: DnsCall,
    request: Option<DnsRequest>,
    outcome: Option<Result<(), DnsError>>,
    answer: Result<String, String>,
    next: DnsCall,
)
    requires
        call_ensures(DnsCall::request, (&call,), request),
        call_ensures(DnsCall::outcome, (call,), outcome),
        call_ensures(DnsCall::resume, (call, answer), next),
    ensures
        call@ matches DnsCallView::Changing(r) ==> request is Some && request->0@ == r && outcome
            is None,
        call@ matches DnsCallView::Finding { request: r, zone_id } ==> request is Some
            && request->0@ == r && outcome is None,
        call@ matches DnsCallView::Done(Ok(_)) ==> request is None && outcome is Some && outcome->0
            is Ok,
        call@ matches DnsCallView::Done(Err(e)) ==> request is None && outcome is Some
            && outcome->0 is Err && outcome->0->Err_0@ == e,
        answer matches Ok(body) ==> next@ == call@.after(Ok(body@)),
        answer matches Err(e) ==> next@ == call@.after(Err(e@)),
{
}

/// The words of errors, the judgement of a change and the way on after a search are as
/// they are stated.
pub proof fn answers_are_judged(
    error: DnsError,
    words: String,
    success: Option<Option<bool>>,
    errors: Option<String>,
    outcome: Result<(), DnsError>,
    zone: &str,
    found: Option<Option<String>>,
    next: DnsCall,
    path: &str,
    url: String,
)
    requires
        call_ensures(DnsError::message, (&error,), words),
        call_ensures(subdomain::judge_change, (success, errors), outcome),
        call_ensures(subdomain::continue_deletion, (zone, found), next),
        call_ensures(subdomain::api_url, (path,), url),
    ensures
        words@ == error@.text(),
        outcome is Ok <==> success == Some(Some(true)) && errors is Some,
        success is Some && success != Some(Some(true)) && errors is Some ==> (
        outcome matches Err(e) && e@ == DnsErrorView::Api(errors->0@)),
        success is None || errors is None ==> (outcome matches Err(e) && e@ is Http),
        found matches Some(Some(id)) ==> next@ == subdomain::after_finding(
            zone@,
            Some(Some(id@)),
        ),
        found == Some(None::<String>) ==> next@ == DnsCallView::Done(Ok(())),
        found is None ==> next@ is Done && !(next@ == DnsCallView::Done(Ok(()))),
        url@ == "https://api.cloudflare.com/client/v4"@ + path@,
{
}

/// A provider is set up just where all three of its settings are there, and has them.
pub proof fn providers_have_their_settings(
    token: Option<String>,
    zone_id: Option<String>,
    base_domain: Option<String>,
    provider: Option<CloudflareProvider>,
)
    requires
        call_ensures(CloudflareProvider::from_env, (token, zone_id, base_domain), provider),
    ensures
        provider is Some <==> token is Some && zone_id is Some && base_domain is Some,
        provider matches Some(p) ==> p@.token == token->0@ && p@.zone_id == zone_id->0@
            && p@.base_domain == base_domain->0@,
{
}

/// Names are created and deleted by the calls as it is stated.
pub proof fn names_are_created_and_deleted(
    provider: CloudflareProvider,
    name: &str,
    ip: Option<String>,
    created: DnsCall,
    deleted: DnsCall,
)
    requires
        call_ensures(CloudflareProvider::create, (&provider, name, ip), created),
        call_ensures(CloudflareProvider::delete, (&provider, name), deleted),
    ensures
        created@ == DnsCallView::Changing(
            DnsRequestView::Create {
                url: "https://api.cloudflare.com/client/v4"@ + ("/zones/"@ + provider@.zone_id
                    + "/dns_records"@),
                record_type: "A"@,
                name: name@ + "."@ + provider@.base_domain,
                content: if ip is Some {
                    ip->0@
                } else {
                    "127.0.0.1"@
                },
                ttl: 1,
                proxied: false,
            },
        ),
        deleted@ == (DnsCallView::Finding {
            request: DnsRequestView::Find {
                url: "https://api.cloudflare.com/client/v4"@ + ("/zones/"@ + provider@.zone_id
                    + "/dns_records?type=A&name="@ + (name@ + "."@ + provider@.base_domain)),
            },
            zone_id: provider@.zone_id,
        }),
{
}

} // verus!
