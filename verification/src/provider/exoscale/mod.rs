pub mod api;
pub mod configuration;
pub mod group;
pub mod probe;

use crate::configuration::CloudConfiguration;
use crate::document::{json_document, parse_json, Node};
use crate::http_client::{
    header_texts,
    prepared_request,
    request_result,
    text_result,
    HttpClient,
    HttpError,
    HttpErrorView,
    HttpRequest,
    HttpRequestView,
};
use crate::provider::error::CloudProviderError;
use crate::provider::{
    clone_optional_text,
    event_response,
    instance_views,
    CloudInstance,
    CloudInstanceGroup,
    CloudInstanceView,
    CloudProvider,
    ProbeData,
    ProbeEvent,
    ProbeStep,
};
use vstd::prelude::*;
use vstd::string::*;

use group::{group_lookup, group_lookup_member, group_lookup_pool, GroupLookup};
use probe::{
    advanced_step,
    basic_instance,
    enriched_instance,
    fallback_result,
    in_state,
    lookup_step,
    metadata_step,
    pool_step,
    probe_step,
    GroupWait,
    ProbeState,
    ProbeStateView,
    ProbeStepView,
};

pub use api::{build_signature, ExoscaleInstance, ExoscaleInstanceManager, ExoscaleInstancePool};
pub use configuration::ExoscaleCloudProviderConfiguration;

use api::{
    build_expiration_timestamp,
    expiration_time,
    instance_record,
    pool_record,
    sign_request,
    signed_text,
    ExoscaleInstancePoolView,
    ExoscaleInstanceView,
    SIGNATURE_VALIDITY_SECS,
};

verus! {

/// How long a metadata call may take, in seconds.
pub const EXOSCALE_METADATA_DEFAULT_TIMEOUT_SECS: u64 = 5;

/// How long an API call may take, in seconds, until the configuration says
/// otherwise.
pub const EXOSCALE_API_DEFAULT_TIMEOUT_SECS: u64 = 5;

/// What the metadata server of this platform answers when asked for the
/// cloud identifier.
pub open spec fn cloud_identifier() -> Seq<char> {
    "Exoscale Compute Platform"@
}

/// The key pair that signs requests to the control-plane API.
#[derive(Debug)]
pub struct ExoscaleAPICredentials {
    pub api_key: String,
    pub api_secret: String,
}

impl Clone for ExoscaleAPICredentials {
    fn clone(&self) -> (copy: ExoscaleAPICredentials)
        ensures
            copy.api_key@ == self.api_key@,
            copy.api_secret@ == self.api_secret@,
    {
        ExoscaleAPICredentials {
            api_key: self.api_key.clone(),
            api_secret: self.api_secret.clone(),
        }
    }
}

/// The provider for this platform: the credentials, once the configuration
/// has given them, and one client each for the metadata server and for the
/// API.
#[derive(Debug)]
pub struct ExoscaleCloudProvider {
    credentials: Option<ExoscaleAPICredentials>,
    metadata_client: HttpClient,
    api_client: HttpClient,
    state: ProbeState,
}

/// What a provider holds: the key and the secret, the two timeouts, and
/// where its probe stands.
pub struct ExoscaleCloudProviderView {
    pub credentials: Option<(Seq<char>, Seq<char>)>,
    pub metadata_timeout_secs: u64,
    pub api_timeout_secs: u64,
    pub state: ProbeStateView,
}

impl View for ExoscaleCloudProvider {
    type V = ExoscaleCloudProviderView;

    closed spec fn view(&self) -> ExoscaleCloudProviderView {
        ExoscaleCloudProviderView {
            credentials: match self.credentials {
                Some(pair) => Some((pair.api_key@, pair.api_secret@)),
                None => None,
            },
            metadata_timeout_secs: self.metadata_client.timeout_secs(),
            api_timeout_secs: self.api_client.timeout_secs(),
            state: self.state@,
        }
    }
}

/// The address of a metadata item.
pub open spec fn metadata_uri(path: Seq<char>) -> Seq<char> {
    "http://169.254.169.254/latest/"@ + path
}

/// The path of an API resource, as it is requested and signed.
pub open spec fn api_path(path: Seq<char>) -> Seq<char> {
    "/v2/"@ + path
}

/// The address of an API resource in a zone.
pub open spec fn api_uri(zone: Seq<char>, path: Seq<char>) -> Seq<char> {
    "https://api-"@ + zone + ".exoscale.com"@ + api_path(path)
}

/// The resource of an instance pool or of one of its members.
pub open spec fn pool_path(id: Seq<char>) -> Seq<char> {
    "instance-pool/"@ + id
}

/// A request as the provider reports it: every transport error becomes
/// `ResourceUnreachable`.
pub open spec fn masked_request(request: Result<HttpRequestView, HttpErrorView>) -> Result<
    HttpRequestView,
    CloudProviderError,
> {
    match request {
        Ok(prepared) => Ok(prepared),
        Err(_) => Err(CloudProviderError::ResourceUnreachable),
    }
}

/// The request for a metadata item: a plain GET without headers.
pub open spec fn metadata_request(path: Seq<char>, timeout_secs: u64) -> Result<
    HttpRequestView,
    CloudProviderError,
> {
    masked_request(
        prepared_request(metadata_uri(path), Seq::<(Seq<char>, Seq<char>)>::empty(), timeout_secs),
    )
}

/// The request for an API resource: a GET whose `authorization` header
/// signs the method and the path, with an empty body and no parameters,
/// until `expiration`. Without credentials or without an expiration time
/// it is an `AuthenticationError`.
pub open spec fn api_request(
    provider: ExoscaleCloudProviderView,
    zone: Seq<char>,
    path: Seq<char>,
    expiration: Result<u64, CloudProviderError>,
) -> Result<HttpRequestView, CloudProviderError> {
    match (provider.credentials, expiration) {
        (Some(pair), Ok(expires)) => masked_request(
            prepared_request(
                api_uri(zone, path),
                seq![
                    (
                        "authorization"@,
                        signed_text(
                            pair.0,
                            pair.1,
                            "GET"@,
                            api_path(path),
                            Seq::<char>::empty(),
                            None,
                            Seq::<char>::empty(),
                            expires as nat,
                        ),
                    ),
                ],
                provider.api_timeout_secs,
            ),
        ),
        _ => Err(CloudProviderError::AuthenticationError),
    }
}

/// The view of a result of `HttpRequest` or `CloudProviderError`.
pub open spec fn provider_request(request: Result<HttpRequest, CloudProviderError>) -> Result<
    HttpRequestView,
    CloudProviderError,
> {
    match request {
        Ok(prepared) => Ok(prepared@),
        Err(error) => Err(error),
    }
}

/// The document of an API response: `ResourceUnreachable` where the call
/// failed, `NotAvailable` where the body is no JSON text.
pub open spec fn api_document(response: Result<Seq<char>, HttpErrorView>) -> Result<
    Node,
    CloudProviderError,
> {
    match response {
        Ok(text) => match json_document(text) {
            Some(document) => Ok(document),
            None => Err(CloudProviderError::NotAvailable),
        },
        Err(_) => Err(CloudProviderError::ResourceUnreachable),
    }
}

/// The instance that a record describes, in the zone it was asked for.
pub open spec fn record_instance(record: ExoscaleInstanceView, zone: Seq<char>) -> CloudInstanceView {
    CloudInstanceView {
        instance_id: record.id,
        manager_id: match record.manager {
            Some(manager) => Some(manager.id),
            None => None,
        },
        hostname: record.name,
        zone,
        ipv4_address: record.ipv4_address,
        ipv6_address: record.ipv6_address,
    }
}

/// The instance of an API response: `NotAvailable` where the document is
/// no instance record.
pub open spec fn response_instance(
    zone: Seq<char>,
    response: Result<Seq<char>, HttpErrorView>,
) -> Result<CloudInstanceView, CloudProviderError> {
    match api_document(response) {
        Ok(document) => match instance_record(document) {
            Some(record) => Ok(record_instance(record, zone)),
            None => Err(CloudProviderError::NotAvailable),
        },
        Err(error) => Err(error),
    }
}

/// The pool record of an API response: `NotAvailable` where the document
/// is no pool record.
pub open spec fn response_pool(response: Result<Seq<char>, HttpErrorView>) -> Result<
    ExoscaleInstancePoolView,
    CloudProviderError,
> {
    match api_document(response) {
        Ok(document) => match pool_record(document) {
            Some(record) => Ok(record),
            None => Err(CloudProviderError::NotAvailable),
        },
        Err(error) => Err(error),
    }
}

/// The name of the header that carries the signature, from
/// `hyper::header::AUTHORIZATION`: hyper spells it `authorization`.
#[verifier::external_body]
fn authorization_header_name() -> (name: String)
    ensures
        name@ == "authorization"@,
{
    hyper::header::AUTHORIZATION.to_string()
}

/// Reports a prepared request as the provider does.
pub fn mask_request(request: Result<HttpRequest, HttpError>) -> (masked: Result<
    HttpRequest,
    CloudProviderError,
>)
    ensures
        provider_request(masked) == masked_request(request_result(request)),
{
    match request {
        Ok(prepared) => Ok(prepared),
        Err(error) => Err(CloudProviderError::from(error)),
    }
}

impl ExoscaleCloudProvider {
    /// A provider without credentials whose clients wait the default
    /// number of seconds.
    pub fn new() -> (provider: ExoscaleCloudProvider)
        ensures
            provider@ == (ExoscaleCloudProviderView {
                credentials: None,
                metadata_timeout_secs: EXOSCALE_METADATA_DEFAULT_TIMEOUT_SECS,
                api_timeout_secs: EXOSCALE_API_DEFAULT_TIMEOUT_SECS,
                state: ProbeStateView::Start,
            }),
    {
        ExoscaleCloudProvider {
            credentials: None,
            metadata_client: HttpClient::new(EXOSCALE_METADATA_DEFAULT_TIMEOUT_SECS),
            api_client: HttpClient::new(EXOSCALE_API_DEFAULT_TIMEOUT_SECS),
            state: ProbeState::Start,
        }
    }

    /// Changes how long an API call may take.
    pub fn set_api_timeout(&mut self, timeout_secs: u64)
        ensures
            final(self)@ == (ExoscaleCloudProviderView {
                api_timeout_secs: timeout_secs,
                ..old(self)@
            }),
    {
        self.api_client.set_timeout(timeout_secs);
    }

    /// Installs the credentials that sign the API calls from now on.
    pub fn set_api_credentials(&mut self, credentials: ExoscaleAPICredentials)
        ensures
            final(self)@ == (ExoscaleCloudProviderView {
                credentials: Some((credentials.api_key@, credentials.api_secret@)),
                ..old(self)@
            }),
    {
        self.credentials = Some(credentials);
    }

    /// Prepares the request for a metadata item.
    pub fn metadata_get(&self, path: &str) -> (request: Result<HttpRequest, CloudProviderError>)
        ensures
            provider_request(request) == metadata_request(path@, self@.metadata_timeout_secs),
    {
        let uri = String::from_str("http://169.254.169.254/latest/").concat(path);
        mask_request(self.metadata_client.request_get(uri))
    }

    /// Prepares the request for an API resource with a signature that
    /// expires at `expiration`, where there is such a time.
    pub fn api_get_until(
        &self,
        zone: &str,
        path: &str,
        expiration: Result<u64, CloudProviderError>,
    ) -> (request: Result<HttpRequest, CloudProviderError>)
        ensures
            provider_request(request) == api_request(self@, zone@, path@, expiration),
    {
        let full_path = String::from_str("/v2/").concat(path);
        let uri = String::from_str("https://api-").concat(zone).concat(".exoscale.com").concat(
            full_path.as_str(),
        );
        let credentials = match &self.credentials {
            Some(pair) => pair.clone(),
            None => {
                return Err(CloudProviderError::AuthenticationError);
            },
        };
        let expires = match expiration {
            Ok(seconds) => seconds,
            Err(_) => {
                return Err(CloudProviderError::AuthenticationError);
            },
        };
        let signature = match sign_request(credentials, "GET", full_path, None, None, expires) {
            Ok(header) => header,
            Err(_) => {
                return Err(CloudProviderError::AuthenticationError);
            },
        };
        let mut headers: Vec<(String, String)> = Vec::new();
        headers.push((authorization_header_name(), signature));
        assert(header_texts(headers@) =~= seq![("authorization"@, signature@)]);
        mask_request(self.api_client.request_get_with_headers(uri, headers))
    }

    /// Prepares the request for an API resource with a signature that is
    /// valid for `SIGNATURE_VALIDITY_SECS` from now. Whatever the clock
    /// says, the outcome is that of `api_get_until` for the expiration
    /// time of some clock reading or of none.
    pub fn api_get(&self, zone: &str, path: &str) -> (request: Result<
        HttpRequest,
        CloudProviderError,
    >)
        ensures
            exists|reading: Option<u64>|
                provider_request(request) == api_request(
                    self@,
                    zone@,
                    path@,
                    expiration_time(reading, SIGNATURE_VALIDITY_SECS),
                ),
    {
        let expiration = build_expiration_timestamp(SIGNATURE_VALIDITY_SECS);
        self.api_get_until(zone, path, expiration)
    }

    /// Reads the document of an API response.
    pub fn decode_response(response: Result<String, HttpError>) -> (document: Result<
        Node,
        CloudProviderError,
    >)
        ensures
            document == api_document(text_result(response)),
    {
        match response {
            Ok(text) => match parse_json(text.as_str()) {
                Some(document) => Ok(document),
                None => Err(CloudProviderError::NotAvailable),
            },
            Err(error) => Err(CloudProviderError::from(error)),
        }
    }

    /// Reads the instance of an API response that was asked for in `zone`.
    pub fn instance_from_response(zone: &str, response: Result<String, HttpError>) -> (instance:
        Result<CloudInstance, CloudProviderError>)
        ensures
            match instance {
                Ok(read) => response_instance(zone@, text_result(response))
                    == Ok::<CloudInstanceView, CloudProviderError>(read@),
                Err(error) => response_instance(zone@, text_result(response))
                    == Err::<CloudInstanceView, CloudProviderError>(error),
            },
    {
        let document = match ExoscaleCloudProvider::decode_response(response) {
            Ok(document) => document,
            Err(error) => {
                return Err(error);
            },
        };
        match ExoscaleInstance::from_node(&document) {
            Some(record) => Ok(
                CloudInstance {
                    instance_id: record.id,
                    manager_id: match record.manager {
                        Some(manager) => Some(manager.id),
                        None => None,
                    },
                    hostname: record.name,
                    zone: String::from_str(zone),
                    ipv4_address: record.ipv4_address,
                    ipv6_address: record.ipv6_address,
                },
            ),
            None => Err(CloudProviderError::NotAvailable),
        }
    }

    /// Reads the pool record of an API response.
    pub fn pool_from_response(response: Result<String, HttpError>) -> (pool: Result<
        ExoscaleInstancePool,
        CloudProviderError,
    >)
        ensures
            match pool {
                Ok(read) => response_pool(text_result(response)) == Ok::<
                    ExoscaleInstancePoolView,
                    CloudProviderError,
                >(read@),
                Err(error) => response_pool(text_result(response)) == Err::<
                    ExoscaleInstancePoolView,
                    CloudProviderError,
                >(error),
            },
    {
        let document = match ExoscaleCloudProvider::decode_response(response) {
            Ok(document) => document,
            Err(error) => {
                return Err(error);
            },
        };
        match ExoscaleInstancePool::from_node(&document) {
            Some(record) => Ok(record),
            None => Err(CloudProviderError::NotAvailable),
        }
    }
}

/// The view of a step of this provider.
pub open spec fn step_view(step: ProbeStep<ExoscaleCloudProvider>) -> ProbeStepView {
    match step {
        ProbeStep::Fetch(provider, request) => ProbeStepView::Fetch(provider@, request@),
        ProbeStep::Sleep(provider, seconds) => ProbeStepView::Sleep(provider@, seconds),
        ProbeStep::Done(Ok(data)) => ProbeStepView::Done(Ok(data@)),
        ProbeStep::Done(Err(error)) => ProbeStepView::Done(Err(error)),
    }
}

impl ExoscaleCloudProvider {
    /// The provider in another state.
    fn enter(self, next: ProbeState) -> (provider: ExoscaleCloudProvider)
        ensures
            provider@ == in_state(self@, next@),
    {
        let ExoscaleCloudProvider { credentials, metadata_client, api_client, state: _ } = self;
        ExoscaleCloudProvider { credentials, metadata_client, api_client, state: next }
    }

    /// Asks for a metadata item and moves to `next`.
    fn metadata_fetch(self, path: &str, next: ProbeState) -> (step: ProbeStep<
        ExoscaleCloudProvider,
    >)
        ensures
            step_view(step) == metadata_step(self@, path@, next@),
    {
        match self.metadata_get(path) {
            Ok(request) => ProbeStep::Fetch(self.enter(next), request),
            Err(error) => ProbeStep::Done(Err(error)),
        }
    }

    /// Prepares the request for a pool or one of its members.
    fn pool_request(&self, zone: &str, id: &str, expiration: Result<u64, CloudProviderError>) -> (request:
        Result<HttpRequest, CloudProviderError>)
        ensures
            provider_request(request) == api_request(self@, zone@, pool_path(id@), expiration),
    {
        let path = String::from_str("instance-pool/").concat(id);
        self.api_get_until(zone, path.as_str(), expiration)
    }

    /// Sends an API request and moves to `next`, or gives up in `next`
    /// where there is no request.
    fn api_fetch(self, request: Result<HttpRequest, CloudProviderError>, next: ProbeState) -> (step:
        ProbeStep<ExoscaleCloudProvider>)
        ensures
            step_view(step) == match provider_request(request) {
                Ok(prepared) => ProbeStepView::Fetch(in_state(self@, next@), prepared),
                Err(_) => fallback_result(next@),
            },
    {
        match request {
            Ok(prepared) => ProbeStep::Fetch(self.enter(next), prepared),
            Err(_) => match next.into_basic() {
                Some((configuration, basic)) => ProbeStep::Done(
                    Ok(ProbeData { configuration, instance: basic, instance_group: None }),
                ),
                None => ProbeStep::Done(Err(CloudProviderError::ResourceUnreachable)),
            },
        }
    }

    /// Asks for the pool record of the group.
    fn pool_fetch(self, wait: GroupWait, expiration: Result<u64, CloudProviderError>) -> (step:
        ProbeStep<ExoscaleCloudProvider>)
        ensures
            step_view(step) == pool_step(self@, wait@, expiration),
    {
        let request = self.pool_request(
            wait.instance.zone.as_str(),
            wait.manager_id.as_str(),
            expiration,
        );
        self.api_fetch(request, ProbeState::Pool { wait })
    }

    /// Goes on with the lookup of a group: asks for the next member, or
    /// ends with the group whatever its size, or with the error of a
    /// request that cannot be made.
    pub fn group_lookup_step(
        &self,
        id: &str,
        zone: &str,
        pool: ExoscaleInstancePool,
        resolved: Vec<CloudInstance>,
        expiration: Result<u64, CloudProviderError>,
    ) -> (step: GroupLookup)
        ensures
            step@ == group_lookup(
                self@,
                id@,
                zone@,
                pool@,
                instance_views(resolved@),
                expiration,
            ),
    {
        if resolved.len() < pool.instances.len() {
            match self.pool_request(zone, pool.instances[resolved.len()].id.as_str(), expiration) {
                Ok(request) => GroupLookup::Ask { request, pool, resolved },
                Err(error) => GroupLookup::Done(Err(error)),
            }
        } else {
            GroupLookup::Done(
                Ok(
                    CloudInstanceGroup {
                        instance_group_id: String::from_str(id),
                        instances: resolved,
                        size: pool.size,
                    },
                ),
            )
        }
    }

    /// Takes the response to the request of `get_instance_group`, the one
    /// for the pool record, and begins to resolve the members. A response
    /// that failed or holds no pool record ends the lookup with its error.
    pub fn group_lookup_pool(
        &self,
        id: &str,
        zone: &str,
        response: Result<String, HttpError>,
        expiration: Result<u64, CloudProviderError>,
    ) -> (step: GroupLookup)
        ensures
            step@ == group_lookup_pool(self@, id@, zone@, text_result(response), expiration),
    {
        match ExoscaleCloudProvider::pool_from_response(response) {
            Ok(pool) => {
                let resolved: Vec<CloudInstance> = Vec::new();
                assert(instance_views(resolved@) =~= Seq::<CloudInstanceView>::empty());
                self.group_lookup_step(id, zone, pool, resolved, expiration)
            },
            Err(error) => GroupLookup::Done(Err(error)),
        }
    }

    /// Takes the response to the request for a member. A response that
    /// failed or holds no instance ends the lookup with its error, and
    /// what was resolved so far is given up; one that holds the member
    /// takes the lookup on.
    pub fn group_lookup_member(
        &self,
        id: &str,
        zone: &str,
        pool: ExoscaleInstancePool,
        resolved: Vec<CloudInstance>,
        response: Result<String, HttpError>,
        expiration: Result<u64, CloudProviderError>,
    ) -> (step: GroupLookup)
        ensures
            step@ == group_lookup_member(
                self@,
                id@,
                zone@,
                pool@,
                instance_views(resolved@),
                text_result(response),
                expiration,
            ),
    {
        match ExoscaleCloudProvider::instance_from_response(zone, response) {
            Ok(member) => {
                let mut members = resolved;
                members.push(member);
                assert(instance_views(members@) =~= instance_views(resolved@).push(member@));
                self.group_lookup_step(id, zone, pool, members, expiration)
            },
            Err(error) => GroupLookup::Done(Err(error)),
        }
    }

    /// Goes on with the probe from where the lookup of its group stands.
    fn lookup_fetch(self, wait: GroupWait, lookup: GroupLookup) -> (step: ProbeStep<
        ExoscaleCloudProvider,
    >)
        ensures
            step_view(step) == lookup_step(self@, wait@, lookup@),
    {
        match lookup {
            GroupLookup::Ask { request, pool, resolved } => ProbeStep::Fetch(
                self.enter(ProbeState::Member { wait, pool, resolved }),
                request,
            ),
            GroupLookup::Done(Ok(group)) => {
                if group.instances.len() == group.size {
                    ProbeStep::Done(
                        Ok(
                            ProbeData {
                                configuration: wait.configuration,
                                instance: wait.instance,
                                instance_group: Some(group),
                            },
                        ),
                    )
                } else {
                    let delay = wait.retry_delay_secs;
                    ProbeStep::Sleep(self.enter(ProbeState::Sleeping { wait }), delay)
                }
            },
            GroupLookup::Done(Err(_)) => ProbeStep::Done(
                Ok(
                    ProbeData {
                        configuration: wait.configuration,
                        instance: wait.basic,
                        instance_group: None,
                    },
                ),
            ),
        }
    }

    /// Completes the basic instance with what the API says of it: the
    /// manager and the addresses are those of `described`, the rest stays.
    pub fn enrich(basic: &CloudInstance, described: CloudInstance) -> (instance: CloudInstance)
        ensures
            instance@ == enriched_instance(basic@, described@),
    {
        CloudInstance {
            instance_id: basic.instance_id.clone(),
            manager_id: described.manager_id,
            hostname: basic.hostname.clone(),
            zone: basic.zone.clone(),
            ipv4_address: described.ipv4_address,
            ipv6_address: described.ipv6_address,
        }
    }

    /// Assembles the instance as the metadata describes it.
    pub fn probe_basic_instance_data(instance_id: String, hostname: String, zone: String) -> (instance:
        CloudInstance)
        ensures
            instance@ == basic_instance(instance_id@, hostname@, zone@),
    {
        CloudInstance {
            instance_id,
            manager_id: None,
            hostname,
            zone,
            ipv4_address: None,
            ipv6_address: None,
        }
    }

    /// Begins the part of the probe that asks the API. Without a provider
    /// section in the configuration the probe ends with the basic
    /// instance. With one, the provider takes its credentials and its API
    /// timeout from it and asks for the instance; where that request
    /// cannot be made, the probe ends with the basic instance as well.
    pub fn probe_advanced_instance_data(
        self,
        configuration: CloudConfiguration,
        instance: CloudInstance,
        expiration: Result<u64, CloudProviderError>,
    ) -> (step: ProbeStep<ExoscaleCloudProvider>)
        ensures
            step_view(step) == advanced_step(self@, configuration@, instance@, expiration),
    {
        let (credentials, api_timeout_secs, retry_delay_secs) = match &configuration.provider.exoscale {
            Some(options) => (
                ExoscaleAPICredentials {
                    api_key: options.api_key.clone(),
                    api_secret: options.api_secret.clone(),
                },
                options.api_timeout_secs,
                options.api_retry_delay_secs,
            ),
            None => {
                return ProbeStep::Done(
                    Ok(ProbeData { configuration, instance, instance_group: None }),
                );
            },
        };
        let mut provider = self;
        provider.set_api_credentials(credentials);
        provider.set_api_timeout(api_timeout_secs);
        let request = provider.pool_request(
            instance.zone.as_str(),
            instance.instance_id.as_str(),
            expiration,
        );
        provider.api_fetch(
            request,
            ProbeState::Instance { configuration, basic: instance, retry_delay_secs },
        )
    }

    /// Takes the probe one step further, with signatures that expire at
    /// `expiration`: the step is `probe_step` of the provider, of the
    /// response that the event stands for, and of the expiration time.
    pub fn probe_at(self, event: ProbeEvent, expiration: Result<u64, CloudProviderError>) -> (step:
        ProbeStep<ExoscaleCloudProvider>)
        ensures
            step_view(step) == probe_step(self@, event_response(event), expiration),
    {
        let ExoscaleCloudProvider { credentials, metadata_client, api_client, state } = self;
        let provider = ExoscaleCloudProvider {
            credentials,
            metadata_client,
            api_client,
            state: ProbeState::Start,
        };
        assert(provider@ == in_state(self@, ProbeStateView::Start));
        let response = match event {
            ProbeEvent::Reply(outcome) => provider.api_client.parse_response(outcome),
            _ => Err(HttpError::TransportError),
        };
        assert(text_result(response) == event_response(event));
        match state {
            ProbeState::Start => provider.metadata_fetch(
                "meta-data/cloud-identifier",
                ProbeState::VerifyPlatform,
            ),
            ProbeState::VerifyPlatform => match response {
                Ok(text) => {
                    if text == String::from_str("Exoscale Compute Platform") {
                        provider.metadata_fetch("user-data", ProbeState::LoadConfig)
                    } else {
                        ProbeStep::Done(Err(CloudProviderError::NotAvailable))
                    }
                },
                Err(_) => ProbeStep::Done(Err(CloudProviderError::ResourceUnreachable)),
            },
            ProbeState::LoadConfig => match response {
                Ok(text) => match CloudConfiguration::from_str(text.as_str()) {
                    Some(configuration) => provider.metadata_fetch(
                        "meta-data/instance-id",
                        ProbeState::InstanceId { configuration },
                    ),
                    None => ProbeStep::Done(Err(CloudProviderError::ConfigurationError)),
                },
                Err(_) => ProbeStep::Done(Err(CloudProviderError::ResourceUnreachable)),
            },
            ProbeState::InstanceId { configuration } => match response {
                Ok(instance_id) => provider.metadata_fetch(
                    "meta-data/local-hostname",
                    ProbeState::Hostname { configuration, instance_id },
                ),
                Err(_) => ProbeStep::Done(Err(CloudProviderError::ResourceUnreachable)),
            },
            ProbeState::Hostname { configuration, instance_id } => match response {
                Ok(hostname) => provider.metadata_fetch(
                    "meta-data/availability-zone",
                    ProbeState::Zone { configuration, instance_id, hostname },
                ),
                Err(_) => ProbeStep::Done(Err(CloudProviderError::ResourceUnreachable)),
            },
            ProbeState::Zone { configuration, instance_id, hostname } => match response {
                Ok(zone) => {
                    let basic = ExoscaleCloudProvider::probe_basic_instance_data(
                        instance_id,
                        hostname,
                        zone,
                    );
                    provider.probe_advanced_instance_data(configuration, basic, expiration)
                },
                Err(_) => ProbeStep::Done(Err(CloudProviderError::ResourceUnreachable)),
            },
            ProbeState::Instance {
                configuration,
                basic,
                retry_delay_secs,
            } => match ExoscaleCloudProvider::instance_from_response(
                basic.zone.as_str(),
                response,
            ) {
                Ok(described) => {
                    let instance = ExoscaleCloudProvider::enrich(&basic, described);
                    match clone_optional_text(&instance.manager_id) {
                        None => ProbeStep::Done(
                            Ok(ProbeData { configuration, instance, instance_group: None }),
                        ),
                        Some(manager_id) => provider.pool_fetch(
                            GroupWait {
                                configuration,
                                basic,
                                instance,
                                manager_id,
                                retry_delay_secs,
                            },
                            expiration,
                        ),
                    }
                },
                Err(_) => ProbeStep::Done(
                    Ok(ProbeData { configuration, instance: basic, instance_group: None }),
                ),
            },
            ProbeState::Pool { wait } => {
                let lookup = provider.group_lookup_pool(
                    wait.manager_id.as_str(),
                    wait.instance.zone.as_str(),
                    response,
                    expiration,
                );
                provider.lookup_fetch(wait, lookup)
            },
            ProbeState::Member { wait, pool, resolved } => {
                let lookup = provider.group_lookup_member(
                    wait.manager_id.as_str(),
                    wait.instance.zone.as_str(),
                    pool,
                    resolved,
                    response,
                    expiration,
                );
                provider.lookup_fetch(wait, lookup)
            },
            ProbeState::Sleeping { wait } => provider.pool_fetch(wait, expiration),
        }
    }
}

impl CloudProvider for ExoscaleCloudProvider {
    /// Takes the probe one step further, with signatures that are valid
    /// for `SIGNATURE_VALIDITY_SECS` from now. Whatever the clock says, the
    /// step is that of `probe_at` for the expiration time of some clock
    /// reading or of none.
    fn probe(self, event: ProbeEvent) -> (step: ProbeStep<ExoscaleCloudProvider>)
        ensures
            exists|reading: Option<u64>|
                step_view(step) == probe_step(
                    self@,
                    event_response(event),
                    expiration_time(reading, SIGNATURE_VALIDITY_SECS),
                ),
    {
        let expiration = build_expiration_timestamp(SIGNATURE_VALIDITY_SECS);
        self.probe_at(event, expiration)
    }

    fn get_metadata_userdata(&self) -> (request: Result<HttpRequest, CloudProviderError>)
        ensures
            provider_request(request) == metadata_request(
                "user-data"@,
                self@.metadata_timeout_secs,
            ),
    {
        self.metadata_get("user-data")
    }

    fn get_metadata_cloud_identifier(&self) -> (request: Result<HttpRequest, CloudProviderError>)
        ensures
            provider_request(request) == metadata_request(
                "meta-data/cloud-identifier"@,
                self@.metadata_timeout_secs,
            ),
    {
        self.metadata_get("meta-data/cloud-identifier")
    }

    fn get_metadata_zone(&self) -> (request: Result<HttpRequest, CloudProviderError>)
        ensures
            provider_request(request) == metadata_request(
                "meta-data/availability-zone"@,
                self@.metadata_timeout_secs,
            ),
    {
        self.metadata_get("meta-data/availability-zone")
    }

    fn get_metadata_instance_id(&self) -> (request: Result<HttpRequest, CloudProviderError>)
        ensures
            provider_request(request) == metadata_request(
                "meta-data/instance-id"@,
                self@.metadata_timeout_secs,
            ),
    {
        self.metadata_get("meta-data/instance-id")
    }

    fn get_metadata_hostname(&self) -> (request: Result<HttpRequest, CloudProviderError>)
        ensures
            provider_request(request) == metadata_request(
                "meta-data/local-hostname"@,
                self@.metadata_timeout_secs,
            ),
    {
        self.metadata_get("meta-data/local-hostname")
    }

    /// The request for an instance. `instance_from_response` reads the
    /// instance from its response.
    fn get_instance(&self, id: &str, zone: &str) -> (request: Result<
        HttpRequest,
        CloudProviderError,
    >)
        ensures
            exists|reading: Option<u64>|
                provider_request(request) == api_request(
                    self@,
                    zone@,
                    pool_path(id@),
                    expiration_time(reading, SIGNATURE_VALIDITY_SECS),
                ),
    {
        let expiration = build_expiration_timestamp(SIGNATURE_VALIDITY_SECS);
        self.pool_request(zone, id, expiration)
    }

    /// The request that begins the lookup of a group, the one for its
    /// pool record. `group_lookup_pool` takes its response and
    /// `group_lookup_member` the response for each member, until the
    /// lookup ends with the group, whatever its size, or with the error of
    /// the call that failed.
    fn get_instance_group(&self, id: &str, zone: &str) -> (request: Result<
        HttpRequest,
        CloudProviderError,
    >)
        ensures
            exists|reading: Option<u64>|
                provider_request(request) == api_request(
                    self@,
                    zone@,
                    pool_path(id@),
                    expiration_time(reading, SIGNATURE_VALIDITY_SECS),
                ),
    {
        let expiration = build_expiration_timestamp(SIGNATURE_VALIDITY_SECS);
        self.pool_request(zone, id, expiration)
    }
}

} // verus!
