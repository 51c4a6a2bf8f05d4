use crate::configuration::{text_configuration, CloudConfiguration, CloudConfigurationView};
use crate::http_client::{HttpErrorView, HttpRequestView};
use crate::provider::error::CloudProviderError;
use crate::provider::exoscale::api::{ExoscaleInstancePool, ExoscaleInstancePoolView};
use crate::provider::exoscale::group::{
    answers_look,
    group_lookup,
    group_lookup_member,
    group_lookup_pool,
    looked_up_group,
    GroupLook,
    GroupLookupView,
    StepInput,
};
use crate::provider::exoscale::{
    api_request,
    cloud_identifier,
    metadata_request,
    pool_path,
    response_instance,
    response_pool,
    ExoscaleCloudProviderView,
};
use crate::provider::{
    instance_views,
    CloudInstance,
    CloudInstanceGroupView,
    CloudInstanceView,
    ProbeDataView,
};
use vstd::prelude::*;

verus! {

/// What the probe keeps while it waits for an instance group to fill up.
#[derive(Debug)]
pub struct GroupWait {
    pub configuration: CloudConfiguration,
    /// The instance as the metadata describes it.
    pub basic: CloudInstance,
    /// The instance as the API completes it.
    pub instance: CloudInstance,
    /// The group that manages the instance.
    pub manager_id: String,
    pub retry_delay_secs: u64,
}

/// `GroupWait` with its strings as character sequences.
pub struct GroupWaitView {
    pub configuration: CloudConfigurationView,
    pub basic: CloudInstanceView,
    pub instance: CloudInstanceView,
    pub manager_id: Seq<char>,
    pub retry_delay_secs: u64,
}

impl View for GroupWait {
    type V = GroupWaitView;

    open spec fn view(&self) -> GroupWaitView {
        GroupWaitView {
            configuration: self.configuration@,
            basic: self.basic@,
            instance: self.instance@,
            manager_id: self.manager_id@,
            retry_delay_secs: self.retry_delay_secs,
        }
    }
}

/// Where a probe stands: what it has learnt, and which answer it waits
/// for.
#[derive(Debug)]
pub enum ProbeState {
    /// Nothing was asked yet.
    Start,
    /// Waiting for the cloud identifier.
    VerifyPlatform,
    /// Waiting for the configuration document.
    LoadConfig,
    /// Waiting for the instance identifier.
    InstanceId { configuration: CloudConfiguration },
    /// Waiting for the host name.
    Hostname { configuration: CloudConfiguration, instance_id: String },
    /// Waiting for the zone.
    Zone { configuration: CloudConfiguration, instance_id: String, hostname: String },
    /// Waiting for the instance record of the API.
    Instance { configuration: CloudConfiguration, basic: CloudInstance, retry_delay_secs: u64 },
    /// Waiting for the pool record of the group.
    Pool { wait: GroupWait },
    /// Waiting for the instance record of the next member of the group:
    /// the one after those that are resolved.
    Member { wait: GroupWait, pool: ExoscaleInstancePool, resolved: Vec<CloudInstance> },
    /// Waiting for the retry delay to pass.
    Sleeping { wait: GroupWait },
}

/// `ProbeState` with its strings as character sequences.
pub enum ProbeStateView {
    Start,
    VerifyPlatform,
    LoadConfig,
    InstanceId { configuration: CloudConfigurationView },
    Hostname { configuration: CloudConfigurationView, instance_id: Seq<char> },
    Zone { configuration: CloudConfigurationView, instance_id: Seq<char>, hostname: Seq<char> },
    Instance { configuration: CloudConfigurationView, basic: CloudInstanceView, retry_delay_secs: u64 },
    Pool { wait: GroupWaitView },
    Member {
        wait: GroupWaitView,
        pool: ExoscaleInstancePoolView,
        resolved: Seq<CloudInstanceView>,
    },
    Sleeping { wait: GroupWaitView },
}

impl View for ProbeState {
    type V = ProbeStateView;

    open spec fn view(&self) -> ProbeStateView {
        match self {
            ProbeState::Start => ProbeStateView::Start,
            ProbeState::VerifyPlatform => ProbeStateView::VerifyPlatform,
            ProbeState::LoadConfig => ProbeStateView::LoadConfig,
            ProbeState::InstanceId { configuration } => ProbeStateView::InstanceId {
                configuration: configuration@,
            },
            ProbeState::Hostname { configuration, instance_id } => ProbeStateView::Hostname {
                configuration: configuration@,
                instance_id: instance_id@,
            },
            ProbeState::Zone { configuration, instance_id, hostname } => ProbeStateView::Zone {
                configuration: configuration@,
                instance_id: instance_id@,
                hostname: hostname@,
            },
            ProbeState::Instance {
                configuration,
                basic,
                retry_delay_secs,
            } => ProbeStateView::Instance {
                configuration: configuration@,
                basic: basic@,
                retry_delay_secs: *retry_delay_secs,
            },
            ProbeState::Pool { wait } => ProbeStateView::Pool { wait: wait@ },
            ProbeState::Member { wait, pool, resolved } => ProbeStateView::Member {
                wait: wait@,
                pool: pool@,
                resolved: instance_views(resolved@),
            },
            ProbeState::Sleeping { wait } => ProbeStateView::Sleeping { wait: wait@ },
        }
    }
}

impl ProbeStateView {
    /// The configuration and the basic instance, in the states that have
    /// both: those of the calls to the API.
    pub open spec fn basic_data(self) -> Option<(CloudConfigurationView, CloudInstanceView)> {
        match self {
            ProbeStateView::Instance { configuration, basic, .. } => Some((configuration, basic)),
            ProbeStateView::Pool { wait } => Some((wait.configuration, wait.basic)),
            ProbeStateView::Member { wait, .. } => Some((wait.configuration, wait.basic)),
            ProbeStateView::Sleeping { wait } => Some((wait.configuration, wait.basic)),
            _ => None,
        }
    }
}

impl ProbeState {
    /// Gives up the state for the configuration and the basic instance
    /// that it holds.
    pub fn into_basic(self) -> (data: Option<(CloudConfiguration, CloudInstance)>)
        ensures
            match data {
                Some(pair) => self@.basic_data() == Some((pair.0@, pair.1@)),
                None => self@.basic_data() is None,
            },
    {
        match self {
            ProbeState::Instance { configuration, basic, .. } => Some((configuration, basic)),
            ProbeState::Pool { wait } => Some((wait.configuration, wait.basic)),
            ProbeState::Member { wait, .. } => Some((wait.configuration, wait.basic)),
            ProbeState::Sleeping { wait } => Some((wait.configuration, wait.basic)),
            _ => None,
        }
    }
}

/// A step of the probe with its strings as character sequences.
pub enum ProbeStepView {
    Fetch(ExoscaleCloudProviderView, HttpRequestView),
    Sleep(ExoscaleCloudProviderView, u64),
    Done(Result<ProbeDataView, CloudProviderError>),
}

/// The provider in another state.
pub open spec fn in_state(
    provider: ExoscaleCloudProviderView,
    state: ProbeStateView,
) -> ExoscaleCloudProviderView {
    ExoscaleCloudProviderView { state, ..provider }
}

/// The provider with the credentials and the API timeout of its
/// configuration.
pub open spec fn configured(
    provider: ExoscaleCloudProviderView,
    api_key: Seq<char>,
    api_secret: Seq<char>,
    api_timeout_secs: u64,
) -> ExoscaleCloudProviderView {
    ExoscaleCloudProviderView {
        credentials: Some((api_key, api_secret)),
        api_timeout_secs,
        ..provider
    }
}

/// The instance as the metadata describes it.
pub open spec fn basic_instance(
    instance_id: Seq<char>,
    hostname: Seq<char>,
    zone: Seq<char>,
) -> CloudInstanceView {
    CloudInstanceView {
        instance_id,
        manager_id: None,
        hostname,
        zone,
        ipv4_address: None,
        ipv6_address: None,
    }
}

/// The instance as the API completes it: the basic instance with the
/// manager and the addresses of the instance that the API describes.
pub open spec fn enriched_instance(
    basic: CloudInstanceView,
    described: CloudInstanceView,
) -> CloudInstanceView {
    CloudInstanceView {
        manager_id: described.manager_id,
        ipv4_address: described.ipv4_address,
        ipv6_address: described.ipv6_address,
        ..basic
    }
}

/// The result of a probe that got no further than the metadata: the basic
/// instance and no group.
pub open spec fn basic_result(
    configuration: CloudConfigurationView,
    basic: CloudInstanceView,
) -> ProbeStepView {
    ProbeStepView::Done(Ok(ProbeDataView { configuration, instance: basic, instance_group: None }))
}

/// The result of a probe that gives up in an API state: the basic
/// instance that the state holds.
pub open spec fn fallback_result(state: ProbeStateView) -> ProbeStepView {
    match state.basic_data() {
        Some(pair) => basic_result(pair.0, pair.1),
        None => ProbeStepView::Done(Err(CloudProviderError::ResourceUnreachable)),
    }
}

/// Asking for a metadata item: the request goes out and the probe moves to
/// `next`, or the probe fails where there is no request.
pub open spec fn metadata_step(
    provider: ExoscaleCloudProviderView,
    path: Seq<char>,
    next: ProbeStateView,
) -> ProbeStepView {
    match metadata_request(path, provider.metadata_timeout_secs) {
        Ok(request) => ProbeStepView::Fetch(in_state(provider, next), request),
        Err(error) => ProbeStepView::Done(Err(error)),
    }
}

/// Asking for an API resource: the request goes out and the probe moves to
/// `next`, or the probe ends with the basic instance where there is no
/// request.
pub open spec fn api_step(
    provider: ExoscaleCloudProviderView,
    zone: Seq<char>,
    id: Seq<char>,
    expiration: Result<u64, CloudProviderError>,
    next: ProbeStateView,
    configuration: CloudConfigurationView,
    basic: CloudInstanceView,
) -> ProbeStepView {
    match api_request(provider, zone, pool_path(id), expiration) {
        Ok(request) => ProbeStepView::Fetch(in_state(provider, next), request),
        Err(_) => basic_result(configuration, basic),
    }
}

/// The group that a pool record and its resolved members describe.
pub open spec fn resolved_group(
    wait: GroupWaitView,
    pool: ExoscaleInstancePoolView,
    resolved: Seq<CloudInstanceView>,
) -> CloudInstanceGroupView {
    looked_up_group(wait.manager_id, pool, resolved)
}

/// What the probe makes of where the lookup of its group stands. A request
/// for a member goes out. A group that has its target size is the result;
/// for one that has not, the probe waits the retry delay and looks again.
/// A lookup that failed ends the probe with the basic instance.
pub open spec fn lookup_step(
    provider: ExoscaleCloudProviderView,
    wait: GroupWaitView,
    lookup: GroupLookupView,
) -> ProbeStepView {
    match lookup {
        GroupLookupView::Ask { request, pool, resolved } => ProbeStepView::Fetch(
            in_state(provider, ProbeStateView::Member { wait, pool, resolved }),
            request,
        ),
        GroupLookupView::Done(Ok(group)) => if group.complete() {
            ProbeStepView::Done(
                Ok(
                    ProbeDataView {
                        configuration: wait.configuration,
                        instance: wait.instance,
                        instance_group: Some(group),
                    },
                ),
            )
        } else {
            ProbeStepView::Sleep(
                in_state(provider, ProbeStateView::Sleeping { wait }),
                wait.retry_delay_secs,
            )
        },
        GroupLookupView::Done(Err(_)) => basic_result(wait.configuration, wait.basic),
    }
}

/// What to do with a pool record of which `resolved` members are known:
/// what the probe makes of the lookup of the group at that point.
pub open spec fn group_step(
    provider: ExoscaleCloudProviderView,
    wait: GroupWaitView,
    pool: ExoscaleInstancePoolView,
    resolved: Seq<CloudInstanceView>,
    expiration: Result<u64, CloudProviderError>,
) -> ProbeStepView {
    lookup_step(
        provider,
        wait,
        group_lookup(provider, wait.manager_id, wait.instance.zone, pool, resolved, expiration),
    )
}

/// Asking for the pool record of the group.
pub open spec fn pool_step(
    provider: ExoscaleCloudProviderView,
    wait: GroupWaitView,
    expiration: Result<u64, CloudProviderError>,
) -> ProbeStepView {
    api_step(
        provider,
        wait.instance.zone,
        wait.manager_id,
        expiration,
        ProbeStateView::Pool { wait },
        wait.configuration,
        wait.basic,
    )
}

/// What the probe does once the zone is known and the basic instance is
/// complete. Without a provider section the probe is over. With one, the
/// provider takes its credentials and its timeout from it and asks the API
/// for the instance.
pub open spec fn advanced_step(
    provider: ExoscaleCloudProviderView,
    configuration: CloudConfigurationView,
    basic: CloudInstanceView,
    expiration: Result<u64, CloudProviderError>,
) -> ProbeStepView {
    match configuration.provider.exoscale {
        None => basic_result(configuration, basic),
        Some(options) => api_step(
            configured(provider, options.api_key, options.api_secret, options.api_timeout_secs),
            basic.zone,
            basic.instance_id,
            expiration,
            ProbeStateView::Instance {
                configuration,
                basic,
                retry_delay_secs: options.api_retry_delay_secs,
            },
            configuration,
            basic,
        ),
    }
}

/// What the probe does with the instance as the API completes it. Without
/// a manager the probe is over; with one, the probe asks for its group.
pub open spec fn instance_step(
    provider: ExoscaleCloudProviderView,
    configuration: CloudConfigurationView,
    basic: CloudInstanceView,
    retry_delay_secs: u64,
    instance: CloudInstanceView,
    expiration: Result<u64, CloudProviderError>,
) -> ProbeStepView {
    match instance.manager_id {
        None => ProbeStepView::Done(
            Ok(ProbeDataView { configuration, instance, instance_group: None }),
        ),
        Some(manager_id) => pool_step(
            provider,
            GroupWaitView { configuration, basic, instance, manager_id, retry_delay_secs },
            expiration,
        ),
    }
}

/// One step of the probe: what a provider in a given state does with the
/// response to its last request, when the signatures it makes expire at
/// `expiration`.
///
/// Until the basic instance is complete every failure ends the probe with
/// an error. From then on every failure ends it with the basic instance
/// and no group.
pub open spec fn probe_step(
    provider: ExoscaleCloudProviderView,
    response: Result<Seq<char>, HttpErrorView>,
    expiration: Result<u64, CloudProviderError>,
) -> ProbeStepView {
    match provider.state {
        ProbeStateView::Start => metadata_step(
            provider,
            "meta-data/cloud-identifier"@,
            ProbeStateView::VerifyPlatform,
        ),
        ProbeStateView::VerifyPlatform => match response {
            Ok(text) => if text == cloud_identifier() {
                metadata_step(provider, "user-data"@, ProbeStateView::LoadConfig)
            } else {
                ProbeStepView::Done(Err(CloudProviderError::NotAvailable))
            },
            Err(_) => ProbeStepView::Done(Err(CloudProviderError::ResourceUnreachable)),
        },
        ProbeStateView::LoadConfig => match response {
            Ok(text) => match text_configuration(text) {
                Some(configuration) => metadata_step(
                    provider,
                    "meta-data/instance-id"@,
                    ProbeStateView::InstanceId { configuration },
                ),
                None => ProbeStepView::Done(Err(CloudProviderError::ConfigurationError)),
            },
            Err(_) => ProbeStepView::Done(Err(CloudProviderError::ResourceUnreachable)),
        },
        ProbeStateView::InstanceId { configuration } => match response {
            Ok(instance_id) => metadata_step(
                provider,
                "meta-data/local-hostname"@,
                ProbeStateView::Hostname { configuration, instance_id },
            ),
            Err(_) => ProbeStepView::Done(Err(CloudProviderError::ResourceUnreachable)),
        },
        ProbeStateView::Hostname { configuration, instance_id } => match response {
            Ok(hostname) => metadata_step(
                provider,
                "meta-data/availability-zone"@,
                ProbeStateView::Zone { configuration, instance_id, hostname },
            ),
            Err(_) => ProbeStepView::Done(Err(CloudProviderError::ResourceUnreachable)),
        },
        ProbeStateView::Zone { configuration, instance_id, hostname } => match response {
            Ok(zone) => advanced_step(
                provider,
                configuration,
                basic_instance(instance_id, hostname, zone),
                expiration,
            ),
            Err(_) => ProbeStepView::Done(Err(CloudProviderError::ResourceUnreachable)),
        },
        ProbeStateView::Instance {
            configuration,
            basic,
            retry_delay_secs,
        } => match response_instance(basic.zone, response) {
            Ok(described) => instance_step(
                provider,
                configuration,
                basic,
                retry_delay_secs,
                enriched_instance(basic, described),
                expiration,
            ),
            Err(_) => basic_result(configuration, basic),
        },
        ProbeStateView::Pool { wait } => lookup_step(
            provider,
            wait,
            group_lookup_pool(provider, wait.manager_id, wait.instance.zone, response, expiration),
        ),
        ProbeStateView::Member { wait, pool, resolved } => lookup_step(
            provider,
            wait,
            group_lookup_member(
                provider,
                wait.manager_id,
                wait.instance.zone,
                pool,
                resolved,
                response,
                expiration,
            ),
        ),
        ProbeStateView::Sleeping { wait } => pool_step(provider, wait, expiration),
    }
}

impl GroupWaitView {
    /// The instance names the group that is waited for as its manager.
    pub open spec fn names_group(self) -> bool {
        self.instance.manager_id == Some(self.manager_id)
    }
}

impl ProbeStateView {
    /// What holds of every state that a probe reaches. Where the probe
    /// waits for a group, its instance names that group as its manager;
    /// and where it waits for a member, a member of the pool record is
    /// still to be resolved.
    pub open spec fn wf(self) -> bool {
        match self {
            ProbeStateView::Pool { wait } => wait.names_group(),
            ProbeStateView::Member { wait, pool, resolved } => wait.names_group() && resolved.len()
                < pool.instances.len(),
            ProbeStateView::Sleeping { wait } => wait.names_group(),
            _ => true,
        }
    }
}

/// A probe that runs: the step that is reached from `step` when the
/// requests and delays from there on are answered by `inputs`, one after
/// another, each with the expiration time of its own step. A probe that is
/// done stays as it is.
pub open spec fn probe_run(step: ProbeStepView, inputs: Seq<StepInput>) -> ProbeStepView
    decreases inputs.len(),
{
    if inputs.len() == 0 {
        step
    } else {
        match step {
            ProbeStepView::Fetch(provider, _) => probe_run(
                probe_step(provider, inputs[0].response, inputs[0].expiration),
                inputs.skip(1),
            ),
            ProbeStepView::Sleep(provider, _) => probe_run(
                probe_step(provider, inputs[0].response, inputs[0].expiration),
                inputs.skip(1),
            ),
            ProbeStepView::Done(_) => step,
        }
    }
}

/// One round of the wait for a group: a look, the inputs that make it up,
/// and whatever comes in when the provider wakes after it.
pub struct GroupRound {
    pub look: GroupLook,
    pub inputs: Seq<StepInput>,
    pub woke: StepInput,
}

/// The inputs of a sequence of rounds, one after another.
pub open spec fn round_inputs(rounds: Seq<GroupRound>) -> Seq<StepInput>
    decreases rounds.len(),
{
    if rounds.len() == 0 {
        Seq::empty()
    } else {
        rounds[0].inputs.push(rounds[0].woke) + round_inputs(rounds.skip(1))
    }
}

/// Every round is a look that the provider can take to its end, and after
/// every round the provider can ask for the pool record again.
pub open spec fn rounds_answer(
    provider: ExoscaleCloudProviderView,
    wait: GroupWaitView,
    rounds: Seq<GroupRound>,
) -> bool {
    forall|i: int|
        0 <= i < rounds.len() ==> answers_look(
            provider,
            wait.instance.zone,
            (#[trigger] rounds[i]).look,
            rounds[i].inputs,
        ) && api_request(
            provider,
            wait.instance.zone,
            pool_path(wait.manager_id),
            rounds[i].woke.expiration,
        ) is Ok
}

/// The provider waits for the group: it has asked for the pool record and
/// nothing else is pending.
pub open spec fn asks_for_pool(
    step: ProbeStepView,
    provider: ExoscaleCloudProviderView,
    wait: GroupWaitView,
) -> bool {
    match step {
        ProbeStepView::Fetch(asking, _) => asking == in_state(
            provider,
            ProbeStateView::Pool { wait },
        ),
        _ => false,
    }
}

/// The step that ends a probe with the group of a look.
pub open spec fn group_result(wait: GroupWaitView, look: GroupLook) -> ProbeStepView {
    ProbeStepView::Done(
        Ok(
            ProbeDataView {
                configuration: wait.configuration,
                instance: wait.instance,
                instance_group: Some(resolved_group(wait, look.pool, look.members)),
            },
        ),
    )
}

/// The step that a look leads to: the result where the group is complete,
/// the retry delay where it is not.
pub open spec fn look_end(
    provider: ExoscaleCloudProviderView,
    wait: GroupWaitView,
    look: GroupLook,
) -> ProbeStepView {
    if look.complete() {
        group_result(wait, look)
    } else {
        ProbeStepView::Sleep(
            in_state(provider, ProbeStateView::Sleeping { wait }),
            wait.retry_delay_secs,
        )
    }
}

/// A platform that names itself otherwise is not this platform: the probe
/// ends at once with `NotAvailable`, and the step holds neither a request
/// nor a provider that could make one. This platform's own name takes the
/// probe on to the configuration document.
pub proof fn lemma_platform_check(
    provider: ExoscaleCloudProviderView,
    identifier: Seq<char>,
    expiration: Result<u64, CloudProviderError>,
)
    requires
        provider.state is VerifyPlatform,
    ensures
        identifier != cloud_identifier() ==> probe_step(provider, Ok(identifier), expiration)
            == ProbeStepView::Done(Err(CloudProviderError::NotAvailable)),
        identifier == cloud_identifier() ==> probe_step(provider, Ok(identifier), expiration)
            == metadata_step(provider, "user-data"@, ProbeStateView::LoadConfig),
{
}

/// A probe never hands out a group that lacks members: whenever a step
/// ends the probe with a group, the group has its target size.
pub proof fn lemma_group_is_complete(
    provider: ExoscaleCloudProviderView,
    response: Result<Seq<char>, HttpErrorView>,
    expiration: Result<u64, CloudProviderError>,
)
    ensures
        match probe_step(provider, response, expiration) {
            ProbeStepView::Done(Ok(data)) => match data.instance_group {
                Some(group) => group.complete(),
                None => true,
            },
            _ => true,
        },
{
}

/// The manager of an instance names its group. A step keeps what holds of
/// every state of a probe, from the first state on; and a group that a
/// probe hands out is the one that the instance in the same result names
/// as its manager.
pub proof fn lemma_manager_names_the_group(
    provider: ExoscaleCloudProviderView,
    response: Result<Seq<char>, HttpErrorView>,
    expiration: Result<u64, CloudProviderError>,
)
    requires
        provider.state.wf(),
    ensures
        ProbeStateView::Start.wf(),
        match probe_step(provider, response, expiration) {
            ProbeStepView::Fetch(next, _) => next.state.wf(),
            ProbeStepView::Sleep(next, _) => next.state.wf(),
            ProbeStepView::Done(Ok(data)) => match data.instance_group {
                Some(group) => data.instance.manager_id == Some(group.instance_group_id),
                None => true,
            },
            ProbeStepView::Done(Err(_)) => true,
        },
{
}

/// A group that is resolved and lacks members is no error and no result:
/// the provider waits the retry delay, and when it wakes it asks for the
/// pool record again.
pub proof fn lemma_incomplete_group_waits(
    provider: ExoscaleCloudProviderView,
    wait: GroupWaitView,
    look: GroupLook,
    input: StepInput,
    expiration: Result<u64, CloudProviderError>,
)
    requires
        look.resolved(),
        !look.complete(),
    ensures
        group_step(provider, wait, look.pool, look.members, expiration) == ProbeStepView::Sleep(
            in_state(provider, ProbeStateView::Sleeping { wait }),
            wait.retry_delay_secs,
        ),
        probe_step(
            in_state(provider, ProbeStateView::Sleeping { wait }),
            input.response,
            input.expiration,
        ) == pool_step(
            in_state(provider, ProbeStateView::Sleeping { wait }),
            wait,
            input.expiration,
        ),
{
}

/// Where the provider is in the middle of a look, with the first `known`
/// members resolved, the inputs for the members that are left take it to
/// the end of the look.
proof fn lemma_members_lead_to_the_end(
    provider: ExoscaleCloudProviderView,
    wait: GroupWaitView,
    look: GroupLook,
    known: int,
    request: HttpRequestView,
    inputs: Seq<StepInput>,
)
    requires
        look.resolved(),
        0 <= known < look.members.len(),
        inputs.len() == look.members.len() - known,
        forall|j: int|
            0 <= j < inputs.len() ==> response_instance(
                wait.instance.zone,
                (#[trigger] inputs[j]).response,
            ) == Ok::<CloudInstanceView, CloudProviderError>(look.members[known + j]),
        forall|j: int|
            0 <= j < inputs.len() - 1 ==> api_request(
                provider,
                wait.instance.zone,
                pool_path(look.pool.instances[known + j + 1].id),
                (#[trigger] inputs[j]).expiration,
            ) is Ok,
    ensures
        probe_run(
            ProbeStepView::Fetch(
                in_state(
                    provider,
                    ProbeStateView::Member {
                        wait,
                        pool: look.pool,
                        resolved: look.members.take(known),
                    },
                ),
                request,
            ),
            inputs,
        ) == look_end(provider, wait, look),
    decreases look.members.len() - known,
{
    let state = ProbeStateView::Member { wait, pool: look.pool, resolved: look.members.take(known) };
    let here = in_state(provider, state);
    let more = look.members.take(known + 1);
    assert(response_instance(wait.instance.zone, inputs[0].response) == Ok::<
        CloudInstanceView,
        CloudProviderError,
    >(look.members[known]));
    assert(look.members.take(known).push(look.members[known]) =~= more);
    let next = probe_step(here, inputs[0].response, inputs[0].expiration);
    assert(next == group_step(here, wait, look.pool, more, inputs[0].expiration));
    let rest = inputs.skip(1);
    assert(probe_run(ProbeStepView::Fetch(here, request), inputs) == probe_run(next, rest));
    if known + 1 < look.members.len() {
        assert(api_request(
            provider,
            wait.instance.zone,
            pool_path(look.pool.instances[known + 0 + 1].id),
            inputs[0].expiration,
        ) is Ok);
        let asked = api_request(
            provider,
            wait.instance.zone,
            pool_path(look.pool.instances[known + 1].id),
            inputs[0].expiration,
        )->Ok_0;
        assert(next == ProbeStepView::Fetch(
            in_state(provider, ProbeStateView::Member { wait, pool: look.pool, resolved: more }),
            asked,
        ));
        assert forall|j: int| 0 <= j < rest.len() implies response_instance(
            wait.instance.zone,
            (#[trigger] rest[j]).response,
        ) == Ok::<CloudInstanceView, CloudProviderError>(look.members[known + 1 + j]) by {
            assert(rest[j] == inputs[j + 1]);
        }
        assert forall|j: int| 0 <= j < rest.len() - 1 implies api_request(
            provider,
            wait.instance.zone,
            pool_path(look.pool.instances[known + 1 + j + 1].id),
            (#[trigger] rest[j]).expiration,
        ) is Ok by {
            assert(rest[j] == inputs[j + 1]);
        }
        lemma_members_lead_to_the_end(provider, wait, look, known + 1, asked, rest);
    } else {
        assert(more =~= look.members);
        assert(next == look_end(provider, wait, look));
        assert(probe_run(next, rest) == next);
    }
}

/// One look at the group, step by step: from the request for the pool
/// record, the inputs of a look take the provider through the request for
/// each member to the end of the look, the result for a group that is
/// complete and the retry delay for one that is not.
pub proof fn lemma_look_leads_to_its_end(
    provider: ExoscaleCloudProviderView,
    wait: GroupWaitView,
    look: GroupLook,
    request: HttpRequestView,
    inputs: Seq<StepInput>,
)
    requires
        answers_look(provider, wait.instance.zone, look, inputs),
    ensures
        probe_run(
            ProbeStepView::Fetch(in_state(provider, ProbeStateView::Pool { wait }), request),
            inputs,
        ) == look_end(provider, wait, look),
{
    let here = in_state(provider, ProbeStateView::Pool { wait });
    let none = Seq::<CloudInstanceView>::empty();
    let next = probe_step(here, inputs[0].response, inputs[0].expiration);
    assert(next == group_step(here, wait, look.pool, none, inputs[0].expiration));
    let rest = inputs.skip(1);
    assert(probe_run(ProbeStepView::Fetch(here, request), inputs) == probe_run(next, rest));
    if look.members.len() == 0 {
        assert(look.members =~= none);
        assert(next == look_end(provider, wait, look));
        assert(probe_run(next, rest) == next);
    } else {
        assert(api_request(
            provider,
            wait.instance.zone,
            pool_path(look.pool.instances[0].id),
            inputs[0].expiration,
        ) is Ok);
        let asked = api_request(
            provider,
            wait.instance.zone,
            pool_path(look.pool.instances[0].id),
            inputs[0].expiration,
        )->Ok_0;
        assert(look.members.take(0) =~= none);
        assert(next == ProbeStepView::Fetch(
            in_state(
                provider,
                ProbeStateView::Member { wait, pool: look.pool, resolved: look.members.take(0) },
            ),
            asked,
        ));
        assert forall|j: int| 0 <= j < rest.len() implies response_instance(
            wait.instance.zone,
            (#[trigger] rest[j]).response,
        ) == Ok::<CloudInstanceView, CloudProviderError>(look.members[0 + j]) by {
            assert(rest[j] == inputs[j + 1]);
        }
        assert forall|j: int| 0 <= j < rest.len() - 1 implies api_request(
            provider,
            wait.instance.zone,
            pool_path(look.pool.instances[0 + j + 1].id),
            (#[trigger] rest[j]).expiration,
        ) is Ok by {
            assert(rest[j] == inputs[j + 1]);
            assert(inputs[j + 1].expiration == rest[j].expiration);
        }
        lemma_members_lead_to_the_end(provider, wait, look, 0, asked, rest);
    }
}

/// A probe that is done stays done, whatever comes in.
pub proof fn lemma_done_stays_done(
    result: Result<ProbeDataView, CloudProviderError>,
    inputs: Seq<StepInput>,
)
    ensures
        probe_run(ProbeStepView::Done(result), inputs) == ProbeStepView::Done(result),
{
}

/// Running through two sequences of inputs, one after the other, is
/// running through the first and then through the second.
pub proof fn lemma_run_in_two_parts(
    step: ProbeStepView,
    first: Seq<StepInput>,
    second: Seq<StepInput>,
)
    ensures
        probe_run(step, first + second) == probe_run(probe_run(step, first), second),
    decreases first.len(),
{
    if first.len() == 0 {
        assert(first + second =~= second);
    } else {
        assert((first + second)[0] == first[0]);
        assert((first + second).skip(1) =~= first.skip(1) + second);
        match step {
            ProbeStepView::Fetch(provider, _) => {
                lemma_run_in_two_parts(
                    probe_step(provider, first[0].response, first[0].expiration),
                    first.skip(1),
                    second,
                );
            },
            ProbeStepView::Sleep(provider, _) => {
                lemma_run_in_two_parts(
                    probe_step(provider, first[0].response, first[0].expiration),
                    first.skip(1),
                    second,
                );
            },
            ProbeStepView::Done(result) => {
                lemma_done_stays_done(result, second);
            },
        }
    }
}

/// One round of the wait: from the request for the pool record, a look
/// that is complete ends the probe with its group, and one that is not
/// leaves the provider asking for the pool record again, after one delay
/// of the configured length.
pub proof fn lemma_round(
    provider: ExoscaleCloudProviderView,
    wait: GroupWaitView,
    round: GroupRound,
    request: HttpRequestView,
)
    requires
        answers_look(provider, wait.instance.zone, round.look, round.inputs),
        api_request(
            provider,
            wait.instance.zone,
            pool_path(wait.manager_id),
            round.woke.expiration,
        ) is Ok,
    ensures
        probe_run(
            ProbeStepView::Fetch(in_state(provider, ProbeStateView::Pool { wait }), request),
            round.inputs,
        ) == look_end(provider, wait, round.look),
        round.look.complete() ==> probe_run(
            ProbeStepView::Fetch(in_state(provider, ProbeStateView::Pool { wait }), request),
            round.inputs.push(round.woke),
        ) == group_result(wait, round.look),
        !round.look.complete() ==> probe_run(
            ProbeStepView::Fetch(in_state(provider, ProbeStateView::Pool { wait }), request),
            round.inputs.push(round.woke),
        ) == pool_step(provider, wait, round.woke.expiration) && asks_for_pool(
            pool_step(provider, wait, round.woke.expiration),
            provider,
            wait,
        ),
{
    let start = ProbeStepView::Fetch(in_state(provider, ProbeStateView::Pool { wait }), request);
    let looked = look_end(provider, wait, round.look);
    let last = seq![round.woke];
    lemma_look_leads_to_its_end(provider, wait, round.look, request, round.inputs);
    assert(round.inputs.push(round.woke) =~= round.inputs + last);
    lemma_run_in_two_parts(start, round.inputs, last);
    assert(probe_run(start, round.inputs.push(round.woke)) == probe_run(looked, last));
    if !round.look.complete() {
        let asleep = in_state(provider, ProbeStateView::Sleeping { wait });
        let woken = probe_step(asleep, last[0].response, last[0].expiration);
        assert(last.skip(1).len() == 0);
        assert(probe_run(looked, last) == probe_run(woken, last.skip(1)));
        assert(probe_run(woken, last.skip(1)) == woken);
        assert(woken == pool_step(provider, wait, round.woke.expiration));
    }
}

/// A group that never reaches its size keeps the probe waiting: after any
/// number of rounds in which no look is complete, the provider is asking
/// for the pool record once more. Nothing but a complete group ends the
/// wait: no count of rounds, no deadline.
pub proof fn lemma_incomplete_group_never_ends(
    provider: ExoscaleCloudProviderView,
    wait: GroupWaitView,
    rounds: Seq<GroupRound>,
    request: HttpRequestView,
)
    requires
        rounds_answer(provider, wait, rounds),
        forall|i: int| 0 <= i < rounds.len() ==> !(#[trigger] rounds[i]).look.complete(),
    ensures
        asks_for_pool(
            probe_run(
                ProbeStepView::Fetch(in_state(provider, ProbeStateView::Pool { wait }), request),
                round_inputs(rounds),
            ),
            provider,
            wait,
        ),
    decreases rounds.len(),
{
    let start = ProbeStepView::Fetch(in_state(provider, ProbeStateView::Pool { wait }), request);
    if rounds.len() > 0 {
        let first = rounds[0];
        let rest = rounds.skip(1);
        assert(!first.look.complete());
        lemma_round(provider, wait, first, request);
        lemma_run_in_two_parts(start, first.inputs.push(first.woke), round_inputs(rest));
        assert forall|i: int| 0 <= i < rest.len() implies answers_look(
            provider,
            wait.instance.zone,
            (#[trigger] rest[i]).look,
            rest[i].inputs,
        ) && api_request(
            provider,
            wait.instance.zone,
            pool_path(wait.manager_id),
            rest[i].woke.expiration,
        ) is Ok && !rest[i].look.complete() by {
            assert(rest[i] == rounds[i + 1]);
        }
        let again = pool_step(provider, wait, first.woke.expiration);
        lemma_incomplete_group_never_ends(provider, wait, rest, again->Fetch_1);
    }
}

/// The wait ends with the first complete look: where every round but the
/// last shows an incomplete group and the last a complete one, the probe
/// ends with the group of the last look, which has its target size.
pub proof fn lemma_complete_group_ends_the_wait(
    provider: ExoscaleCloudProviderView,
    wait: GroupWaitView,
    rounds: Seq<GroupRound>,
    request: HttpRequestView,
)
    requires
        rounds.len() > 0,
        rounds_answer(provider, wait, rounds),
        forall|i: int| 0 <= i < rounds.len() - 1 ==> !(#[trigger] rounds[i]).look.complete(),
        rounds.last().look.complete(),
    ensures
        probe_run(
            ProbeStepView::Fetch(in_state(provider, ProbeStateView::Pool { wait }), request),
            round_inputs(rounds),
        ) == group_result(wait, rounds.last().look),
        resolved_group(wait, rounds.last().look.pool, rounds.last().look.members).complete(),
    decreases rounds.len(),
{
    let start = ProbeStepView::Fetch(in_state(provider, ProbeStateView::Pool { wait }), request);
    let first = rounds[0];
    let rest = rounds.skip(1);
    lemma_round(provider, wait, first, request);
    lemma_run_in_two_parts(start, first.inputs.push(first.woke), round_inputs(rest));
    if rounds.len() == 1 {
        assert(first == rounds.last());
        lemma_done_stays_done(
            Ok(
                ProbeDataView {
                    configuration: wait.configuration,
                    instance: wait.instance,
                    instance_group: Some(
                        resolved_group(wait, first.look.pool, first.look.members),
                    ),
                },
            ),
            round_inputs(rest),
        );
    } else {
        assert(!first.look.complete());
        assert(rest.last() == rounds.last());
        assert forall|i: int| 0 <= i < rest.len() implies answers_look(
            provider,
            wait.instance.zone,
            (#[trigger] rest[i]).look,
            rest[i].inputs,
        ) && api_request(
            provider,
            wait.instance.zone,
            pool_path(wait.manager_id),
            rest[i].woke.expiration,
        ) is Ok by {
            assert(rest[i] == rounds[i + 1]);
        }
        assert forall|i: int| 0 <= i < rest.len() - 1 implies !(#[trigger] rest[i]).look.complete() by {
            assert(rest[i] == rounds[i + 1]);
        }
        let again = pool_step(provider, wait, first.woke.expiration);
        lemma_complete_group_ends_the_wait(provider, wait, rest, again->Fetch_1);
    }
}

/// Convergence: where the target size stays the same and every look shows
/// more members than the one before, until the last shows as many as the
/// target size, the probe ends with the last look, after one look and one
/// delay for each round before it, and the group that it hands out has
/// exactly the target size. Every step may have an expiration time of its
/// own.
pub proof fn lemma_growing_group_converges(
    provider: ExoscaleCloudProviderView,
    wait: GroupWaitView,
    rounds: Seq<GroupRound>,
    size: usize,
    request: HttpRequestView,
)
    requires
        rounds.len() > 0,
        rounds_answer(provider, wait, rounds),
        forall|i: int| 0 <= i < rounds.len() ==> (#[trigger] rounds[i]).look.pool.size == size,
        forall|i: int, j: int|
            0 <= i < j < rounds.len() ==> (#[trigger] rounds[i]).look.members.len() < (
            #[trigger] rounds[j]).look.members.len(),
        rounds.last().look.members.len() == size,
    ensures
        probe_run(
            ProbeStepView::Fetch(in_state(provider, ProbeStateView::Pool { wait }), request),
            round_inputs(rounds),
        ) == group_result(wait, rounds.last().look),
        resolved_group(
            wait,
            rounds.last().look.pool,
            rounds.last().look.members,
        ).instances.len() == size,
        resolved_group(wait, rounds.last().look.pool, rounds.last().look.members).size == size,
{
    assert(rounds.last() == rounds[rounds.len() - 1]);
    assert forall|i: int| 0 <= i < rounds.len() - 1 implies !(#[trigger] rounds[i]).look.complete() by {
        assert(rounds[i].look.members.len() < rounds[rounds.len() - 1].look.members.len());
        assert(rounds[i].look.pool.size == size);
    }
    lemma_complete_group_ends_the_wait(provider, wait, rounds, request);
}

} // verus!
