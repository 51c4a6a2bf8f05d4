use crate::http_client::{HttpErrorView, HttpRequest, HttpRequestView};
use crate::provider::error::CloudProviderError;
use crate::provider::exoscale::api::{ExoscaleInstancePool, ExoscaleInstancePoolView};
use crate::provider::exoscale::{
    api_request,
    pool_path,
    response_instance,
    response_pool,
    ExoscaleCloudProviderView,
};
use crate::provider::{
    instance_views,
    CloudInstance,
    CloudInstanceGroup,
    CloudInstanceGroupView,
    CloudInstanceView,
};
use vstd::prelude::*;

verus! {

/// Where the lookup of an instance group stands. A group is looked up in
/// one request for its pool record and one for each member, in the order
/// of the record.
#[derive(Debug)]
pub enum GroupLookup {
    /// Send the request for the next member, the one after those that are
    /// resolved, and come back with its response.
    Ask { request: HttpRequest, pool: ExoscaleInstancePool, resolved: Vec<CloudInstance> },
    /// The lookup is over: with the group, whatever its size, or with the
    /// error of the call that failed.
    Done(Result<CloudInstanceGroup, CloudProviderError>),
}

/// `GroupLookup` with its strings as character sequences.
pub enum GroupLookupView {
    Ask {
        request: HttpRequestView,
        pool: ExoscaleInstancePoolView,
        resolved: Seq<CloudInstanceView>,
    },
    Done(Result<CloudInstanceGroupView, CloudProviderError>),
}

impl View for GroupLookup {
    type V = GroupLookupView;

    open spec fn view(&self) -> GroupLookupView {
        match self {
            GroupLookup::Ask { request, pool, resolved } => GroupLookupView::Ask {
                request: request@,
                pool: pool@,
                resolved: instance_views(resolved@),
            },
            GroupLookup::Done(Ok(group)) => GroupLookupView::Done(Ok(group@)),
            GroupLookup::Done(Err(error)) => GroupLookupView::Done(Err(*error)),
        }
    }
}

/// The group that a pool record and its resolved members make up: the
/// members in the order of the record, and the record's size as it is.
pub open spec fn looked_up_group(
    id: Seq<char>,
    pool: ExoscaleInstancePoolView,
    resolved: Seq<CloudInstanceView>,
) -> CloudInstanceGroupView {
    CloudInstanceGroupView { instance_group_id: id, instances: resolved, size: pool.size }
}

/// The lookup of a group of which `resolved` members are known. While
/// members are left, the next one is asked for, and the lookup fails with
/// the error of a request that cannot be made. Once all are known, the
/// group is the result, whether or not it has its target size.
pub open spec fn group_lookup(
    provider: ExoscaleCloudProviderView,
    id: Seq<char>,
    zone: Seq<char>,
    pool: ExoscaleInstancePoolView,
    resolved: Seq<CloudInstanceView>,
    expiration: Result<u64, CloudProviderError>,
) -> GroupLookupView {
    if resolved.len() < pool.instances.len() {
        match api_request(
            provider,
            zone,
            pool_path(pool.instances[resolved.len() as int].id),
            expiration,
        ) {
            Ok(request) => GroupLookupView::Ask { request, pool, resolved },
            Err(error) => GroupLookupView::Done(Err(error)),
        }
    } else {
        GroupLookupView::Done(Ok(looked_up_group(id, pool, resolved)))
    }
}

/// The lookup after the response to the request for the pool record: it
/// fails with the error of the response, or goes on with the record and no
/// member resolved.
pub open spec fn group_lookup_pool(
    provider: ExoscaleCloudProviderView,
    id: Seq<char>,
    zone: Seq<char>,
    response: Result<Seq<char>, HttpErrorView>,
    expiration: Result<u64, CloudProviderError>,
) -> GroupLookupView {
    match response_pool(response) {
        Ok(pool) => group_lookup(
            provider,
            id,
            zone,
            pool,
            Seq::<CloudInstanceView>::empty(),
            expiration,
        ),
        Err(error) => GroupLookupView::Done(Err(error)),
    }
}

/// The lookup after the response to the request for a member: it fails
/// with the error of the response, and no part of the group comes back;
/// or it goes on with one more member resolved.
pub open spec fn group_lookup_member(
    provider: ExoscaleCloudProviderView,
    id: Seq<char>,
    zone: Seq<char>,
    pool: ExoscaleInstancePoolView,
    resolved: Seq<CloudInstanceView>,
    response: Result<Seq<char>, HttpErrorView>,
    expiration: Result<u64, CloudProviderError>,
) -> GroupLookupView {
    match response_instance(zone, response) {
        Ok(member) => group_lookup(provider, id, zone, pool, resolved.push(member), expiration),
        Err(error) => GroupLookupView::Done(Err(error)),
    }
}

/// What comes in at one step of a lookup or of a probe: the response to
/// the last request, and the time at which the signatures made in this
/// step expire.
pub struct StepInput {
    pub response: Result<Seq<char>, HttpErrorView>,
    pub expiration: Result<u64, CloudProviderError>,
}

/// One look at a group: its pool record and the instances of its members.
pub struct GroupLook {
    pub pool: ExoscaleInstancePoolView,
    pub members: Seq<CloudInstanceView>,
}

impl GroupLook {
    /// Every member of the pool record is resolved.
    pub open spec fn resolved(self) -> bool {
        self.members.len() == self.pool.instances.len()
    }

    /// The group has its target size.
    pub open spec fn complete(self) -> bool {
        self.members.len() == self.pool.size
    }
}

/// The inputs are those of one look at a group in a zone that the provider
/// can take to its end. The first holds the pool record, and each one
/// after it holds the instance of the member in its place. Each member can
/// be asked for at the step at which its turn comes.
pub open spec fn answers_look(
    provider: ExoscaleCloudProviderView,
    zone: Seq<char>,
    look: GroupLook,
    inputs: Seq<StepInput>,
) -> bool {
    &&& look.resolved()
    &&& inputs.len() == look.members.len() + 1
    &&& response_pool(inputs[0].response) == Ok::<ExoscaleInstancePoolView, CloudProviderError>(
        look.pool,
    )
    &&& forall|i: int|
        0 <= i < look.members.len() ==> response_instance(
            zone,
            (#[trigger] inputs[i + 1]).response,
        ) == Ok::<CloudInstanceView, CloudProviderError>(look.members[i])
    &&& forall|i: int|
        0 <= i < look.members.len() ==> api_request(
            provider,
            zone,
            pool_path(look.pool.instances[i].id),
            (#[trigger] inputs[i]).expiration,
        ) is Ok
}

/// A lookup that runs: where it stands after the requests from `step` on
/// were answered by `inputs`, one after another. A lookup that is over
/// stays as it is.
pub open spec fn lookup_run(
    provider: ExoscaleCloudProviderView,
    id: Seq<char>,
    zone: Seq<char>,
    step: GroupLookupView,
    inputs: Seq<StepInput>,
) -> GroupLookupView
    decreases inputs.len(),
{
    if inputs.len() == 0 {
        step
    } else {
        match step {
            GroupLookupView::Ask { pool, resolved, .. } => lookup_run(
                provider,
                id,
                zone,
                group_lookup_member(
                    provider,
                    id,
                    zone,
                    pool,
                    resolved,
                    inputs[0].response,
                    inputs[0].expiration,
                ),
                inputs.skip(1),
            ),
            GroupLookupView::Done(_) => step,
        }
    }
}

/// The first of the inputs answers the request for the pool record, and
/// the others the requests for the members that follow from it.
pub open spec fn lookup_from_pool(
    provider: ExoscaleCloudProviderView,
    id: Seq<char>,
    zone: Seq<char>,
    inputs: Seq<StepInput>,
) -> GroupLookupView
    recommends
        inputs.len() > 0,
{
    lookup_run(
        provider,
        id,
        zone,
        group_lookup_pool(provider, id, zone, inputs[0].response, inputs[0].expiration),
        inputs.skip(1),
    )
}

/// From the middle of a look, with the first `known` members resolved and
/// the next one asked for, the inputs for the members that are left take
/// the lookup to the group of the look.
proof fn lemma_members_give_the_group(
    provider: ExoscaleCloudProviderView,
    id: Seq<char>,
    zone: Seq<char>,
    look: GroupLook,
    known: int,
    request: HttpRequestView,
    inputs: Seq<StepInput>,
)
    requires
        look.resolved(),
        0 <= known < look.members.len(),
        inputs.len() == look.members.len() - known,
        forall|j: int|
            0 <= j < inputs.len() ==> response_instance(zone, (#[trigger] inputs[j]).response)
                == Ok::<CloudInstanceView, CloudProviderError>(look.members[known + j]),
        forall|j: int|
            0 <= j < inputs.len() - 1 ==> api_request(
                provider,
                zone,
                pool_path(look.pool.instances[known + j + 1].id),
                (#[trigger] inputs[j]).expiration,
            ) is Ok,
    ensures
        lookup_run(
            provider,
            id,
            zone,
            GroupLookupView::Ask {
                request,
                pool: look.pool,
                resolved: look.members.take(known),
            },
            inputs,
        ) == GroupLookupView::Done(Ok(looked_up_group(id, look.pool, look.members))),
    decreases look.members.len() - known,
{
    let here = GroupLookupView::Ask { request, pool: look.pool, resolved: look.members.take(known) };
    let more = look.members.take(known + 1);
    assert(response_instance(zone, inputs[0].response) == Ok::<
        CloudInstanceView,
        CloudProviderError,
    >(look.members[known]));
    assert(look.members.take(known).push(look.members[known]) =~= more);
    let next = group_lookup_member(
        provider,
        id,
        zone,
        look.pool,
        look.members.take(known),
        inputs[0].response,
        inputs[0].expiration,
    );
    assert(next == group_lookup(provider, id, zone, look.pool, more, inputs[0].expiration));
    let rest = inputs.skip(1);
    assert(lookup_run(provider, id, zone, here, inputs) == lookup_run(
        provider,
        id,
        zone,
        next,
        rest,
    ));
    if known + 1 < look.members.len() {
        assert(api_request(
            provider,
            zone,
            pool_path(look.pool.instances[known + 0 + 1].id),
            inputs[0].expiration,
        ) is Ok);
        let asked = api_request(
            provider,
            zone,
            pool_path(look.pool.instances[known + 1].id),
            inputs[0].expiration,
        )->Ok_0;
        assert(next == GroupLookupView::Ask { request: asked, pool: look.pool, resolved: more });
        assert forall|j: int| 0 <= j < rest.len() implies response_instance(
            zone,
            (#[trigger] rest[j]).response,
        ) == Ok::<CloudInstanceView, CloudProviderError>(look.members[known + 1 + j]) by {
            assert(rest[j] == inputs[j + 1]);
        }
        assert forall|j: int| 0 <= j < rest.len() - 1 implies api_request(
            provider,
            zone,
            pool_path(look.pool.instances[known + 1 + j + 1].id),
            (#[trigger] rest[j]).expiration,
        ) is Ok by {
            assert(rest[j] == inputs[j + 1]);
        }
        lemma_members_give_the_group(provider, id, zone, look, known + 1, asked, rest);
    } else {
        assert(more =~= look.members);
        assert(lookup_run(provider, id, zone, next, rest) == next);
    }
}

/// The lookup of a group gives the group as the platform describes it:
/// where the pool record and every member come back, the result holds the
/// members in the order of the record, none dropped and none twice, and
/// the record's size as it is, whether or not that is the number of
/// members. One request was answered for the record and one for each
/// member.
pub proof fn lemma_lookup_gives_the_group(
    provider: ExoscaleCloudProviderView,
    id: Seq<char>,
    zone: Seq<char>,
    look: GroupLook,
    inputs: Seq<StepInput>,
)
    requires
        answers_look(provider, zone, look, inputs),
    ensures
        lookup_from_pool(provider, id, zone, inputs) == GroupLookupView::Done(
            Ok(looked_up_group(id, look.pool, look.members)),
        ),
        looked_up_group(id, look.pool, look.members).instances == look.members,
        looked_up_group(id, look.pool, look.members).size == look.pool.size,
{
    let none = Seq::<CloudInstanceView>::empty();
    let first = group_lookup_pool(provider, id, zone, inputs[0].response, inputs[0].expiration);
    let rest = inputs.skip(1);
    assert(first == group_lookup(provider, id, zone, look.pool, none, inputs[0].expiration));
    if look.members.len() == 0 {
        assert(look.members =~= none);
        assert(lookup_run(provider, id, zone, first, rest) == first);
    } else {
        assert(api_request(
            provider,
            zone,
            pool_path(look.pool.instances[0].id),
            inputs[0].expiration,
        ) is Ok);
        let asked = api_request(
            provider,
            zone,
            pool_path(look.pool.instances[0].id),
            inputs[0].expiration,
        )->Ok_0;
        assert(look.members.take(0) =~= none);
        assert(first == GroupLookupView::Ask {
            request: asked,
            pool: look.pool,
            resolved: look.members.take(0),
        });
        assert forall|j: int| 0 <= j < rest.len() implies response_instance(
            zone,
            (#[trigger] rest[j]).response,
        ) == Ok::<CloudInstanceView, CloudProviderError>(look.members[0 + j]) by {
            assert(rest[j] == inputs[j + 1]);
        }
        assert forall|j: int| 0 <= j < rest.len() - 1 implies api_request(
            provider,
            zone,
            pool_path(look.pool.instances[0 + j + 1].id),
            (#[trigger] rest[j]).expiration,
        ) is Ok by {
            assert(rest[j] == inputs[j + 1]);
            assert(inputs[j + 1].expiration == rest[j].expiration);
        }
        lemma_members_give_the_group(provider, id, zone, look, 0, asked, rest);
    }
}

/// A lookup that is over stays over, whatever comes in.
pub proof fn lemma_lookup_stays_over(
    provider: ExoscaleCloudProviderView,
    id: Seq<char>,
    zone: Seq<char>,
    result: Result<CloudInstanceGroupView, CloudProviderError>,
    inputs: Seq<StepInput>,
)
    ensures
        lookup_run(provider, id, zone, GroupLookupView::Done(result), inputs)
            == GroupLookupView::Done(result),
{
}

/// A member that cannot be had fails the lookup with its own error: where
/// the members before it came back and its response holds the error
/// `error`, the lookup ends with `error` at that response, no part of the
/// group comes back, and nothing is asked after it.
pub proof fn lemma_member_failure_fails_the_lookup(
    provider: ExoscaleCloudProviderView,
    id: Seq<char>,
    zone: Seq<char>,
    pool: ExoscaleInstancePoolView,
    resolved: Seq<CloudInstanceView>,
    request: HttpRequestView,
    inputs: Seq<StepInput>,
    failing: int,
    error: CloudProviderError,
)
    requires
        0 <= failing < inputs.len(),
        resolved.len() + failing < pool.instances.len(),
        forall|j: int|
            0 <= j < failing ==> response_instance(zone, (#[trigger] inputs[j]).response) is Ok,
        forall|j: int|
            0 <= j < failing ==> api_request(
                provider,
                zone,
                pool_path(pool.instances[resolved.len() as int + j + 1].id),
                (#[trigger] inputs[j]).expiration,
            ) is Ok,
        response_instance(zone, inputs[failing].response) == Err::<
            CloudInstanceView,
            CloudProviderError,
        >(error),
    ensures
        lookup_run(
            provider,
            id,
            zone,
            GroupLookupView::Ask { request, pool, resolved },
            inputs.take(failing + 1),
        ) == GroupLookupView::Done(Err(error)),
        lookup_run(provider, id, zone, GroupLookupView::Ask { request, pool, resolved }, inputs)
            == GroupLookupView::Done(Err(error)),
    decreases failing,
{
    let here = GroupLookupView::Ask { request, pool, resolved };
    let short = inputs.take(failing + 1);
    let next = group_lookup_member(
        provider,
        id,
        zone,
        pool,
        resolved,
        inputs[0].response,
        inputs[0].expiration,
    );
    assert(short[0] == inputs[0]);
    assert(lookup_run(provider, id, zone, here, inputs) == lookup_run(
        provider,
        id,
        zone,
        next,
        inputs.skip(1),
    ));
    assert(lookup_run(provider, id, zone, here, short) == lookup_run(
        provider,
        id,
        zone,
        next,
        short.skip(1),
    ));
    if failing == 0 {
        assert(next == GroupLookupView::Done(Err(error)));
        lemma_lookup_stays_over(provider, id, zone, Err(error), inputs.skip(1));
        lemma_lookup_stays_over(provider, id, zone, Err(error), short.skip(1));
    } else {
        assert(response_instance(zone, inputs[0].response) is Ok);
        let member = response_instance(zone, inputs[0].response)->Ok_0;
        let more = resolved.push(member);
        assert(api_request(
            provider,
            zone,
            pool_path(pool.instances[resolved.len() as int + 0 + 1].id),
            inputs[0].expiration,
        ) is Ok);
        let asked = api_request(
            provider,
            zone,
            pool_path(pool.instances[more.len() as int].id),
            inputs[0].expiration,
        )->Ok_0;
        assert(next == GroupLookupView::Ask { request: asked, pool, resolved: more });
        let rest = inputs.skip(1);
        assert forall|j: int| 0 <= j < failing - 1 implies response_instance(
            zone,
            (#[trigger] rest[j]).response,
        ) is Ok by {
            assert(rest[j] == inputs[j + 1]);
        }
        assert forall|j: int| 0 <= j < failing - 1 implies api_request(
            provider,
            zone,
            pool_path(pool.instances[more.len() as int + j + 1].id),
            (#[trigger] rest[j]).expiration,
        ) is Ok by {
            assert(rest[j] == inputs[j + 1]);
            assert(more.len() + j + 1 == resolved.len() + (j + 1) + 1);
        }
        assert(rest[failing - 1] == inputs[failing]);
        assert(rest.take(failing) =~= short.skip(1));
        lemma_member_failure_fails_the_lookup(
            provider,
            id,
            zone,
            pool,
            more,
            asked,
            rest,
            failing - 1,
            error,
        );
    }
}

} // verus!
