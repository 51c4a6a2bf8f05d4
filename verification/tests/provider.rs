use cloud_init::host::{cloud_init, HostAction};
use cloud_init::http_client::{HttpError, HttpOutcome, HttpRequest};
use cloud_init::provider::error::CloudProviderError;
use cloud_init::provider::exoscale::api::sign_request;
use cloud_init::provider::exoscale::group::GroupLookup;
use cloud_init::provider::exoscale::{
    ExoscaleAPICredentials, ExoscaleCloudProvider, ExoscaleInstancePool,
};
use cloud_init::provider::{
    CloudInstance, CloudInstanceGroup, CloudProvider, ProbeData, ProbeEvent, ProbeStep,
};

const NOW: u64 = 1700000000;

const USER_DATA: &str = "[host.user.alice.ssh]\nauthorized_keys = [\"ssh-ed25519 AAAA alice\"]\n";

const USER_DATA_WITH_PROVIDER: &str = "[provider.exoscale]\napi_key = \"EXOkey\"\napi_secret = \"s3cr3t\"\napi_timeout_secs = 9\napi_retry_delay_secs = 7\n";

fn ok(body: &str) -> ProbeEvent {
    ProbeEvent::Reply(HttpOutcome::Answered {
        status: 200,
        body: body.as_bytes().to_vec(),
    })
}

fn fetch(step: ProbeStep<ExoscaleCloudProvider>) -> (ExoscaleCloudProvider, HttpRequest) {
    match step {
        ProbeStep::Fetch(provider, request) => (provider, request),
        other => panic!("expected a request, got {:?}", other),
    }
}

fn sleep(step: ProbeStep<ExoscaleCloudProvider>) -> (ExoscaleCloudProvider, u64) {
    match step {
        ProbeStep::Sleep(provider, seconds) => (provider, seconds),
        other => panic!("expected a delay, got {:?}", other),
    }
}

fn done(step: ProbeStep<ExoscaleCloudProvider>) -> Result<ProbeData, CloudProviderError> {
    match step {
        ProbeStep::Done(result) => result,
        other => panic!("expected the end, got {:?}", other),
    }
}

fn metadata(path: &str) -> HttpRequest {
    HttpRequest {
        uri: format!("http://169.254.169.254/latest/{}", path),
        headers: vec![],
        timeout_secs: 5,
    }
}

fn api(zone: &str, id: &str, timeout_secs: u64) -> HttpRequest {
    let path = format!("/v2/instance-pool/{}", id);
    let signature = sign_request(
        ExoscaleAPICredentials {
            api_key: "EXOkey".to_string(),
            api_secret: "s3cr3t".to_string(),
        },
        "GET",
        path.clone(),
        None,
        None,
        NOW,
    )
    .unwrap();
    HttpRequest {
        uri: format!("https://api-{}.exoscale.com{}", zone, path),
        headers: vec![("authorization".to_string(), signature)],
        timeout_secs,
    }
}

fn basic() -> CloudInstance {
    CloudInstance {
        instance_id: "i-123".to_string(),
        manager_id: None,
        hostname: "node-1".to_string(),
        zone: "ch-gva-2".to_string(),
        ipv4_address: None,
        ipv6_address: None,
    }
}

fn through_metadata(user_data: &str) -> ProbeStep<ExoscaleCloudProvider> {
    let (provider, request) = fetch(ExoscaleCloudProvider::new().probe_at(ProbeEvent::Begin, Ok(NOW)));
    assert_eq!(request, metadata("meta-data/cloud-identifier"));
    let (provider, request) = fetch(provider.probe_at(ok("Exoscale Compute Platform"), Ok(NOW)));
    assert_eq!(request, metadata("user-data"));
    let (provider, request) = fetch(provider.probe_at(ok(user_data), Ok(NOW)));
    assert_eq!(request, metadata("meta-data/instance-id"));
    let (provider, request) = fetch(provider.probe_at(ok("i-123"), Ok(NOW)));
    assert_eq!(request, metadata("meta-data/local-hostname"));
    let (provider, request) = fetch(provider.probe_at(ok("node-1"), Ok(NOW)));
    assert_eq!(request, metadata("meta-data/availability-zone"));
    provider.probe_at(ok("ch-gva-2"), Ok(NOW))
}

fn through_instance(manager: &str) -> ProbeStep<ExoscaleCloudProvider> {
    let (provider, request) = fetch(through_metadata(USER_DATA_WITH_PROVIDER));
    assert_eq!(request, api("ch-gva-2", "i-123", 9));
    let record = format!(
        "{{\"id\":\"i-123-api\",\"name\":\"node-1.example\",{}\"public-ip\":\"192.0.2.7\",\"ipv6-address\":null,\"state\":\"running\"}}",
        manager
    );
    provider.probe_at(ok(&record), Ok(NOW))
}

fn enriched(manager_id: Option<&str>) -> CloudInstance {
    CloudInstance {
        instance_id: "i-123".to_string(),
        manager_id: manager_id.map(|id| id.to_string()),
        hostname: "node-1".to_string(),
        zone: "ch-gva-2".to_string(),
        ipv4_address: Some("192.0.2.7".to_string()),
        ipv6_address: None,
    }
}

fn pool_record(size: usize, members: usize) -> String {
    let records: Vec<String> = (0..members)
        .map(|i| format!("{{\"id\":\"m-{}\",\"name\":\"member-{}\"}}", i, i))
        .collect();
    format!("{{\"size\":{},\"instances\":[{}]}}", size, records.join(","))
}

fn member(i: usize) -> CloudInstance {
    CloudInstance {
        instance_id: format!("m-{}", i),
        manager_id: Some("pool-1".to_string()),
        hostname: format!("member-{}", i),
        zone: "ch-gva-2".to_string(),
        ipv4_address: None,
        ipv6_address: Some("2001:db8::1".to_string()),
    }
}

fn member_record(i: usize) -> String {
    format!(
        "{{\"id\":\"m-{}\",\"name\":\"member-{}\",\"manager\":{{\"type\":\"instance-pool\",\"id\":\"pool-1\"}},\"ipv6-address\":\"2001:db8::1\"}}",
        i, i
    )
}

/// Answers one look at the pool: the pool record, then each member.
fn look(
    provider: ExoscaleCloudProvider,
    size: usize,
    members: usize,
) -> ProbeStep<ExoscaleCloudProvider> {
    let mut step = provider.probe_at(ok(&pool_record(size, members)), Ok(NOW));
    for i in 0..members {
        let (provider, request) = fetch(step);
        assert_eq!(request, api("ch-gva-2", &format!("m-{}", i), 9));
        step = provider.probe_at(ok(&member_record(i)), Ok(NOW));
    }
    step
}

#[test]
fn probe_without_provider_section_ends_with_the_basic_instance() {
    let data = done(through_metadata(USER_DATA)).unwrap();
    assert_eq!(data.instance, basic());
    assert_eq!(data.instance_group, None);
    assert!(data.configuration.provider.exoscale.is_none());
    assert_eq!(data.configuration.host.user.len(), 1);
    assert_eq!(data.configuration.host.user[0].0, "alice");
    assert_eq!(
        cloud_init(&data.configuration, &data.instance),
        vec![
            HostAction::SetHostname("node-1".to_string()),
            HostAction::EnsureDirectory("/var/lib/ssh".to_string()),
            HostAction::EnsureSshHostKey {
                algorithm: "ed25519".to_string(),
                path: "/var/lib/ssh/ssh_host_ed25519_key".to_string(),
            },
            HostAction::EnsureDirectory("/home/alice/.ssh".to_string()),
            HostAction::EnsureFile {
                path: "/home/alice/.ssh/authorized_keys".to_string(),
                content: "ssh-ed25519 AAAA alice".to_string(),
            },
        ]
    );
}

#[test]
fn another_platform_is_not_available() {
    for identifier in ["", "Some Other Cloud", "exoscale compute platform", "Exoscale Compute Platform\n"] {
        let (provider, _) = fetch(ExoscaleCloudProvider::new().probe_at(ProbeEvent::Begin, Ok(NOW)));
        let step = provider.probe_at(ok(identifier), Ok(NOW));
        assert!(matches!(step, ProbeStep::Done(Err(CloudProviderError::NotAvailable))));
    }
}

#[test]
fn failing_metadata_call_is_fatal_at_every_step() {
    let failures = || {
        vec![
            ProbeEvent::Reply(HttpOutcome::TimedOut),
            ProbeEvent::Reply(HttpOutcome::Failed),
            ProbeEvent::Reply(HttpOutcome::TlsFailed),
            ProbeEvent::Reply(HttpOutcome::Answered { status: 404, body: b"no".to_vec() }),
            ProbeEvent::Reply(HttpOutcome::Answered { status: 503, body: b"no".to_vec() }),
            ProbeEvent::Reply(HttpOutcome::Answered { status: 200, body: vec![0xff] }),
            ProbeEvent::Woke,
            ProbeEvent::Begin,
        ]
    };
    let answers = ["Exoscale Compute Platform", USER_DATA, "i-123", "node-1", "ch-gva-2"];
    for failing in 0..answers.len() {
        for failure in failures() {
            let (mut provider, _) =
                fetch(ExoscaleCloudProvider::new().probe_at(ProbeEvent::Begin, Ok(NOW)));
            for answer in &answers[..failing] {
                provider = fetch(provider.probe_at(ok(answer), Ok(NOW))).0;
            }
            assert_eq!(
                done(provider.probe_at(failure, Ok(NOW))).unwrap_err(),
                CloudProviderError::ResourceUnreachable
            );
        }
    }
}

#[test]
fn unreadable_configuration_is_fatal() {
    for user_data in ["not a document", "[provider.exoscale]\napi_key = \"k\"\n", "host = 1\n"] {
        let (provider, _) = fetch(ExoscaleCloudProvider::new().probe_at(ProbeEvent::Begin, Ok(NOW)));
        let (provider, _) = fetch(provider.probe_at(ok("Exoscale Compute Platform"), Ok(NOW)));
        assert_eq!(
            done(provider.probe_at(ok(user_data), Ok(NOW))).unwrap_err(),
            CloudProviderError::ConfigurationError
        );
    }
}

#[test]
fn instance_without_manager_ends_the_probe_enriched() {
    let data = done(through_instance("")).unwrap();
    assert_eq!(data.instance, enriched(None));
    assert_eq!(data.instance_group, None);
    let data = done(through_instance("\"manager\":null,")).unwrap();
    assert_eq!(data.instance, enriched(None));
}

#[test]
fn failing_instance_call_falls_back_to_the_basic_instance() {
    let failures = vec![
        ProbeEvent::Reply(HttpOutcome::TimedOut),
        ProbeEvent::Reply(HttpOutcome::Answered { status: 403, body: b"denied".to_vec() }),
        ok("not json"),
        ok("{\"name\":\"no id\"}"),
        ok("{\"id\":\"i\",\"name\":\"n\",\"manager\":{\"id\":\"no type\"}}"),
        ok("{\"id\":\"i\",\"name\":\"n\",\"public-ip\":5}"),
        ok("[]"),
    ];
    for failure in failures {
        let (provider, _) = fetch(through_metadata(USER_DATA_WITH_PROVIDER));
        let data = done(provider.probe_at(failure, Ok(NOW))).unwrap();
        assert_eq!(data.instance, basic());
        assert_eq!(data.instance_group, None);
        assert!(data.configuration.provider.exoscale.is_some());
    }
}

#[test]
fn missing_clock_falls_back_to_the_basic_instance() {
    let (provider, _) = fetch(ExoscaleCloudProvider::new().probe_at(ProbeEvent::Begin, Ok(NOW)));
    let (provider, _) = fetch(provider.probe_at(ok("Exoscale Compute Platform"), Ok(NOW)));
    let (provider, _) = fetch(provider.probe_at(ok(USER_DATA_WITH_PROVIDER), Ok(NOW)));
    let (provider, _) = fetch(provider.probe_at(ok("i-123"), Ok(NOW)));
    let (provider, _) = fetch(provider.probe_at(ok("node-1"), Ok(NOW)));
    let data = done(provider.probe_at(
        ok("ch-gva-2"),
        Err(CloudProviderError::AuthenticationError),
    ))
    .unwrap();
    assert_eq!(data.instance, basic());
    assert_eq!(data.instance_group, None);
}

#[test]
fn credentials_that_cannot_stand_in_a_header_fall_back_to_the_basic_instance() {
    let user_data = "[provider.exoscale]\napi_key = \"EXO\\nkey\"\napi_secret = \"s\"\n";
    let data = done(through_metadata(user_data)).unwrap();
    assert_eq!(data.instance, basic());
    assert_eq!(data.instance_group, None);
}

#[test]
fn complete_group_ends_the_probe_at_the_first_look() {
    let (provider, request) = fetch(through_instance(
        "\"manager\":{\"type\":\"instance-pool\",\"id\":\"pool-1\"},",
    ));
    assert_eq!(request, api("ch-gva-2", "pool-1", 9));
    let data = done(look(provider, 2, 2)).unwrap();
    assert_eq!(data.instance, enriched(Some("pool-1")));
    assert_eq!(
        data.instance_group,
        Some(CloudInstanceGroup {
            instance_group_id: "pool-1".to_string(),
            instances: vec![member(0), member(1)],
            size: 2,
        })
    );
}

#[test]
fn empty_group_of_size_zero_is_complete() {
    let (provider, _) = fetch(through_instance(
        "\"manager\":{\"type\":\"instance-pool\",\"id\":\"pool-1\"},",
    ));
    let data = done(look(provider, 0, 0)).unwrap();
    assert_eq!(
        data.instance_group,
        Some(CloudInstanceGroup {
            instance_group_id: "pool-1".to_string(),
            instances: vec![],
            size: 0,
        })
    );
}

#[test]
fn growing_group_converges_when_it_reaches_its_size() {
    let (mut provider, _) = fetch(through_instance(
        "\"manager\":{\"type\":\"instance-pool\",\"id\":\"pool-1\"},",
    ));
    let mut looks = 0;
    let mut delays = Vec::new();
    let data = loop {
        looks += 1;
        assert!(looks <= 10, "the wait did not end");
        match look(provider, 4, looks) {
            ProbeStep::Sleep(waiting, seconds) => {
                delays.push(seconds);
                let (next, request) = fetch(waiting.probe_at(ProbeEvent::Woke, Ok(NOW)));
                assert_eq!(request, api("ch-gva-2", "pool-1", 9));
                provider = next;
            }
            step => break done(step).unwrap(),
        }
    };
    assert_eq!(looks, 4);
    assert_eq!(delays, vec![7, 7, 7]);
    let group = data.instance_group.unwrap();
    assert_eq!(group.size, 4);
    assert_eq!(group.instances.len(), group.size);
    assert_eq!(group.instances, vec![member(0), member(1), member(2), member(3)]);
}

#[test]
fn group_that_never_reaches_its_size_keeps_the_probe_waiting() {
    let (mut provider, _) = fetch(through_instance(
        "\"manager\":{\"type\":\"instance-pool\",\"id\":\"pool-1\"},",
    ));
    for round in 0..25 {
        let members = if round % 2 == 0 { 2 } else { 4 };
        let (waiting, seconds) = sleep(look(provider, 3, members));
        assert_eq!(seconds, 7);
        provider = fetch(waiting.probe_at(ProbeEvent::Woke, Ok(NOW))).0;
    }
}

#[test]
fn failing_pool_call_falls_back_without_another_try() {
    let failures = vec![
        ProbeEvent::Reply(HttpOutcome::TimedOut),
        ProbeEvent::Reply(HttpOutcome::Answered { status: 500, body: b"oops".to_vec() }),
        ok("{\"instances\":[]}"),
        ok("{\"size\":-1,\"instances\":[]}"),
        ok("{\"size\":1.5,\"instances\":[]}"),
        ok("{\"size\":1}"),
        ok("{\"size\":1,\"instances\":[{\"id\":\"m\"}]}"),
        ok("{\"size\":1,\"instances\":{}}"),
    ];
    for failure in failures {
        let (provider, _) = fetch(through_instance(
            "\"manager\":{\"type\":\"instance-pool\",\"id\":\"pool-1\"},",
        ));
        let data = done(provider.probe_at(failure, Ok(NOW))).unwrap();
        assert_eq!(data.instance, basic());
        assert_eq!(data.instance_group, None);
    }
}

#[test]
fn failing_member_call_falls_back_to_the_basic_instance() {
    let (provider, _) = fetch(through_instance(
        "\"manager\":{\"type\":\"instance-pool\",\"id\":\"pool-1\"},",
    ));
    let (provider, _) = fetch(provider.probe_at(ok(&pool_record(2, 2)), Ok(NOW)));
    let (provider, _) = fetch(provider.probe_at(ok(&member_record(0)), Ok(NOW)));
    let data = done(provider.probe_at(ProbeEvent::Reply(HttpOutcome::Failed), Ok(NOW))).unwrap();
    assert_eq!(data.instance, basic());
    assert_eq!(data.instance_group, None);
}

#[test]
fn probe_from_the_clock_begins_with_the_cloud_identifier() {
    let (_, request) = fetch(ExoscaleCloudProvider::new().probe(ProbeEvent::Begin));
    assert_eq!(request, metadata("meta-data/cloud-identifier"));
}

#[test]
fn metadata_requests_name_their_items() {
    let provider = ExoscaleCloudProvider::new();
    assert_eq!(provider.get_metadata_userdata(), Ok(metadata("user-data")));
    assert_eq!(
        provider.get_metadata_cloud_identifier(),
        Ok(metadata("meta-data/cloud-identifier"))
    );
    assert_eq!(provider.get_metadata_zone(), Ok(metadata("meta-data/availability-zone")));
    assert_eq!(provider.get_metadata_instance_id(), Ok(metadata("meta-data/instance-id")));
    assert_eq!(provider.get_metadata_hostname(), Ok(metadata("meta-data/local-hostname")));
    assert_eq!(provider.metadata_get("x/y"), Ok(metadata("x/y")));
    assert_eq!(
        provider.metadata_get("not a path"),
        Err(CloudProviderError::ResourceUnreachable)
    );
}

#[test]
fn api_requests_need_credentials() {
    let mut provider = ExoscaleCloudProvider::new();
    assert_eq!(
        provider.api_get_until("ch-gva-2", "instance-pool/pool-1", Ok(NOW)),
        Err(CloudProviderError::AuthenticationError)
    );
    assert_eq!(
        provider.get_instance("i-123", "ch-gva-2"),
        Err(CloudProviderError::AuthenticationError)
    );
    assert_eq!(
        provider.get_instance_group("pool-1", "ch-gva-2"),
        Err(CloudProviderError::AuthenticationError)
    );
    provider.set_api_credentials(ExoscaleAPICredentials {
        api_key: "EXOkey".to_string(),
        api_secret: "s3cr3t".to_string(),
    });
    assert_eq!(
        provider.api_get_until("ch-gva-2", "instance-pool/pool-1", Ok(NOW)),
        Ok(api("ch-gva-2", "pool-1", 5))
    );
    provider.set_api_timeout(11);
    assert_eq!(
        provider.api_get_until("de-fra-1", "instance-pool/pool-1", Ok(NOW)),
        Ok(api("de-fra-1", "pool-1", 11))
    );
    assert_eq!(
        provider.api_get_until(
            "ch-gva-2",
            "instance-pool/pool-1",
            Err(CloudProviderError::AuthenticationError)
        ),
        Err(CloudProviderError::AuthenticationError)
    );
    assert_eq!(
        provider.api_get_until("not a zone", "instance-pool/pool-1", Ok(NOW)),
        Err(CloudProviderError::ResourceUnreachable)
    );
    let request = provider.api_get("ch-gva-2", "instance-pool/pool-1").unwrap();
    assert_eq!(request.uri, "https://api-ch-gva-2.exoscale.com/v2/instance-pool/pool-1");
    assert_eq!(request.headers.len(), 1);
    assert_eq!(request.headers[0].0, "authorization");
    assert!(request.headers[0].1.starts_with("EXO2-HMAC-SHA256 credential=EXOkey,expires="));
}

#[test]
fn instance_is_read_from_its_record() {
    let response = Ok(
        "{\"id\":\"i-1\",\"name\":\"n-1\",\"manager\":{\"type\":\"instance-pool\",\"id\":\"p-1\"},\"public-ip\":\"192.0.2.1\",\"ipv6-address\":\"2001:db8::2\"}"
            .to_string(),
    );
    assert_eq!(
        ExoscaleCloudProvider::instance_from_response("ch-dk-2", response),
        Ok(CloudInstance {
            instance_id: "i-1".to_string(),
            manager_id: Some("p-1".to_string()),
            hostname: "n-1".to_string(),
            zone: "ch-dk-2".to_string(),
            ipv4_address: Some("192.0.2.1".to_string()),
            ipv6_address: Some("2001:db8::2".to_string()),
        })
    );
}

#[test]
fn responses_fail_with_the_error_of_their_kind() {
    assert_eq!(
        ExoscaleCloudProvider::instance_from_response("z", Err(HttpError::Timeout)),
        Err(CloudProviderError::ResourceUnreachable)
    );
    assert_eq!(
        ExoscaleCloudProvider::instance_from_response("z", Ok("{".to_string())),
        Err(CloudProviderError::NotAvailable)
    );
    assert_eq!(
        ExoscaleCloudProvider::instance_from_response("z", Ok("{\"id\":1,\"name\":\"n\"}".to_string())),
        Err(CloudProviderError::NotAvailable)
    );
    assert!(matches!(
        ExoscaleCloudProvider::pool_from_response(Err(HttpError::ServerError("x".to_string()))),
        Err(CloudProviderError::ResourceUnreachable)
    ));
    assert!(matches!(
        ExoscaleCloudProvider::pool_from_response(Ok("null".to_string())),
        Err(CloudProviderError::NotAvailable)
    ));
    assert!(matches!(
        ExoscaleCloudProvider::decode_response(Ok("nul".to_string())),
        Err(CloudProviderError::NotAvailable)
    ));
}

#[test]
fn pool_is_read_from_its_record() {
    let pool = ExoscaleCloudProvider::pool_from_response(Ok(pool_record(5, 2))).unwrap();
    assert_eq!(pool.size, 5);
    assert_eq!(pool.instances.len(), 2);
    assert_eq!(pool.instances[0].id, "m-0");
    assert_eq!(pool.instances[1].name, "member-1");
    assert!(pool.instances[1].manager.is_none());
    let pool = ExoscaleCloudProvider::pool_from_response(Ok(
        "{\"size\":18446744073709551615,\"instances\":[]}".to_string(),
    ))
    .unwrap();
    assert_eq!(pool.size, usize::MAX);
}

fn signing() -> ExoscaleCloudProvider {
    let mut provider = ExoscaleCloudProvider::new();
    provider.set_api_credentials(ExoscaleAPICredentials {
        api_key: "EXOkey".to_string(),
        api_secret: "s3cr3t".to_string(),
    });
    provider.set_api_timeout(9);
    provider
}

fn ask(step: GroupLookup) -> (HttpRequest, ExoscaleInstancePool, Vec<CloudInstance>) {
    match step {
        GroupLookup::Ask { request, pool, resolved } => (request, pool, resolved),
        other => panic!("expected a request, got {:?}", other),
    }
}

fn over(step: GroupLookup) -> Result<CloudInstanceGroup, CloudProviderError> {
    match step {
        GroupLookup::Done(result) => result,
        other => panic!("expected the end, got {:?}", other),
    }
}

/// Looks a group up, with `answer` standing for the platform, and counts
/// the requests.
fn look_up(
    provider: &ExoscaleCloudProvider,
    pool: &str,
    answer: impl Fn(usize) -> Result<String, HttpError>,
) -> (Result<CloudInstanceGroup, CloudProviderError>, usize) {
    assert_eq!(provider.get_instance_group("pool-1", "ch-gva-2").unwrap().uri, api("ch-gva-2", "pool-1", 9).uri);
    let mut requests = 1;
    let mut step = provider.group_lookup_pool("pool-1", "ch-gva-2", Ok(pool.to_string()), Ok(NOW));
    loop {
        match step {
            GroupLookup::Done(result) => return (result, requests),
            GroupLookup::Ask { request, pool, resolved } => {
                assert_eq!(request, api("ch-gva-2", &format!("m-{}", resolved.len()), 9));
                requests += 1;
                let response = answer(resolved.len());
                step = provider.group_lookup_member("pool-1", "ch-gva-2", pool, resolved, response, Ok(NOW));
            }
        }
    }
}

#[test]
fn group_lookup_gives_the_group_whatever_its_size() {
    let provider = signing();
    for (size, members) in [(3, 3), (5, 2), (1, 3), (0, 0), (4, 0)] {
        let (group, requests) =
            look_up(&provider, &pool_record(size, members), |i| Ok(member_record(i)));
        assert_eq!(requests, 1 + members);
        assert_eq!(
            group,
            Ok(CloudInstanceGroup {
                instance_group_id: "pool-1".to_string(),
                instances: (0..members).map(member).collect(),
                size,
            })
        );
    }
}

#[test]
fn failing_member_fails_the_group_lookup_with_its_error() {
    let provider = signing();
    for failing in 0..4 {
        let (group, requests) = look_up(&provider, &pool_record(4, 4), |i| {
            if i == failing {
                Err(HttpError::Timeout)
            } else {
                Ok(member_record(i))
            }
        });
        assert_eq!(group, Err(CloudProviderError::ResourceUnreachable));
        assert_eq!(requests, 1 + failing + 1);
        let (group, requests) = look_up(&provider, &pool_record(4, 4), |i| {
            if i == failing {
                Ok("{\"id\":\"no name\"}".to_string())
            } else {
                Ok(member_record(i))
            }
        });
        assert_eq!(group, Err(CloudProviderError::NotAvailable));
        assert_eq!(requests, 1 + failing + 1);
    }
}

#[test]
fn failing_pool_response_fails_the_group_lookup() {
    let provider = signing();
    assert_eq!(
        over(provider.group_lookup_pool("pool-1", "ch-gva-2", Err(HttpError::TransportError), Ok(NOW))),
        Err(CloudProviderError::ResourceUnreachable)
    );
    assert_eq!(
        over(provider.group_lookup_pool("pool-1", "ch-gva-2", Ok("{\"size\":1}".to_string()), Ok(NOW))),
        Err(CloudProviderError::NotAvailable)
    );
}

#[test]
fn group_lookup_without_means_to_sign_fails_with_an_authentication_error() {
    let unsigned = ExoscaleCloudProvider::new();
    assert_eq!(
        over(unsigned.group_lookup_pool("pool-1", "ch-gva-2", Ok(pool_record(2, 2)), Ok(NOW))),
        Err(CloudProviderError::AuthenticationError)
    );
    assert_eq!(
        over(signing().group_lookup_pool(
            "pool-1",
            "ch-gva-2",
            Ok(pool_record(2, 2)),
            Err(CloudProviderError::AuthenticationError)
        )),
        Err(CloudProviderError::AuthenticationError)
    );
}

#[test]
fn group_lookup_step_asks_for_the_member_after_those_resolved() {
    let provider = signing();
    let pool = ExoscaleCloudProvider::pool_from_response(Ok(pool_record(3, 3))).unwrap();
    let (request, pool, resolved) =
        ask(provider.group_lookup_step("pool-1", "ch-gva-2", pool, vec![member(0)], Ok(NOW)));
    assert_eq!(request, api("ch-gva-2", "m-1", 9));
    assert_eq!(resolved, vec![member(0)]);
    let group = over(provider.group_lookup_step(
        "pool-1",
        "ch-gva-2",
        pool,
        vec![member(0), member(1), member(2)],
        Ok(NOW),
    ))
    .unwrap();
    assert_eq!(group.instances, vec![member(0), member(1), member(2)]);
    assert_eq!(group.size, 3);
    assert_eq!(group.clone(), group);
}
