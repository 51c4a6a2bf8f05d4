pub mod error;
pub mod exoscale;

use crate::configuration::{CloudConfiguration, CloudConfigurationView};
use crate::http_client::{outcome_text, HttpErrorView, HttpOutcome, HttpRequest};
use error::CloudProviderError;
use vstd::prelude::*;
use vstd::string::*;

verus! {

/// What is known of one instance.
#[derive(Debug, PartialEq)]
pub struct CloudInstance {
    pub instance_id: String,
    /// The instance group that manages this instance, if any.
    pub manager_id: Option<String>,
    pub hostname: String,
    pub zone: String,
    pub ipv4_address: Option<String>,
    pub ipv6_address: Option<String>,
}

/// `CloudInstance` with its strings as character sequences.
pub struct CloudInstanceView {
    pub instance_id: Seq<char>,
    pub manager_id: Option<Seq<char>>,
    pub hostname: Seq<char>,
    pub zone: Seq<char>,
    pub ipv4_address: Option<Seq<char>>,
    pub ipv6_address: Option<Seq<char>>,
}

/// The view of a string that may be absent.
pub open spec fn optional_text(text: Option<String>) -> Option<Seq<char>> {
    match text {
        Some(present) => Some(present@),
        None => None,
    }
}

impl View for CloudInstance {
    type V = CloudInstanceView;

    open spec fn view(&self) -> CloudInstanceView {
        CloudInstanceView {
            instance_id: self.instance_id@,
            manager_id: optional_text(self.manager_id),
            hostname: self.hostname@,
            zone: self.zone@,
            ipv4_address: optional_text(self.ipv4_address),
            ipv6_address: optional_text(self.ipv6_address),
        }
    }
}

/// An instance group: its members as far as they are known, and the number
/// of members that it is meant to have.
#[derive(Debug, PartialEq)]
pub struct CloudInstanceGroup {
    pub instance_group_id: String,
    pub instances: Vec<CloudInstance>,
    pub size: usize,
}

/// `CloudInstanceGroup` with its strings as character sequences.
pub struct CloudInstanceGroupView {
    pub instance_group_id: Seq<char>,
    pub instances: Seq<CloudInstanceView>,
    pub size: usize,
}

/// The views of a list of instances, in order.
pub open spec fn instance_views(instances: Seq<CloudInstance>) -> Seq<CloudInstanceView> {
    Seq::new(instances.len(), |i: int| instances[i]@)
}

impl View for CloudInstanceGroup {
    type V = CloudInstanceGroupView;

    open spec fn view(&self) -> CloudInstanceGroupView {
        CloudInstanceGroupView {
            instance_group_id: self.instance_group_id@,
            instances: instance_views(self.instances@),
            size: self.size,
        }
    }
}

impl CloudInstanceGroupView {
    /// The group has as many members as it is meant to have.
    pub open spec fn complete(self) -> bool {
        self.instances.len() == self.size
    }
}

/// What a probe found: the configuration, this instance, and its group
/// where it has one.
#[derive(Debug)]
pub struct ProbeData {
    pub configuration: CloudConfiguration,
    pub instance: CloudInstance,
    pub instance_group: Option<CloudInstanceGroup>,
}

/// `ProbeData` with its strings as character sequences.
pub struct ProbeDataView {
    pub configuration: CloudConfigurationView,
    pub instance: CloudInstanceView,
    pub instance_group: Option<CloudInstanceGroupView>,
}

impl View for ProbeData {
    type V = ProbeDataView;

    open spec fn view(&self) -> ProbeDataView {
        ProbeDataView {
            configuration: self.configuration@,
            instance: self.instance@,
            instance_group: match self.instance_group {
                Some(group) => Some(group@),
                None => None,
            },
        }
    }
}

/// What happened since the provider's last step.
#[derive(Debug)]
pub enum ProbeEvent {
    /// Nothing yet: the probe is to begin.
    Begin,
    /// The request of the last step was sent, with this outcome.
    Reply(HttpOutcome),
    /// The delay of the last step is over.
    Woke,
}

/// The response that an event stands for. An event that is no reply counts
/// as a call that failed.
pub open spec fn event_response(event: ProbeEvent) -> Result<Seq<char>, HttpErrorView> {
    match event {
        ProbeEvent::Reply(outcome) => outcome_text(outcome),
        _ => Err(HttpErrorView::TransportError),
    }
}

/// What a provider asks of its driver next. The provider comes back with a
/// request or a delay; with the result it does not: a probe that is done
/// asks for nothing more.
#[derive(Debug)]
pub enum ProbeStep<P> {
    /// Send the request and come back with a `Reply`.
    Fetch(P, HttpRequest),
    /// Wait this many seconds and come back with `Woke`.
    Sleep(P, u64),
    /// The probe is over, with this result.
    Done(Result<ProbeData, CloudProviderError>),
}

/// What a cloud platform can be asked. A provider never sends anything
/// itself: it prepares each request, and `probe` says step by step what to
/// do with the answers.
pub trait CloudProvider: Sized {
    /// Takes the full discovery one step further.
    fn probe(self, event: ProbeEvent) -> ProbeStep<Self>;

    /// The request for the user-supplied configuration document.
    fn get_metadata_userdata(&self) -> Result<HttpRequest, CloudProviderError>;

    /// The request for the name of the platform.
    fn get_metadata_cloud_identifier(&self) -> Result<HttpRequest, CloudProviderError>;

    /// The request for the zone of this instance.
    fn get_metadata_zone(&self) -> Result<HttpRequest, CloudProviderError>;

    /// The request for the identifier of this instance.
    fn get_metadata_instance_id(&self) -> Result<HttpRequest, CloudProviderError>;

    /// The request for the host name of this instance.
    fn get_metadata_hostname(&self) -> Result<HttpRequest, CloudProviderError>;

    /// The request for the instance `id` in `zone`.
    fn get_instance(&self, id: &str, zone: &str) -> Result<HttpRequest, CloudProviderError>;

    /// The request for the instance group `id` in `zone`.
    fn get_instance_group(&self, id: &str, zone: &str) -> Result<HttpRequest, CloudProviderError>;
}

/// Copies a string that may be absent.
pub fn clone_optional_text(text: &Option<String>) -> (copy: Option<String>)
    ensures
        optional_text(copy) == optional_text(*text),
{
    match text {
        Some(present) => Some(present.clone()),
        None => None,
    }
}

impl Clone for CloudInstance {
    fn clone(&self) -> (copy: CloudInstance)
        ensures
            copy@ == self@,
    {
        CloudInstance {
            instance_id: self.instance_id.clone(),
            manager_id: clone_optional_text(&self.manager_id),
            hostname: self.hostname.clone(),
            zone: self.zone.clone(),
            ipv4_address: clone_optional_text(&self.ipv4_address),
            ipv6_address: clone_optional_text(&self.ipv6_address),
        }
    }
}

impl Clone for CloudInstanceGroup {
    fn clone(&self) -> (copy: CloudInstanceGroup)
        ensures
            copy@ == self@,
    {
        let mut instances: Vec<CloudInstance> = Vec::new();
        let mut i: usize = 0;
        while i < self.instances.len()
            invariant
                i <= self.instances.len(),
                instances@.len() == i,
                forall|j: int| 0 <= j < i ==> (#[trigger] instances@[j])@ == self.instances@[j]@,
            decreases self.instances.len() - i,
        {
            instances.push(self.instances[i].clone());
            i = i + 1;
        }
        assert(instance_views(instances@) =~= instance_views(self.instances@));
        CloudInstanceGroup {
            instance_group_id: self.instance_group_id.clone(),
            instances,
            size: self.size,
        }
    }
}

impl Default for CloudInstance {
    /// An instance of which nothing is known.
    fn default() -> (instance: CloudInstance)
        ensures
            instance@ == (CloudInstanceView {
                instance_id: Seq::<char>::empty(),
                manager_id: None,
                hostname: Seq::<char>::empty(),
                zone: Seq::<char>::empty(),
                ipv4_address: None,
                ipv6_address: None,
            }),
    {
        CloudInstance {
            instance_id: String::new(),
            manager_id: None,
            hostname: String::new(),
            zone: String::new(),
            ipv4_address: None,
            ipv6_address: None,
        }
    }
}

impl Default for CloudInstanceGroup {
    /// A group without a name, without members and of size 0.
    fn default() -> (group: CloudInstanceGroup)
        ensures
            group@ == (CloudInstanceGroupView {
                instance_group_id: Seq::<char>::empty(),
                instances: Seq::<CloudInstanceView>::empty(),
                size: 0,
            }),
    {
        let group = CloudInstanceGroup {
            instance_group_id: String::new(),
            instances: Vec::new(),
            size: 0,
        };
        assert(group@.instances =~= Seq::<CloudInstanceView>::empty());
        group
    }
}

} // verus!
