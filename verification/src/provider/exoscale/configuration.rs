use crate::document::{read_text, text_field, Node};
use vstd::prelude::*;
use vstd::string::*;

verus! {

/// The provider section of the configuration document.
#[derive(Clone, Debug)]
pub struct ExoscaleCloudProviderConfiguration {
    pub api_key: String,
    pub api_secret: String,
    /// How long one API call may take, in seconds.
    pub api_timeout_secs: u64,
    /// How long to wait between two looks at an instance group, in seconds.
    pub api_retry_delay_secs: u64,
}

/// `ExoscaleCloudProviderConfiguration` with its strings as character
/// sequences.
pub struct ExoscaleCloudProviderConfigurationView {
    pub api_key: Seq<char>,
    pub api_secret: Seq<char>,
    pub api_timeout_secs: u64,
    pub api_retry_delay_secs: u64,
}

impl View for ExoscaleCloudProviderConfiguration {
    type V = ExoscaleCloudProviderConfigurationView;

    open spec fn view(&self) -> ExoscaleCloudProviderConfigurationView {
        ExoscaleCloudProviderConfigurationView {
            api_key: self.api_key@,
            api_secret: self.api_secret@,
            api_timeout_secs: self.api_timeout_secs,
            api_retry_delay_secs: self.api_retry_delay_secs,
        }
    }
}

/// The API timeout of a section that names none.
pub fn default_api_timeout_secs() -> (seconds: u64)
    ensures
        seconds == 5,
{
    5
}

/// The retry delay of a section that names none.
pub fn default_api_retry_delay_secs() -> (seconds: u64)
    ensures
        seconds == 5,
{
    5
}

/// The count of seconds under `key`: `default` where the table lacks the
/// key, the number where it is an integer that a `u64` holds, and `None`
/// for anything else.
pub open spec fn seconds_field(node: Node, key: Seq<char>, default: u64) -> Option<u64> {
    match node.entry(key) {
        None => Some(default),
        Some(Node::Integer(number)) => if 0 <= number <= u64::MAX {
            Some(number as u64)
        } else {
            None
        },
        Some(_) => None,
    }
}

/// What a node holds when read as the provider section: a table with the
/// strings `api_key` and `api_secret`, and the two optional counts of
/// seconds, each 5 where absent.
pub open spec fn exoscale_section(node: Node) -> Option<ExoscaleCloudProviderConfigurationView> {
    if node is Table && text_field(node, "api_key"@) is Some && text_field(
        node,
        "api_secret"@,
    ) is Some && seconds_field(node, "api_timeout_secs"@, 5) is Some && seconds_field(
        node,
        "api_retry_delay_secs"@,
        5,
    ) is Some {
        Some(
            ExoscaleCloudProviderConfigurationView {
                api_key: text_field(node, "api_key"@)->0,
                api_secret: text_field(node, "api_secret"@)->0,
                api_timeout_secs: seconds_field(node, "api_timeout_secs"@, 5)->0,
                api_retry_delay_secs: seconds_field(node, "api_retry_delay_secs"@, 5)->0,
            },
        )
    } else {
        None
    }
}

/// Reads the count of seconds under `key`, `default` where the key is
/// absent.
pub fn read_seconds(node: &Node, key: &str, default: u64) -> (seconds: Option<u64>)
    ensures
        seconds == seconds_field(*node, key@, default),
{
    match node.get(key) {
        None => Some(default),
        Some(Node::Integer(number)) => {
            if 0 <= *number && *number <= 0xffff_ffff_ffff_ffff {
                Some(*number as u64)
            } else {
                None
            }
        },
        Some(_) => None,
    }
}

impl ExoscaleCloudProviderConfiguration {
    /// Reads the provider section from its node.
    pub fn from_node(node: &Node) -> (section: Option<ExoscaleCloudProviderConfiguration>)
        ensures
            match section {
                Some(read) => exoscale_section(*node) == Some(read@),
                None => exoscale_section(*node) is None,
            },
    {
        match node {
            Node::Table(_) => {},
            _ => {
                return None;
            },
        }
        let api_key = match read_text(node, "api_key") {
            Some(text) => text,
            None => {
                return None;
            },
        };
        let api_secret = match read_text(node, "api_secret") {
            Some(text) => text,
            None => {
                return None;
            },
        };
        let api_timeout_secs = match read_seconds(
            node,
            "api_timeout_secs",
            default_api_timeout_secs(),
        ) {
            Some(seconds) => seconds,
            None => {
                return None;
            },
        };
        let api_retry_delay_secs = match read_seconds(
            node,
            "api_retry_delay_secs",
            default_api_retry_delay_secs(),
        ) {
            Some(seconds) => seconds,
            None => {
                return None;
            },
        };
        Some(
            ExoscaleCloudProviderConfiguration {
                api_key,
                api_secret,
                api_timeout_secs,
                api_retry_delay_secs,
            },
        )
    }
}

impl Default for ExoscaleCloudProviderConfiguration {
    /// Empty credentials and the default timeouts.
    fn default() -> (section: ExoscaleCloudProviderConfiguration)
        ensures
            section@ == (ExoscaleCloudProviderConfigurationView {
                api_key: Seq::<char>::empty(),
                api_secret: Seq::<char>::empty(),
                api_timeout_secs: 5,
                api_retry_delay_secs: 5,
            }),
    {
        ExoscaleCloudProviderConfiguration {
            api_key: String::new(),
            api_secret: String::new(),
            api_timeout_secs: default_api_timeout_secs(),
            api_retry_delay_secs: default_api_retry_delay_secs(),
        }
    }
}

} // verus!
