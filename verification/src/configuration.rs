use crate::document::{parse_toml, toml_document, Entry, Node};
use crate::provider::exoscale::configuration::{
    exoscale_section,
    ExoscaleCloudProviderConfigurationView,
};
use crate::provider::exoscale::ExoscaleCloudProviderConfiguration;
use vstd::prelude::*;
use vstd::string::*;

verus! {

/// The whole configuration document: what the provider needs and what the
/// host is to look like.
#[derive(Clone, Debug)]
pub struct CloudConfiguration {
    pub provider: ProviderConfiguration,
    pub host: HostConfiguration,
}

/// The provider sections, one per known provider.
#[derive(Clone, Debug)]
pub struct ProviderConfiguration {
    pub exoscale: Option<ExoscaleCloudProviderConfiguration>,
}

/// The host section: the users to provision, each name once, in the
/// order in which the parsed document holds them, which is that of the
/// parser's keys and not that of the text.
#[derive(Clone, Debug)]
pub struct HostConfiguration {
    pub user: Vec<(String, UserConfiguration)>,
}

/// What is configured for one user.
#[derive(Clone, Debug)]
pub struct UserConfiguration {
    pub ssh: UserSSHConfiguration,
}

/// The SSH public keys that may log in as a user.
#[derive(Clone, Debug)]
pub struct UserSSHConfiguration {
    pub authorized_keys: Vec<String>,
}

pub struct CloudConfigurationView {
    pub provider: ProviderConfigurationView,
    pub host: HostConfigurationView,
}

pub struct ProviderConfigurationView {
    pub exoscale: Option<ExoscaleCloudProviderConfigurationView>,
}

pub struct HostConfigurationView {
    pub user: Seq<(Seq<char>, UserConfigurationView)>,
}

pub struct UserConfigurationView {
    pub ssh: UserSSHConfigurationView,
}

pub struct UserSSHConfigurationView {
    pub authorized_keys: Seq<Seq<char>>,
}

impl View for UserSSHConfiguration {
    type V = UserSSHConfigurationView;

    open spec fn view(&self) -> UserSSHConfigurationView {
        UserSSHConfigurationView {
            authorized_keys: Seq::new(
                self.authorized_keys@.len(),
                |i: int| self.authorized_keys@[i]@,
            ),
        }
    }
}

impl View for UserConfiguration {
    type V = UserConfigurationView;

    open spec fn view(&self) -> UserConfigurationView {
        UserConfigurationView { ssh: self.ssh@ }
    }
}

impl View for HostConfiguration {
    type V = HostConfigurationView;

    open spec fn view(&self) -> HostConfigurationView {
        HostConfigurationView {
            user: Seq::new(self.user@.len(), |i: int| (self.user@[i].0@, self.user@[i].1@)),
        }
    }
}

impl View for ProviderConfiguration {
    type V = ProviderConfigurationView;

    open spec fn view(&self) -> ProviderConfigurationView {
        ProviderConfigurationView {
            exoscale: match self.exoscale {
                Some(section) => Some(section@),
                None => None,
            },
        }
    }
}

impl View for CloudConfiguration {
    type V = CloudConfigurationView;

    open spec fn view(&self) -> CloudConfigurationView {
        CloudConfigurationView { provider: self.provider@, host: self.host@ }
    }
}

/// The provider configuration of a document without a provider section.
pub open spec fn no_provider() -> ProviderConfigurationView {
    ProviderConfigurationView { exoscale: None }
}

/// The host configuration of a document without a host section.
pub open spec fn no_host() -> HostConfigurationView {
    HostConfigurationView { user: Seq::empty() }
}

/// The SSH configuration of a user without one.
pub open spec fn no_ssh() -> UserSSHConfigurationView {
    UserSSHConfigurationView { authorized_keys: Seq::empty() }
}

impl HostConfigurationView {
    /// No user is named twice.
    pub open spec fn wf(self) -> bool {
        forall|i: int, j: int|
            0 <= i < j < self.user.len() ==> (#[trigger] self.user[i]).0 != (
            #[trigger] self.user[j]).0
    }
}

/// The strings of a list whose items are all strings.
pub open spec fn text_list(node: Node) -> Option<Seq<Seq<char>>> {
    match node {
        Node::List(items) => if forall|i: int|
            0 <= i < items@.len() ==> (#[trigger] items@[i]) is Text {
            Some(Seq::new(items@.len(), |i: int| items@[i]->Text_0@))
        } else {
            None
        },
        _ => None,
    }
}

/// What a node holds when read as a user's SSH section: a table whose
/// `authorized_keys`, where present, is a list of strings.
pub open spec fn ssh_section(node: Node) -> Option<UserSSHConfigurationView> {
    match node {
        Node::Table(_) => match node.entry("authorized_keys"@) {
            None => Some(no_ssh()),
            Some(list) => match text_list(list) {
                Some(keys) => Some(UserSSHConfigurationView { authorized_keys: keys }),
                None => None,
            },
        },
        _ => None,
    }
}

/// What a node holds when read as one user: a table whose `ssh`, where
/// present, is an SSH section.
pub open spec fn user_section(node: Node) -> Option<UserConfigurationView> {
    match node {
        Node::Table(_) => match node.entry("ssh"@) {
            None => Some(UserConfigurationView { ssh: no_ssh() }),
            Some(inner) => match ssh_section(inner) {
                Some(ssh) => Some(UserConfigurationView { ssh }),
                None => None,
            },
        },
        _ => None,
    }
}

/// No two entries share a key.
pub open spec fn distinct_keys(entries: Seq<Entry>) -> bool {
    forall|i: int, j: int|
        0 <= i < j < entries.len() ==> (#[trigger] entries[i]).key@ != (#[trigger] entries[j]).key@
}

/// What a node holds when read as the table of users: every entry a user
/// under the entry's key, and no key twice.
pub open spec fn user_table(node: Node) -> Option<Seq<(Seq<char>, UserConfigurationView)>> {
    match node {
        Node::Table(entries) => if distinct_keys(entries@) && forall|i: int|
            0 <= i < entries@.len() ==> user_section((#[trigger] entries@[i]).value) is Some {
            Some(
                Seq::new(
                    entries@.len(),
                    |i: int| (entries@[i].key@, user_section(entries@[i].value)->0),
                ),
            )
        } else {
            None
        },
        _ => None,
    }
}

/// What a node holds when read as the host section: a table whose `user`,
/// where present, is a table of users.
pub open spec fn host_section(node: Node) -> Option<HostConfigurationView> {
    match node {
        Node::Table(_) => match node.entry("user"@) {
            None => Some(no_host()),
            Some(inner) => match user_table(inner) {
                Some(user) => Some(HostConfigurationView { user }),
                None => None,
            },
        },
        _ => None,
    }
}

/// What a node holds when read as the provider sections: a table whose
/// `exoscale`, where present, is that provider's section.
pub open spec fn provider_section(node: Node) -> Option<ProviderConfigurationView> {
    match node {
        Node::Table(_) => match node.entry("exoscale"@) {
            None => Some(no_provider()),
            Some(inner) => match exoscale_section(inner) {
                Some(section) => Some(ProviderConfigurationView { exoscale: Some(section) }),
                None => None,
            },
        },
        _ => None,
    }
}

/// The provider configuration of a document: the default where it has no
/// `provider` section.
pub open spec fn document_provider(document: Node) -> Option<ProviderConfigurationView> {
    match document.entry("provider"@) {
        None => Some(no_provider()),
        Some(inner) => provider_section(inner),
    }
}

/// The host configuration of a document: the default where it has no
/// `host` section.
pub open spec fn document_host(document: Node) -> Option<HostConfigurationView> {
    match document.entry("host"@) {
        None => Some(no_host()),
        Some(inner) => host_section(inner),
    }
}

/// The configuration that a document holds: the document is a table, and
/// each of its two sections is either absent or well formed.
pub open spec fn document_configuration(document: Node) -> Option<CloudConfigurationView> {
    if document is Table && document_provider(document) is Some && document_host(
        document,
    ) is Some {
        Some(
            CloudConfigurationView {
                provider: document_provider(document)->0,
                host: document_host(document)->0,
            },
        )
    } else {
        None
    }
}

/// The configuration that a text holds: it is a TOML document that holds
/// one.
pub open spec fn text_configuration(text: Seq<char>) -> Option<CloudConfigurationView> {
    match toml_document(text) {
        Some(document) => document_configuration(document),
        None => None,
    }
}

/// The provider configuration of a document that has no provider section.
pub fn default_provider_configuration() -> (provider: ProviderConfiguration)
    ensures
        provider@ == no_provider(),
{
    ProviderConfiguration { exoscale: None }
}

/// The host configuration of a document that has no host section.
pub fn default_host_configuration() -> (host: HostConfiguration)
    ensures
        host@ == no_host(),
        host@.wf(),
{
    let host = HostConfiguration { user: Vec::new() };
    assert(host@.user =~= Seq::empty());
    host
}

impl Default for UserSSHConfiguration {
    fn default() -> (ssh: UserSSHConfiguration)
        ensures
            ssh@ == no_ssh(),
    {
        let ssh = UserSSHConfiguration { authorized_keys: Vec::new() };
        assert(ssh@.authorized_keys =~= Seq::empty());
        ssh
    }
}

impl Default for UserConfiguration {
    fn default() -> (user: UserConfiguration)
        ensures
            user@ == (UserConfigurationView { ssh: no_ssh() }),
    {
        UserConfiguration { ssh: UserSSHConfiguration::default() }
    }
}

impl Default for HostConfiguration {
    fn default() -> (host: HostConfiguration)
        ensures
            host@ == no_host(),
            host@.wf(),
    {
        default_host_configuration()
    }
}

impl Default for ProviderConfiguration {
    fn default() -> (provider: ProviderConfiguration)
        ensures
            provider@ == no_provider(),
    {
        default_provider_configuration()
    }
}

impl Default for CloudConfiguration {
    fn default() -> (configuration: CloudConfiguration)
        ensures
            configuration@ == (CloudConfigurationView { provider: no_provider(), host: no_host() }),
    {
        CloudConfiguration {
            provider: default_provider_configuration(),
            host: default_host_configuration(),
        }
    }
}

/// Reads a list of strings.
pub fn read_text_list(node: &Node) -> (texts: Option<Vec<String>>)
    ensures
        match texts {
            Some(list) => text_list(*node) == Some(
                Seq::new(list@.len(), |i: int| list@[i]@),
            ),
            None => text_list(*node) is None,
        },
{
    match node {
        Node::List(items) => {
            let mut list: Vec<String> = Vec::new();
            let mut i: usize = 0;
            while i < items.len()
                invariant
                    *node == Node::List(*items),
                    i <= items.len(),
                    list@.len() == i,
                    forall|j: int|
                        0 <= j < i ==> (#[trigger] items@[j]) is Text && items@[j]->Text_0@
                            == list@[j]@,
                decreases items.len() - i,
            {
                match &items[i] {
                    Node::Text(text) => {
                        list.push(text.clone());
                    },
                    _ => {
                        return None;
                    },
                }
                i = i + 1;
            }
            assert(Seq::new(list@.len(), |i: int| list@[i]@) =~= Seq::new(
                items@.len(),
                |i: int| items@[i]->Text_0@,
            ));
            Some(list)
        },
        _ => None,
    }
}

impl UserSSHConfiguration {
    /// Reads a user's SSH section from its node.
    pub fn from_node(node: &Node) -> (section: Option<UserSSHConfiguration>)
        ensures
            match section {
                Some(read) => ssh_section(*node) == Some(read@),
                None => ssh_section(*node) is None,
            },
    {
        match node {
            Node::Table(_) => match node.get("authorized_keys") {
                None => Some(UserSSHConfiguration::default()),
                Some(list) => match read_text_list(list) {
                    Some(authorized_keys) => Some(UserSSHConfiguration { authorized_keys }),
                    None => None,
                },
            },
            _ => None,
        }
    }
}

impl UserConfiguration {
    /// Reads one user from its node.
    pub fn from_node(node: &Node) -> (section: Option<UserConfiguration>)
        ensures
            match section {
                Some(read) => user_section(*node) == Some(read@),
                None => user_section(*node) is None,
            },
    {
        match node {
            Node::Table(_) => match node.get("ssh") {
                None => Some(UserConfiguration::default()),
                Some(inner) => match UserSSHConfiguration::from_node(inner) {
                    Some(ssh) => Some(UserConfiguration { ssh }),
                    None => None,
                },
            },
            _ => None,
        }
    }
}

/// Whether one of the first `count` entries has the key of entry `count`.
fn key_seen_before(entries: &Vec<Entry>, count: usize) -> (seen: bool)
    requires
        count < entries@.len(),
    ensures
        seen == exists|j: int|
            0 <= j < count && (#[trigger] entries@[j]).key@ == entries@[count as int].key@,
{
    let mut j: usize = 0;
    while j < count
        invariant
            j <= count,
            count < entries@.len(),
            forall|k: int| 0 <= k < j ==> (#[trigger] entries@[k]).key@ != entries@[count as int].key@,
        decreases count - j,
    {
        if entries[j].key == entries[count].key {
            return true;
        }
        j = j + 1;
    }
    false
}

impl HostConfiguration {
    /// Reads the table of users from its node.
    pub fn users_from_node(node: &Node) -> (users: Option<Vec<(String, UserConfiguration)>>)
        ensures
            match users {
                Some(list) => user_table(*node) == Some(
                    Seq::new(list@.len(), |i: int| (list@[i].0@, list@[i].1@)),
                ),
                None => user_table(*node) is None,
            },
    {
        match node {
            Node::Table(entries) => {
                let mut list: Vec<(String, UserConfiguration)> = Vec::new();
                let mut i: usize = 0;
                while i < entries.len()
                    invariant
                        *node == Node::Table(*entries),
                        i <= entries.len(),
                        list@.len() == i,
                        forall|j: int|
                            0 <= j < i ==> user_section((#[trigger] entries@[j]).value) == Some(
                                list@[j].1@,
                            ) && entries@[j].key@ == list@[j].0@,
                        forall|j: int, k: int|
                            0 <= j < k < i ==> (#[trigger] entries@[j]).key@ != (
                            #[trigger] entries@[k]).key@,
                    decreases entries.len() - i,
                {
                    if key_seen_before(entries, i) {
                        return None;
                    }
                    match UserConfiguration::from_node(&entries[i].value) {
                        Some(user) => {
                            list.push((entries[i].key.clone(), user));
                        },
                        None => {
                            return None;
                        },
                    }
                    i = i + 1;
                }
                assert(Seq::new(list@.len(), |i: int| (list@[i].0@, list@[i].1@)) =~= Seq::new(
                    entries@.len(),
                    |i: int| (entries@[i].key@, user_section(entries@[i].value)->0),
                ));
                Some(list)
            },
            _ => None,
        }
    }

    /// Reads the host section from its node.
    pub fn from_node(node: &Node) -> (section: Option<HostConfiguration>)
        ensures
            match section {
                Some(read) => host_section(*node) == Some(read@) && read@.wf(),
                None => host_section(*node) is None,
            },
    {
        match node {
            Node::Table(_) => match node.get("user") {
                None => Some(default_host_configuration()),
                Some(inner) => match HostConfiguration::users_from_node(inner) {
                    Some(user) => {
                        let host = HostConfiguration { user };
                        proof {
                            lemma_user_table_distinct(*inner);
                        }
                        Some(host)
                    },
                    None => None,
                },
            },
            _ => None,
        }
    }
}

/// A table of users names no user twice.
pub proof fn lemma_user_table_distinct(node: Node)
    requires
        user_table(node) is Some,
    ensures
        (HostConfigurationView { user: user_table(node)->0 }).wf(),
{
    let users = user_table(node)->0;
    let entries = node->Table_0@;
    assert forall|i: int, j: int| 0 <= i < j < users.len() implies (#[trigger] users[i]).0 != (
    #[trigger] users[j]).0 by {
        assert(entries[i].key@ != entries[j].key@);
    }
}

impl ProviderConfiguration {
    /// Reads the provider sections from their node.
    pub fn from_node(node: &Node) -> (section: Option<ProviderConfiguration>)
        ensures
            match section {
                Some(read) => provider_section(*node) == Some(read@),
                None => provider_section(*node) is None,
            },
    {
        match node {
            Node::Table(_) => match node.get("exoscale") {
                None => Some(default_provider_configuration()),
                Some(inner) => match ExoscaleCloudProviderConfiguration::from_node(inner) {
                    Some(section) => Some(ProviderConfiguration { exoscale: Some(section) }),
                    None => None,
                },
            },
            _ => None,
        }
    }
}

impl CloudConfiguration {
    /// Reads the configuration from a parsed document. A section that the
    /// document lacks takes its default; a section that is there and
    /// malformed fails the whole document.
    pub fn from_document(document: &Node) -> (configuration: Option<CloudConfiguration>)
        ensures
            match configuration {
                Some(read) => document_configuration(*document) == Some(read@) && read@.host.wf(),
                None => document_configuration(*document) is None,
            },
    {
        match document {
            Node::Table(_) => {},
            _ => {
                return None;
            },
        }
        let provider = match document.get("provider") {
            None => default_provider_configuration(),
            Some(inner) => match ProviderConfiguration::from_node(inner) {
                Some(section) => section,
                None => {
                    return None;
                },
            },
        };
        let host = match document.get("host") {
            None => default_host_configuration(),
            Some(inner) => match HostConfiguration::from_node(inner) {
                Some(section) => section,
                None => {
                    return None;
                },
            },
        };
        Some(CloudConfiguration { provider, host })
    }

    /// Parses a configuration text: `Some` exactly where the text is a TOML
    /// document that holds a configuration.
    pub fn from_str(configuration: &str) -> (parsed: Option<CloudConfiguration>)
        ensures
            match parsed {
                Some(read) => text_configuration(configuration@) == Some(read@) && read@.host.wf(),
                None => text_configuration(configuration@) is None,
            },
    {
        match parse_toml(configuration) {
            Some(document) => CloudConfiguration::from_document(&document),
            None => None,
        }
    }
}

/// A document that is a table with neither a `provider` nor a `host`
/// section holds the default configuration: no provider, no users.
pub proof fn lemma_missing_sections_give_defaults(document: Node)
    requires
        document is Table,
        document.entry("provider"@) is None,
        document.entry("host"@) is None,
    ensures
        document_configuration(document) == Some(
            CloudConfigurationView { provider: no_provider(), host: no_host() },
        ),
{
}

/// A text that parses to a table with neither section holds the default
/// configuration: parsing it succeeds, with no provider and no users.
pub proof fn lemma_text_without_sections_gives_defaults(text: Seq<char>)
    requires
        toml_document(text) is Some,
        toml_document(text)->0 is Table,
        toml_document(text)->0.entry("provider"@) is None,
        toml_document(text)->0.entry("host"@) is None,
    ensures
        text_configuration(text) == Some(
            CloudConfigurationView { provider: no_provider(), host: no_host() },
        ),
{
}

/// A missing `provider` section never fails a document: the document then
/// holds a configuration exactly where its host section is absent or well
/// formed, and that configuration names no provider.
pub proof fn lemma_missing_provider_gives_default(document: Node)
    requires
        document is Table,
        document.entry("provider"@) is None,
    ensures
        document_configuration(document) is Some <==> document_host(document) is Some,
        document_configuration(document) is Some ==> document_configuration(document)->0.provider
            == no_provider(),
{
}

/// A missing `host` section never fails a document: the document then
/// holds a configuration exactly where its provider section is absent or
/// well formed, and that configuration names no user.
pub proof fn lemma_missing_host_gives_default(document: Node)
    requires
        document is Table,
        document.entry("host"@) is None,
    ensures
        document_configuration(document) is Some <==> document_provider(document) is Some,
        document_configuration(document) is Some ==> document_configuration(document)->0.host
            == no_host(),
{
}

/// A provider section that names no timeout and no retry delay gets 5
/// seconds for each.
pub proof fn lemma_missing_timeouts_are_five(section: Node)
    requires
        exoscale_section(section) is Some,
    ensures
        section.entry("api_timeout_secs"@) is None ==> exoscale_section(
            section,
        )->0.api_timeout_secs == 5,
        section.entry("api_retry_delay_secs"@) is None ==> exoscale_section(
            section,
        )->0.api_retry_delay_secs == 5,
{
}

} // verus!
