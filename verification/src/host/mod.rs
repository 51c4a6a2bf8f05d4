pub mod error;

use crate::configuration::{CloudConfiguration, UserConfiguration, UserConfigurationView};
use crate::provider::CloudInstance;
use crate::text::{join, joined_text, texts_of};
use vstd::prelude::*;
use vstd::string::*;

pub use error::HostError;

verus! {

/// One thing to do to the host.
#[derive(Debug, PartialEq, Eq)]
pub enum HostAction {
    /// Set the transient host name.
    SetHostname(String),
    /// Make sure that a directory exists, with its parents.
    EnsureDirectory(String),
    /// Generate the SSH host key of an algorithm, without a passphrase.
    EnsureSshHostKey { algorithm: String, path: String },
    /// Write a file.
    EnsureFile { path: String, content: String },
}

/// `HostAction` with its strings as character sequences.
pub enum HostActionView {
    SetHostname(Seq<char>),
    EnsureDirectory(Seq<char>),
    EnsureSshHostKey { algorithm: Seq<char>, path: Seq<char> },
    EnsureFile { path: Seq<char>, content: Seq<char> },
}

impl View for HostAction {
    type V = HostActionView;

    open spec fn view(&self) -> HostActionView {
        match self {
            HostAction::SetHostname(hostname) => HostActionView::SetHostname(hostname@),
            HostAction::EnsureDirectory(path) => HostActionView::EnsureDirectory(path@),
            HostAction::EnsureSshHostKey { algorithm, path } => HostActionView::EnsureSshHostKey {
                algorithm: algorithm@,
                path: path@,
            },
            HostAction::EnsureFile { path, content } => HostActionView::EnsureFile {
                path: path@,
                content: content@,
            },
        }
    }
}

/// The home directory of `username`, as a sequence of characters.
pub open spec fn home_path(username: Seq<char>) -> Seq<char> {
    if username == "root"@ {
        "/root"@
    } else {
        "/home/"@ + username
    }
}

/// Where the SSH host key of an algorithm is kept.
pub open spec fn hostkey_path(algorithm: Seq<char>) -> Seq<char> {
    "/var/lib/ssh/ssh_host_"@ + algorithm + "_key"@
}

/// What is done for one user: nothing without keys; with keys, the SSH
/// directory in the user's home and the file of authorized keys, one key
/// per line.
pub open spec fn user_actions(name: Seq<char>, user: UserConfigurationView) -> Seq<HostActionView> {
    if user.ssh.authorized_keys.len() == 0 {
        Seq::empty()
    } else {
        seq![
            HostActionView::EnsureDirectory(home_path(name) + "/.ssh"@),
            HostActionView::EnsureFile {
                path: home_path(name) + "/.ssh/authorized_keys"@,
                content: joined_text(user.ssh.authorized_keys, "\n"@),
            },
        ]
    }
}

/// What is done for a list of users, in the list's order.
pub open spec fn users_actions(users: Seq<(Seq<char>, UserConfigurationView)>) -> Seq<
    HostActionView,
>
    decreases users.len(),
{
    if users.len() == 0 {
        Seq::empty()
    } else {
        users_actions(users.drop_last()) + user_actions(users.last().0, users.last().1)
    }
}

/// Everything that is done to the host: the host name, the directory of
/// the host keys, the `ed25519` host key, and then the users.
pub open spec fn host_actions(
    hostname: Seq<char>,
    users: Seq<(Seq<char>, UserConfigurationView)>,
) -> Seq<HostActionView> {
    seq![
        HostActionView::SetHostname(hostname),
        HostActionView::EnsureDirectory("/var/lib/ssh"@),
        HostActionView::EnsureSshHostKey { algorithm: "ed25519"@, path: hostkey_path("ed25519"@) },
    ] + users_actions(users)
}

/// The views of a list of actions, in order.
pub open spec fn action_views(actions: Seq<HostAction>) -> Seq<HostActionView> {
    Seq::new(actions.len(), |i: int| actions[i]@)
}

/// Returns the home directory of `username`: `/root` for the superuser,
/// `/home/<username>` for everyone else.
pub fn user_home(username: String) -> (home: String)
    ensures
        home@ == home_path(username@),
{
    let root = String::from_str("root");
    if username == root {
        String::from_str("/root")
    } else {
        String::from_str("/home/").concat(username.as_str())
    }
}

/// Returns where the SSH host key of `algorithm` is kept.
pub fn ssh_hostkey_path(algorithm: &str) -> (path: String)
    ensures
        path@ == hostkey_path(algorithm@),
{
    String::from_str("/var/lib/ssh/ssh_host_").concat(algorithm).concat("_key")
}

impl HostAction {
    /// What the set-up makes of the outcome of this action: it goes on,
    /// whatever the action and whatever the outcome. A failure is for the
    /// caller to log. It is not looked into and it ends nothing: the
    /// actions that are left are still attempted.
    pub fn settle(&self, outcome: Result<(), HostError>) -> (verdict: Result<(), HostError>)
        ensures
            verdict is Ok,
    {
        Ok(())
    }
}

/// Appends what is done for one user.
fn push_user_actions(actions: &mut Vec<HostAction>, name: &String, user: &UserConfiguration)
    ensures
        action_views(final(actions)@) == action_views(old(actions)@) + user_actions(name@, user@),
{
    if user.ssh.authorized_keys.len() > 0 {
        let home = user_home(name.clone());
        let directory = home.clone().concat("/.ssh");
        let path = home.concat("/.ssh/authorized_keys");
        let content = join(&user.ssh.authorized_keys, "\n");
        assert(texts_of(user.ssh.authorized_keys@) =~= user@.ssh.authorized_keys);
        actions.push(HostAction::EnsureDirectory(directory));
        actions.push(HostAction::EnsureFile { path, content });
        assert(action_views(actions@) =~= action_views(old(actions)@) + user_actions(
            name@,
            user@,
        ));
    } else {
        assert(action_views(actions@) =~= action_views(old(actions)@) + user_actions(
            name@,
            user@,
        ));
    }
}

/// Plans the set-up of the host from what a probe found: the actions to
/// perform, in order. Each is attempted whether or not those before it
/// succeeded.
pub fn cloud_init(configuration: &CloudConfiguration, instance: &CloudInstance) -> (actions: Vec<
    HostAction,
>)
    ensures
        action_views(actions@) == host_actions(instance@.hostname, configuration@.host.user),
{
    let mut actions: Vec<HostAction> = Vec::new();
    actions.push(HostAction::SetHostname(instance.hostname.clone()));
    actions.push(HostAction::EnsureDirectory(String::from_str("/var/lib/ssh")));
    actions.push(
        HostAction::EnsureSshHostKey {
            algorithm: String::from_str("ed25519"),
            path: ssh_hostkey_path("ed25519"),
        },
    );
    let ghost head = action_views(actions@);
    assert(head =~= seq![
        HostActionView::SetHostname(instance@.hostname),
        HostActionView::EnsureDirectory("/var/lib/ssh"@),
        HostActionView::EnsureSshHostKey { algorithm: "ed25519"@, path: hostkey_path("ed25519"@) },
    ]);
    let users = &configuration.host.user;
    let mut i: usize = 0;
    assert(configuration@.host.user.take(0) =~= Seq::empty());
    while i < users.len()
        invariant
            i <= users.len(),
            users@ == configuration.host.user@,
            action_views(actions@) == head + users_actions(
                configuration@.host.user.take(i as int),
            ),
        decreases users.len() - i,
    {
        proof {
            let all = configuration@.host.user;
            let next = all.take(i + 1);
            assert(next.drop_last() =~= all.take(i as int));
            assert(next.last() == (users@[i as int].0@, users@[i as int].1@));
        }
        push_user_actions(&mut actions, &users[i].0, &users[i].1);
        i = i + 1;
    }
    assert(configuration@.host.user.take(users.len() as int) =~= configuration@.host.user);
    actions
}

} // verus!
