use crate::document::{
    optional_text_field,
    read_optional_text,
    read_text,
    text_field,
    Node,
};
use crate::provider::error::CloudProviderError;
use crate::provider::exoscale::ExoscaleAPICredentials;
use crate::provider::optional_text;
use crate::text::{decimal, decimal_text, join, joined_text, texts_of};
use hmac::{Mac, NewMac};
use vstd::prelude::*;
use vstd::string::*;
use vstd::utf8::encode_utf8;

verus! {

/// How long a signature stays valid, in seconds.
pub const SIGNATURE_VALIDITY_SECS: u64 = 120;

/// `hmac::crypto_mac::InvalidKeyLength`: the key material was refused.
#[verifier::external_type_specification]
#[verifier::external_body]
pub struct ExInvalidKeyLength(hmac::crypto_mac::InvalidKeyLength);

/// The HMAC-SHA256 tag of `message` under `key`.
pub uninterp spec fn hmac_sha256_tag(key: Seq<u8>, message: Seq<u8>) -> Seq<u8>;

/// The standard padded base64 text of `bytes`.
pub uninterp spec fn base64_text(bytes: Seq<u8>) -> Seq<char>;

/// Computes a tag with `hmac::Hmac::<sha2::Sha256>`: `new_from_slice` on the
/// key, `update` with the message, `finalize`. HMAC takes a key of any
/// length, so there is always a tag. It is a function of key and message
/// alone and, being a SHA-256 output, 32 bytes long.
#[verifier::external_body]
fn hmac_sha256(key: &[u8], message: &[u8]) -> (tag: Result<
    Vec<u8>,
    hmac::crypto_mac::InvalidKeyLength,
>)
    ensures
        tag is Ok,
        tag->Ok_0@ == hmac_sha256_tag(key@, message@),
        tag->Ok_0@.len() == 32,
{
    let mut mac = hmac::Hmac::<sha2::Sha256>::new_from_slice(key)?;
    mac.update(message);
    Ok(mac.finalize().into_bytes().to_vec())
}

/// Encodes with `base64::encode`, the standard alphabet with padding. The
/// text is a function of the bytes alone. The length bound keeps the size
/// computation of the encoder from overflowing.
#[verifier::external_body]
fn base64_encode(bytes: &[u8]) -> (text: String)
    requires
        bytes@.len() <= 0x3000_0000,
    ensures
        text@ == base64_text(bytes@),
{
    base64::encode(bytes)
}

/// Reads the system clock with `std::time::SystemTime::now` and counts
/// the whole seconds since `UNIX_EPOCH`. `None` where the clock stands
/// before the epoch. Nothing is claimed of the value: it is the time.
#[verifier::external_body]
fn seconds_since_epoch() -> (seconds: Option<u64>) {
    match std::time::SystemTime::now().duration_since(std::time::UNIX_EPOCH) {
        Ok(elapsed) => Some(elapsed.as_secs()),
        Err(_) => None,
    }
}

/// The message that is signed for a request.
pub open spec fn canonical_message(
    method: Seq<char>,
    path: Seq<char>,
    body: Seq<char>,
    values: Seq<char>,
    expiration: nat,
) -> Seq<char> {
    method + " "@ + path + "\n"@ + body + "\n"@ + values + "\n\n"@ + decimal_text(expiration)
}

/// The authentication header up to and including `signature=`. The list of
/// signed query arguments appears only where there are `names`.
pub open spec fn header_prefix(
    api_key: Seq<char>,
    names: Option<Seq<char>>,
    expiration: nat,
) -> Seq<char> {
    match names {
        Some(listed) => "EXO2-HMAC-SHA256 credential="@ + api_key + ",signed-query-args="@
            + listed + ",expires="@ + decimal_text(expiration) + ",signature="@,
        None => "EXO2-HMAC-SHA256 credential="@ + api_key + ",expires="@ + decimal_text(
            expiration,
        ) + ",signature="@,
    }
}

/// The names that a text of joined names lists: none where it is empty.
pub open spec fn listed_names(param_args: Seq<char>) -> Option<Seq<char>> {
    if param_args.len() > 0 {
        Some(param_args)
    } else {
        None
    }
}

/// The whole authentication header.
pub open spec fn authentication_header(
    api_key: Seq<char>,
    names: Option<Seq<char>>,
    expiration: nat,
    signature: Seq<char>,
) -> Seq<char> {
    header_prefix(api_key, names, expiration) + signature
}

/// The base64 text of the HMAC-SHA256 tag of `message` under `secret`, both
/// taken in UTF-8.
pub open spec fn signature_text(secret: Seq<char>, message: Seq<char>) -> Seq<char> {
    base64_text(hmac_sha256_tag(encode_utf8(secret), encode_utf8(message)))
}

/// The names of a parameter list, in the list's order.
pub open spec fn parameter_names(params: Seq<(&str, &str)>) -> Seq<Seq<char>> {
    Seq::new(params.len(), |i: int| params[i].0@)
}

/// The values of a parameter list, in the list's order.
pub open spec fn parameter_values(params: Seq<(&str, &str)>) -> Seq<Seq<char>> {
    Seq::new(params.len(), |i: int| params[i].1@)
}

/// The text of a request body that may be absent.
pub open spec fn body_text(body: Option<&str>) -> Seq<char> {
    match body {
        Some(text) => text@,
        None => Seq::<char>::empty(),
    }
}

/// The colon-joined parameter names that the header lists: none without
/// parameters, be it that there is no list or that the list is empty.
pub open spec fn request_names(params: Option<Vec<(&str, &str)>>) -> Option<Seq<char>> {
    match params {
        Some(list) => if list@.len() > 0 {
            Some(joined_text(parameter_names(list@), ":"@))
        } else {
            None
        },
        None => None,
    }
}

/// The colon-joined parameter values that are signed.
pub open spec fn request_values(params: Option<Vec<(&str, &str)>>) -> Seq<char> {
    match params {
        Some(list) => joined_text(parameter_values(list@), ":"@),
        None => Seq::<char>::empty(),
    }
}

/// The header that authenticates a request until `expiration`: the prefix
/// that names the key, the signed arguments and the expiration, and then
/// the signature of the canonical message under the secret.
pub open spec fn signed_text(
    api_key: Seq<char>,
    api_secret: Seq<char>,
    method: Seq<char>,
    path: Seq<char>,
    body: Seq<char>,
    names: Option<Seq<char>>,
    values: Seq<char>,
    expiration: nat,
) -> Seq<char> {
    authentication_header(
        api_key,
        names,
        expiration,
        signature_text(api_secret, canonical_message(method, path, body, values, expiration)),
    )
}

/// `signed_text` of a request as `build_signature` takes it.
pub open spec fn signed_header(
    credentials: ExoscaleAPICredentials,
    method: Seq<char>,
    path: Seq<char>,
    body: Option<&str>,
    params: Option<Vec<(&str, &str)>>,
    expiration: nat,
) -> Seq<char> {
    signed_text(
        credentials.api_key@,
        credentials.api_secret@,
        method,
        path,
        body_text(body),
        request_names(params),
        request_values(params),
        expiration,
    )
}

/// The reference from an instance to what manages it.
#[derive(Clone, Debug)]
pub struct ExoscaleInstanceManager {
    /// The kind of manager, under the key `type`.
    pub manager_type: String,
    pub id: String,
}

/// One record of the API, as far as it is read: an instance, or a member of
/// a pool.
#[derive(Clone, Debug)]
pub struct ExoscaleInstance {
    pub id: String,
    pub name: String,
    pub manager: Option<ExoscaleInstanceManager>,
    /// The public address, under the key `public-ip`.
    pub ipv4_address: Option<String>,
    /// Under the key `ipv6-address`.
    pub ipv6_address: Option<String>,
}

/// A pool record: the target size and the members that exist.
#[derive(Clone, Debug)]
pub struct ExoscaleInstancePool {
    pub size: usize,
    pub instances: Vec<ExoscaleInstance>,
}

pub struct ExoscaleInstanceManagerView {
    pub manager_type: Seq<char>,
    pub id: Seq<char>,
}

pub struct ExoscaleInstanceView {
    pub id: Seq<char>,
    pub name: Seq<char>,
    pub manager: Option<ExoscaleInstanceManagerView>,
    pub ipv4_address: Option<Seq<char>>,
    pub ipv6_address: Option<Seq<char>>,
}

pub struct ExoscaleInstancePoolView {
    pub size: usize,
    pub instances: Seq<ExoscaleInstanceView>,
}

impl View for ExoscaleInstanceManager {
    type V = ExoscaleInstanceManagerView;

    open spec fn view(&self) -> ExoscaleInstanceManagerView {
        ExoscaleInstanceManagerView { manager_type: self.manager_type@, id: self.id@ }
    }
}

impl View for ExoscaleInstance {
    type V = ExoscaleInstanceView;

    open spec fn view(&self) -> ExoscaleInstanceView {
        ExoscaleInstanceView {
            id: self.id@,
            name: self.name@,
            manager: match self.manager {
                Some(manager) => Some(manager@),
                None => None,
            },
            ipv4_address: optional_text(self.ipv4_address),
            ipv6_address: optional_text(self.ipv6_address),
        }
    }
}

impl View for ExoscaleInstancePool {
    type V = ExoscaleInstancePoolView;

    open spec fn view(&self) -> ExoscaleInstancePoolView {
        ExoscaleInstancePoolView {
            size: self.size,
            instances: Seq::new(self.instances@.len(), |i: int| self.instances@[i]@),
        }
    }
}

/// What a node holds when read as a manager reference: a table with the
/// strings `type` and `id`.
pub open spec fn manager_record(node: Node) -> Option<ExoscaleInstanceManagerView> {
    if node is Table && text_field(node, "type"@) is Some && text_field(node, "id"@) is Some {
        Some(
            ExoscaleInstanceManagerView {
                manager_type: text_field(node, "type"@)->0,
                id: text_field(node, "id"@)->0,
            },
        )
    } else {
        None
    }
}

/// The manager reference of an instance record: none where the record has
/// no `manager` or has `null` there, and `None` where what is there is no
/// manager reference.
pub open spec fn manager_field(node: Node) -> Option<Option<ExoscaleInstanceManagerView>> {
    match node.entry("manager"@) {
        None => Some(None),
        Some(Node::Null) => Some(None),
        Some(inner) => match manager_record(inner) {
            Some(manager) => Some(Some(manager)),
            None => None,
        },
    }
}

/// What a node holds when read as an instance record: a table with the
/// strings `id` and `name`, and with `manager`, `public-ip` and
/// `ipv6-address` either absent or well formed.
pub open spec fn instance_record(node: Node) -> Option<ExoscaleInstanceView> {
    if node is Table && text_field(node, "id"@) is Some && text_field(node, "name"@) is Some
        && manager_field(node) is Some && optional_text_field(node, "public-ip"@) is Some
        && optional_text_field(node, "ipv6-address"@) is Some {
        Some(
            ExoscaleInstanceView {
                id: text_field(node, "id"@)->0,
                name: text_field(node, "name"@)->0,
                manager: manager_field(node)->0,
                ipv4_address: optional_text_field(node, "public-ip"@)->0,
                ipv6_address: optional_text_field(node, "ipv6-address"@)->0,
            },
        )
    } else {
        None
    }
}

/// The target size of a pool record: the integer under `size`, where it is
/// one that a `usize` holds.
pub open spec fn size_field(node: Node) -> Option<usize> {
    match node.entry("size"@) {
        Some(Node::Integer(number)) => if 0 <= number <= usize::MAX {
            Some(number as usize)
        } else {
            None
        },
        _ => None,
    }
}

/// The instance records of a list whose items are all instance records.
pub open spec fn instance_list(node: Node) -> Option<Seq<ExoscaleInstanceView>> {
    match node {
        Node::List(items) => if forall|i: int|
            0 <= i < items@.len() ==> instance_record(#[trigger] items@[i]) is Some {
            Some(Seq::new(items@.len(), |i: int| instance_record(items@[i])->0))
        } else {
            None
        },
        _ => None,
    }
}

/// The members of a pool record: the instance records under `instances`.
pub open spec fn instances_field(node: Node) -> Option<Seq<ExoscaleInstanceView>> {
    match node.entry("instances"@) {
        Some(list) => instance_list(list),
        None => None,
    }
}

/// What a node holds when read as a pool record: a table with a `size` and
/// a list of `instances`.
pub open spec fn pool_record(node: Node) -> Option<ExoscaleInstancePoolView> {
    if node is Table && size_field(node) is Some && instances_field(node) is Some {
        Some(
            ExoscaleInstancePoolView {
                size: size_field(node)->0,
                instances: instances_field(node)->0,
            },
        )
    } else {
        None
    }
}

impl ExoscaleInstanceManager {
    /// Reads a manager reference from its node.
    pub fn from_node(node: &Node) -> (record: Option<ExoscaleInstanceManager>)
        ensures
            match record {
                Some(read) => manager_record(*node) == Some(read@),
                None => manager_record(*node) is None,
            },
    {
        match node {
            Node::Table(_) => {},
            _ => {
                return None;
            },
        }
        let manager_type = match read_text(node, "type") {
            Some(text) => text,
            None => {
                return None;
            },
        };
        let id = match read_text(node, "id") {
            Some(text) => text,
            None => {
                return None;
            },
        };
        Some(ExoscaleInstanceManager { manager_type, id })
    }
}

impl ExoscaleInstance {
    /// Reads the manager reference of an instance record.
    pub fn manager_from_node(node: &Node) -> (manager: Option<Option<ExoscaleInstanceManager>>)
        ensures
            match manager {
                Some(Some(read)) => manager_field(*node) == Some(Some(read@)),
                Some(None) => manager_field(*node) == Some(None::<ExoscaleInstanceManagerView>),
                None => manager_field(*node) is None,
            },
    {
        match node.get("manager") {
            None => Some(None),
            Some(Node::Null) => Some(None),
            Some(inner) => match ExoscaleInstanceManager::from_node(inner) {
                Some(manager) => Some(Some(manager)),
                None => None,
            },
        }
    }

    /// Reads an instance record from its node.
    pub fn from_node(node: &Node) -> (record: Option<ExoscaleInstance>)
        ensures
            match record {
                Some(read) => instance_record(*node) == Some(read@),
                None => instance_record(*node) is None,
            },
    {
        match node {
            Node::Table(_) => {},
            _ => {
                return None;
            },
        }
        let id = match read_text(node, "id") {
            Some(text) => text,
            None => {
                return None;
            },
        };
        let name = match read_text(node, "name") {
            Some(text) => text,
            None => {
                return None;
            },
        };
        let manager = match ExoscaleInstance::manager_from_node(node) {
            Some(found) => found,
            None => {
                return None;
            },
        };
        let ipv4_address = match read_optional_text(node, "public-ip") {
            Some(found) => found,
            None => {
                return None;
            },
        };
        let ipv6_address = match read_optional_text(node, "ipv6-address") {
            Some(found) => found,
            None => {
                return None;
            },
        };
        Some(ExoscaleInstance { id, name, manager, ipv4_address, ipv6_address })
    }
}

impl ExoscaleInstancePool {
    /// Reads the target size of a pool record.
    pub fn size_from_node(node: &Node) -> (size: Option<usize>)
        ensures
            size == size_field(*node),
    {
        match node.get("size") {
            Some(Node::Integer(number)) => {
                if 0 <= *number && *number <= usize::MAX as i128 {
                    Some(*number as usize)
                } else {
                    None
                }
            },
            _ => None,
        }
    }

    /// Reads a list of instance records.
    pub fn instances_from_node(node: &Node) -> (instances: Option<Vec<ExoscaleInstance>>)
        ensures
            match instances {
                Some(list) => instance_list(*node) == Some(
                    Seq::new(list@.len(), |i: int| list@[i]@),
                ),
                None => instance_list(*node) is None,
            },
    {
        match node {
            Node::List(items) => {
                let mut list: Vec<ExoscaleInstance> = Vec::new();
                let mut i: usize = 0;
                while i < items.len()
                    invariant
                        *node == Node::List(*items),
                        i <= items.len(),
                        list@.len() == i,
                        forall|j: int|
                            0 <= j < i ==> instance_record(#[trigger] items@[j]) == Some(
                                list@[j]@,
                            ),
                    decreases items.len() - i,
                {
                    match ExoscaleInstance::from_node(&items[i]) {
                        Some(record) => {
                            list.push(record);
                        },
                        None => {
                            return None;
                        },
                    }
                    i = i + 1;
                }
                assert(Seq::new(list@.len(), |i: int| list@[i]@) =~= Seq::new(
                    items@.len(),
                    |i: int| instance_record(items@[i])->0,
                ));
                Some(list)
            },
            _ => None,
        }
    }

    /// Reads a pool record from its node.
    pub fn from_node(node: &Node) -> (record: Option<ExoscaleInstancePool>)
        ensures
            match record {
                Some(read) => pool_record(*node) == Some(read@),
                None => pool_record(*node) is None,
            },
    {
        match node {
            Node::Table(_) => {},
            _ => {
                return None;
            },
        }
        let size = match ExoscaleInstancePool::size_from_node(node) {
            Some(found) => found,
            None => {
                return None;
            },
        };
        let instances = match node.get("instances") {
            Some(list) => match ExoscaleInstancePool::instances_from_node(list) {
                Some(found) => found,
                None => {
                    return None;
                },
            },
            None => {
                return None;
            },
        };
        Some(ExoscaleInstancePool { size, instances })
    }
}

/// When a signature expires that is made at a clock reading and stays
/// valid for `timeout` seconds: the sum of the two. Without a reading, or
/// with a sum that a `u64` cannot hold, there is no such time.
pub open spec fn expiration_time(reading: Option<u64>, timeout: u64) -> Result<
    u64,
    CloudProviderError,
> {
    match reading {
        Some(now) => if now + timeout <= u64::MAX {
            Ok((now + timeout) as u64)
        } else {
            Err(CloudProviderError::AuthenticationError)
        },
        None => Err(CloudProviderError::AuthenticationError),
    }
}

/// Computes when a signature expires that is made at a clock reading.
pub fn expiration_from_clock(reading: Option<u64>, timeout: u64) -> (expiration: Result<
    u64,
    CloudProviderError,
>)
    ensures
        expiration == expiration_time(reading, timeout),
{
    match reading {
        Some(now) => match now.checked_add(timeout) {
            Some(expires) => Ok(expires),
            None => Err(CloudProviderError::AuthenticationError),
        },
        None => Err(CloudProviderError::AuthenticationError),
    }
}

/// The time, in seconds since the epoch, at which a signature made now
/// with a validity of `timeout` seconds expires. Whatever the clock says,
/// the outcome is `expiration_time` of some reading or of none: a time
/// that comes back lies at least `timeout` seconds after the epoch, and a
/// failure is an `AuthenticationError`.
pub fn build_expiration_timestamp(timeout: u64) -> (expiration: Result<u64, CloudProviderError>)
    ensures
        exists|reading: Option<u64>| expiration == expiration_time(reading, timeout),
        match expiration {
            Ok(expires) => expires >= timeout,
            Err(error) => error == CloudProviderError::AuthenticationError,
        },
{
    let reading = seconds_since_epoch();
    expiration_from_clock(reading, timeout)
}

/// The view of a text that may be absent.
pub open spec fn optional_names(names: Option<&str>) -> Option<Seq<char>> {
    match names {
        Some(listed) => Some(listed@),
        None => None,
    }
}

/// Writes the authentication header from its parts. The signed query
/// arguments are listed exactly where there are `names`, even empty ones.
pub fn write_authentication_header(
    api_key: &str,
    names: Option<&str>,
    expiration: u64,
    signature: String,
) -> (header: String)
    ensures
        header@ == authentication_header(
            api_key@,
            optional_names(names),
            expiration as nat,
            signature@,
        ),
{
    let mut header = String::from_str("EXO2-HMAC-SHA256 credential=");
    header.append(api_key);
    match names {
        Some(listed) => {
            header.append(",signed-query-args=");
            header.append(listed);
        },
        None => {},
    }
    header.append(",expires=");
    header.append(decimal(expiration).as_str());
    header.append(",signature=");
    header.append(signature.as_str());
    header
}

/// Writes the authentication header from its parts, where the signed query
/// arguments come as one text: they are listed where the text is not
/// empty.
pub fn build_authentication_header(
    api_key: &str,
    param_args: &str,
    expiration: u64,
    signature: String,
) -> (header: String)
    ensures
        header@ == authentication_header(
            api_key@,
            listed_names(param_args@),
            expiration as nat,
            signature@,
        ),
{
    if param_args.is_empty() {
        write_authentication_header(api_key, None, expiration, signature)
    } else {
        write_authentication_header(api_key, Some(param_args), expiration, signature)
    }
}

/// Splits a parameter list into its names and its values in one pass, so
/// that the name and the value at one index belong to one parameter. A
/// name that stands twice in the list stands twice among the names, and
/// each of its values stands in its place among the values.
pub fn split_parameters(params: &Vec<(&str, &str)>) -> (lists: (Vec<String>, Vec<String>))
    ensures
        texts_of(lists.0@) == parameter_names(params@),
        texts_of(lists.1@) == parameter_values(params@),
        lists.0@.len() == params@.len(),
        lists.1@.len() == params@.len(),
        forall|i: int|
            0 <= i < params@.len() ==> lists.0@[i]@ == params@[i].0@ && lists.1@[i]@
                == params@[i].1@,
{
    let mut names: Vec<String> = Vec::new();
    let mut values: Vec<String> = Vec::new();
    let mut i: usize = 0;
    while i < params.len()
        invariant
            i <= params.len(),
            names@.len() == i,
            values@.len() == i,
            forall|j: int|
                0 <= j < i ==> names@[j]@ == params@[j].0@ && values@[j]@ == params@[j].1@,
        decreases params.len() - i,
    {
        let (name, value) = params[i];
        names.push(String::from_str(name));
        values.push(String::from_str(value));
        i = i + 1;
    }
    assert(texts_of(names@) =~= parameter_names(params@));
    assert(texts_of(values@) =~= parameter_values(params@));
    (names, values)
}

/// Writes the message that is signed for a request.
pub fn build_canonical_message(
    method: &str,
    path: &str,
    body: &str,
    values: &str,
    expiration: u64,
) -> (message: String)
    ensures
        message@ == canonical_message(method@, path@, body@, values@, expiration as nat),
{
    let mut message = String::from_str(method);
    message.append(" ");
    message.append(path);
    message.append("\n");
    message.append(body);
    message.append("\n");
    message.append(values);
    message.append("\n\n");
    message.append(decimal(expiration).as_str());
    message
}

/// Signs a request that expires at `expiration`. There is always a
/// header: it is `signed_header` of the arguments.
pub fn sign_request(
    credentials: ExoscaleAPICredentials,
    method: &str,
    path: String,
    body: Option<&str>,
    params: Option<Vec<(&str, &str)>>,
    expiration: u64,
) -> (header: Result<String, CloudProviderError>)
    ensures
        header is Ok,
        header->Ok_0@ == signed_header(
            credentials,
            method@,
            path@,
            body,
            params,
            expiration as nat,
        ),
{
    let text = match body {
        Some(text) => text,
        None => "",
    };
    let (names, values) = match &params {
        Some(list) => split_parameters(list),
        None => (Vec::new(), Vec::new()),
    };
    let param_args = join(&names, ":");
    let param_values = join(&values, ":");
    proof {
        reveal_strlit("");
        assert(text@ =~= body_text(body));
        assert(param_values@ =~= request_values(params));
    }
    let message = build_canonical_message(
        method,
        path.as_str(),
        text,
        param_values.as_str(),
        expiration,
    );
    match hmac_sha256(credentials.api_secret.as_str().as_bytes(), message.as_str().as_bytes()) {
        Ok(tag) => {
            let signature = base64_encode(tag.as_slice());
            let listed = if names.len() > 0 {
                Some(param_args.as_str())
            } else {
                None
            };
            assert(optional_names(listed) == request_names(params));
            Ok(
                write_authentication_header(
                    credentials.api_key.as_str(),
                    listed,
                    expiration,
                    signature,
                ),
            )
        },
        Err(_) => Err(CloudProviderError::AuthenticationError),
    }
}

/// What `build_signature` returns when the clock reads `reading`: the
/// header that expires `SIGNATURE_VALIDITY_SECS` later, or an
/// `AuthenticationError` where there is no such time.
pub open spec fn signature_at(
    credentials: ExoscaleAPICredentials,
    method: Seq<char>,
    path: Seq<char>,
    body: Option<&str>,
    params: Option<Vec<(&str, &str)>>,
    reading: Option<u64>,
) -> Result<Seq<char>, CloudProviderError> {
    match expiration_time(reading, SIGNATURE_VALIDITY_SECS) {
        Ok(expiration) => Ok(
            signed_header(credentials, method, path, body, params, expiration as nat),
        ),
        Err(error) => Err(error),
    }
}

/// Signs a request with a validity of `SIGNATURE_VALIDITY_SECS` from now.
/// Whatever the clock says, the outcome is `signature_at` of the arguments
/// and of some clock reading or of none.
pub fn build_signature(
    credentials: ExoscaleAPICredentials,
    method: &str,
    path: String,
    body: Option<&str>,
    params: Option<Vec<(&str, &str)>>,
) -> (header: Result<String, CloudProviderError>)
    ensures
        exists|reading: Option<u64>|
            signature_at(credentials, method@, path@, body, params, reading) == match header {
                Ok(text) => Ok::<Seq<char>, CloudProviderError>(text@),
                Err(error) => Err::<Seq<char>, CloudProviderError>(error),
            },
{
    let reading = seconds_since_epoch();
    let header = match expiration_from_clock(reading, SIGNATURE_VALIDITY_SECS) {
        Ok(expiration) => sign_request(credentials, method, path, body, params, expiration),
        Err(error) => Err(error),
    };
    assert(signature_at(credentials, method@, path@, body, params, reading) == match header {
        Ok(text) => Ok::<Seq<char>, CloudProviderError>(text@),
        Err(error) => Err::<Seq<char>, CloudProviderError>(error),
    });
    header
}

/// Determinism: two requests whose credentials, bodies and parameters read
/// the same get the same header, character by character, whenever they
/// expire at the same time.
pub proof fn lemma_signature_is_deterministic(
    first: ExoscaleAPICredentials,
    second: ExoscaleAPICredentials,
    method: Seq<char>,
    path: Seq<char>,
    first_body: Option<&str>,
    second_body: Option<&str>,
    first_params: Option<Vec<(&str, &str)>>,
    second_params: Option<Vec<(&str, &str)>>,
    expiration: nat,
)
    requires
        first.api_key@ == second.api_key@,
        first.api_secret@ == second.api_secret@,
        body_text(first_body) == body_text(second_body),
        request_names(first_params) == request_names(second_params),
        request_values(first_params) == request_values(second_params),
    ensures
        signed_header(first, method, path, first_body, first_params, expiration) == signed_header(
            second,
            method,
            path,
            second_body,
            second_params,
            expiration,
        ),
{
}

/// The secret shows in the signature field alone: two headers for one
/// request under two secrets share everything up to and including
/// `signature=`, and what follows in each is the signature of one and the
/// same message under its secret.
pub proof fn lemma_secret_changes_signature_only(
    api_key: Seq<char>,
    first_secret: Seq<char>,
    second_secret: Seq<char>,
    method: Seq<char>,
    path: Seq<char>,
    body: Seq<char>,
    names: Option<Seq<char>>,
    values: Seq<char>,
    expiration: nat,
)
    ensures
        signed_text(api_key, first_secret, method, path, body, names, values, expiration)
            == header_prefix(api_key, names, expiration) + signature_text(
            first_secret,
            canonical_message(method, path, body, values, expiration),
        ),
        signed_text(api_key, second_secret, method, path, body, names, values, expiration)
            == header_prefix(api_key, names, expiration) + signature_text(
            second_secret,
            canonical_message(method, path, body, values, expiration),
        ),
{
}

/// A header comes back whenever the clock yields a time, whatever the key,
/// the secret and the request are.
pub proof fn lemma_signature_is_owed(
    credentials: ExoscaleAPICredentials,
    method: Seq<char>,
    path: Seq<char>,
    body: Option<&str>,
    params: Option<Vec<(&str, &str)>>,
    reading: Option<u64>,
)
    ensures
        signature_at(credentials, method, path, body, params, reading) is Ok <==> reading is Some
            && reading->0 + SIGNATURE_VALIDITY_SECS <= u64::MAX,
        signature_at(credentials, method, path, body, params, reading) is Err ==> signature_at(
            credentials,
            method,
            path,
            body,
            params,
            reading,
        ) == Err::<Seq<char>, CloudProviderError>(CloudProviderError::AuthenticationError),
{
}

/// Parameter correspondence: the name and the value that stand at one
/// index of the two lists belong to one parameter, the one at that index.
pub proof fn lemma_parameters_correspond(params: Seq<(&str, &str)>, i: int)
    requires
        0 <= i < params.len(),
    ensures
        parameter_names(params).len() == params.len(),
        parameter_values(params).len() == params.len(),
        parameter_names(params)[i] == params[i].0@,
        parameter_values(params)[i] == params[i].1@,
{
}

} // verus!
