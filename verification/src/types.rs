//! The values that travel between a pool server and its workers.

use bytes::Bytes;
use uuid::Uuid;
use vstd::prelude::*;

verus! {

/// An immutable byte buffer of the `bytes` crate, opaque to the verifier.
#[verifier::external_type_specification]
#[verifier::external_body]
pub struct ExBytes(bytes::Bytes);

/// A 128-bit identifier of the `uuid` crate, carried through unread.
#[verifier::external_type_specification]
#[verifier::external_body]
pub struct ExUuid(uuid::Uuid);

/// The bytes that a `Bytes` buffer holds, in order.
pub uninterp spec fn bytes_contents(b: Bytes) -> Seq<u8>;

/// `Bytes::new`: a buffer that holds no byte.
#[verifier::external_body]
pub(crate) fn bytes_empty() -> (b: Bytes)
    ensures
        bytes_contents(b) == Seq::<u8>::empty(),
{
    Bytes::new()
}

/// `Bytes::from(Vec<u8>)`: a buffer that holds the bytes of the vector.
#[verifier::external_body]
pub(crate) fn bytes_from_vec(v: Vec<u8>) -> (b: Bytes)
    ensures
        bytes_contents(b) == v@,
{
    Bytes::from(v)
}

/// `Bytes::clone`: a second handle on the same bytes.
pub assume_specification[ <bytes::Bytes as Clone>::clone ](b: &Bytes) -> (r: Bytes)
    ensures
        bytes_contents(r) == bytes_contents(*b),
;

/// `Uuid::clone`: the identifier itself, which is a plain copy.
pub assume_specification[ <uuid::Uuid as Clone>::clone ](u: &Uuid) -> (r: Uuid)
    ensures
        r == *u,
;

/// Which of the two difficulty thresholds a solution claims to meet.
#[derive(Debug, Clone, Copy, PartialEq, Eq, Structural)]
pub enum Target {
    Network,
    Pool,
}

/// What the authentication collaborator knows of an accepted credential.
#[derive(Debug)]
pub struct AccountInformation {
    pub user_uuid: Uuid,
}

impl Clone for AccountInformation {
    fn clone(&self) -> (r: Self)
        ensures
            r == *self,
    {
        AccountInformation { user_uuid: self.user_uuid.clone() }
    }
}

/// One unit of work, as the server issues it.
#[derive(Debug, PartialEq)]
pub struct Template {
    pub version: Bytes,
    pub commit: Bytes,
    pub network_target: Bytes,
    pub pool_target: Bytes,
    pub pow_len: Bytes,
}

/// The mathematical value of a `Template`.
pub struct TemplateView {
    pub version: Seq<u8>,
    pub commit: Seq<u8>,
    pub network_target: Seq<u8>,
    pub pool_target: Seq<u8>,
    pub pow_len: Seq<u8>,
}

impl View for Template {
    type V = TemplateView;

    open spec fn view(&self) -> TemplateView {
        TemplateView {
            version: bytes_contents(self.version),
            commit: bytes_contents(self.commit),
            network_target: bytes_contents(self.network_target),
            pool_target: bytes_contents(self.pool_target),
            pow_len: bytes_contents(self.pow_len),
        }
    }
}

impl Clone for Template {
    fn clone(&self) -> (r: Self)
        ensures
            r@ == self@,
    {
        Template {
            version: self.version.clone(),
            commit: self.commit.clone(),
            network_target: self.network_target.clone(),
            pool_target: self.pool_target.clone(),
            pow_len: self.pow_len.clone(),
        }
    }
}

impl Template {
    pub fn new(
        version: Bytes,
        commit: Bytes,
        network_target: Bytes,
        pool_target: Bytes,
        pow_len: Bytes,
    ) -> (t: Self)
        ensures
            t.version == version,
            t.commit == commit,
            t.network_target == network_target,
            t.pool_target == pool_target,
            t.pow_len == pow_len,
    {
        Self { version, commit, network_target, pool_target, pow_len }
    }

    /// The placeholder that stands for "no work yet": every field empty.
    pub fn placeholder() -> (t: Self)
        ensures
            t@ == TemplateView::empty(),
    {
        Self {
            version: bytes_empty(),
            commit: bytes_empty(),
            network_target: bytes_empty(),
            pool_target: bytes_empty(),
            pow_len: bytes_empty(),
        }
    }
}

impl TemplateView {
    pub open spec fn empty() -> TemplateView {
        TemplateView {
            version: Seq::empty(),
            commit: Seq::empty(),
            network_target: Seq::empty(),
            pool_target: Seq::empty(),
            pow_len: Seq::empty(),
        }
    }
}

/// One candidate solution, as a worker reports it.
#[derive(Debug, PartialEq)]
pub struct Submission {
    pub target_type: Target,
    pub commit: Bytes,
    pub digest: Bytes,
    pub proof: Bytes,
}

/// The mathematical value of a `Submission`.
pub struct SubmissionView {
    pub target_type: Target,
    pub commit: Seq<u8>,
    pub digest: Seq<u8>,
    pub proof: Seq<u8>,
}

impl View for Submission {
    type V = SubmissionView;

    open spec fn view(&self) -> SubmissionView {
        SubmissionView {
            target_type: self.target_type,
            commit: bytes_contents(self.commit),
            digest: bytes_contents(self.digest),
            proof: bytes_contents(self.proof),
        }
    }
}

impl Clone for Submission {
    fn clone(&self) -> (r: Self)
        ensures
            r@ == self@,
    {
        Submission {
            target_type: self.target_type,
            commit: self.commit.clone(),
            digest: self.digest.clone(),
            proof: self.proof.clone(),
        }
    }
}

impl Submission {
    pub fn new(target_type: Target, commit: Bytes, digest: Bytes, proof: Bytes) -> (s: Self)
        ensures
            s.target_type == target_type,
            s.commit == commit,
            s.digest == digest,
            s.proof == proof,
    {
        Self { target_type, commit, digest, proof }
    }
}

/// The server's verdict on one submission.
#[derive(Debug, PartialEq)]
pub struct SubmissionResponse {
    pub accepted: bool,
    pub digest: Bytes,
    pub message: String,
}

/// The mathematical value of a `SubmissionResponse`.
pub struct SubmissionResponseView {
    pub accepted: bool,
    pub digest: Seq<u8>,
    pub message: Seq<char>,
}

impl View for SubmissionResponse {
    type V = SubmissionResponseView;

    open spec fn view(&self) -> SubmissionResponseView {
        SubmissionResponseView {
            accepted: self.accepted,
            digest: bytes_contents(self.digest),
            message: self.message@,
        }
    }
}

impl Clone for SubmissionResponse {
    fn clone(&self) -> (r: Self)
        ensures
            r@ == self@,
    {
        SubmissionResponse {
            accepted: self.accepted,
            digest: self.digest.clone(),
            message: self.message.clone(),
        }
    }
}

impl SubmissionResponse {
    pub fn new(accepted: bool, digest: Bytes, message: String) -> (r: Self)
        ensures
            r.accepted == accepted,
            r.digest == digest,
            r.message == message,
    {
        Self { accepted, digest, message }
    }
}

/// Static facts about a worker's machine, sent once per connection.
#[derive(Debug)]
pub struct DeviceInfo {
    pub os: String,
    pub cpu_model: String,
    pub ram_capacity_gb: u64,
}

/// The mathematical value of a `DeviceInfo`.
pub struct DeviceInfoView {
    pub os: Seq<char>,
    pub cpu_model: Seq<char>,
    pub ram_capacity_gb: u64,
}

impl Clone for DeviceInfo {
    fn clone(&self) -> (r: Self)
        ensures
            r@ == self@,
    {
        DeviceInfo {
            os: self.os.clone(),
            cpu_model: self.cpu_model.clone(),
            ram_capacity_gb: self.ram_capacity_gb,
        }
    }
}

impl View for DeviceInfo {
    type V = DeviceInfoView;

    open spec fn view(&self) -> DeviceInfoView {
        DeviceInfoView {
            os: self.os@,
            cpu_model: self.cpu_model@,
            ram_capacity_gb: self.ram_capacity_gb,
        }
    }
}

} // verus!
