//! Access-control storage: the checking abstraction, an in-memory
//! implementation with explicit denials, and the registry-backed
//! implementation, written as the decision steps around its two ledger calls.

use vstd::prelude::*;
use crate::abi::{bool_word, check_permissions_call_data, decoded_bool, decode_check_permissions, encode_check_permissions};

verus! {

/// Public key of a requester: an uncompressed secp256k1 point without its prefix byte.
pub type Public = [u8; 64];

/// Identifier of a protected document (a 32-byte hash).
pub type DocumentAddress = [u8; 32];

/// Account address, as the registry contract expects it.
pub type Address = [u8; 20];

/// Symbolic name under which the permission registry contract is registered.
pub const ACL_CHECKER_CONTRACT_REGISTRY_NAME: &'static str = "secretstore_acl_checker";

/// The account address that belongs to a public key.
pub uninterp spec fn account_of(public: Seq<u8>) -> Seq<u8>;

/// Relies on `ethkey::PublicKey::from_slice`, which accepts any 64 bytes, and
/// on its `address`: the address is a function of the key alone.
#[verifier::external_body]
fn public_to_address(public: &Public) -> (r: Address)
    ensures
        r@ == account_of(public@),
{
    *ethkey::PublicKey::from_slice(&public[..]).expect("a public key has 64 bytes").address()
}

/// Failure of an access check (never a denial, which is `Ok(false)`).
#[derive(Debug)]
pub enum Error {
    /// Resolution, transport or decoding failure, with a readable message.
    Internal(String),
}

/// Access-control storage of the secret store.
pub trait AclStorage: Send + Sync {
    /// Whether the requester with key `public` may access `document`.
    fn check(&self, public: &Public, document: &DocumentAddress) -> Result<bool, Error>;
}

/// Whether two byte arrays hold the same bytes.
fn same_bytes<const N: usize>(a: &[u8; N], b: &[u8; N]) -> (r: bool)
    ensures
        r == (a@ == b@),
{
    let mut i: usize = 0;
    while i < N
        invariant
            0 <= i <= N,
            a@.len() == N,
            b@.len() == N,
            forall|j: int| 0 <= j < i ==> a@[j] == b@[j],
        decreases N - i,
    {
        if a[i] != b[i] {
            return false;
        }
        i = i + 1;
    }
    assert(a@ =~= b@);
    true
}

/// Whether a set of denied (key, document) pairs lets `public` read `document`.
pub open spec fn permits(denied: Set<(Seq<u8>, Seq<u8>)>, public: Seq<u8>, document: Seq<u8>) -> bool {
    !denied.contains((public, document))
}

/// In-memory storage: every requester may read every document, except the
/// pairs that were explicitly prohibited.
pub struct DummyAclStorage {
    prohibited: Vec<(Public, DocumentAddress)>,
}

impl View for DummyAclStorage {
    type V = Set<(Seq<u8>, Seq<u8>)>;

    /// The prohibited (key, document) pairs.
    closed spec fn view(&self) -> Set<(Seq<u8>, Seq<u8>)> {
        Set::new(
            |x: (Seq<u8>, Seq<u8>)|
                exists|i: int|
                    0 <= i < self.prohibited@.len() && x == (
                    self.prohibited@[i].0@,
                    self.prohibited@[i].1@,
                    ),
        )
    }
}

impl DummyAclStorage {
    /// Storage with nothing prohibited.
    pub fn new() -> (r: DummyAclStorage)
        ensures
            r@ == Set::<(Seq<u8>, Seq<u8>)>::empty(),
    {
        let r = DummyAclStorage { prohibited: Vec::new() };
        assert(r@ =~= Set::<(Seq<u8>, Seq<u8>)>::empty());
        r
    }

    /// Prohibits the requester with key `public` from accessing `document`.
    pub fn prohibit(&mut self, public: Public, document: DocumentAddress)
        ensures
            final(self)@ == old(self)@.insert((public@, document@)),
    {
        self.prohibited.push((public, document));
        let ghost n = old(self).prohibited@.len();
        assert forall|x: (Seq<u8>, Seq<u8>)| #[trigger] self@.contains(x) == old(self)@.insert(
            (public@, document@),
        ).contains(x) by {
            if old(self)@.contains(x) {
                let i = choose|i: int|
                    0 <= i < old(self).prohibited@.len() && x == (
                    old(self).prohibited@[i].0@,
                    old(self).prohibited@[i].1@,
                    );
                assert(self.prohibited@[i] == old(self).prohibited@[i]);
            }
            if x == (public@, document@) {
                assert(self.prohibited@[n as int] == (public, document));
            }
            if self@.contains(x) {
                let i = choose|i: int|
                    0 <= i < self.prohibited@.len() && x == (
                    self.prohibited@[i].0@,
                    self.prohibited@[i].1@,
                    );
                if i < n {
                    assert(self.prohibited@[i] == old(self).prohibited@[i]);
                }
            }
        }
        assert(self@ =~= old(self)@.insert((public@, document@)));
    }

    /// Whether the requester with key `public` may access `document`: always
    /// succeeds, and allows unless the pair was prohibited.
    pub fn check(&self, public: &Public, document: &DocumentAddress) -> (r: Result<bool, Error>)
        ensures
            r == Ok::<bool, Error>(permits(self@, public@, document@)),
    {
        let mut i: usize = 0;
        while i < self.prohibited.len()
            invariant
                0 <= i <= self.prohibited@.len(),
                forall|j: int|
                    0 <= j < i ==> !(self.prohibited@[j].0@ == public@ && self.prohibited@[j].1@
                        == document@),
            decreases self.prohibited@.len() - i,
        {
            let pair = &self.prohibited[i];
            if same_bytes(&pair.0, public) && same_bytes(&pair.1, document) {
                assert(self@.contains((public@, document@)));
                return Ok(false);
            }
            i = i + 1;
        }
        assert(!self@.contains((public@, document@)));
        Ok(true)
    }
}

impl Default for DummyAclStorage {
    fn default() -> (r: DummyAclStorage)
        ensures
            r@ == Set::<(Seq<u8>, Seq<u8>)>::empty(),
    {
        DummyAclStorage::new()
    }
}

impl AclStorage for DummyAclStorage {
    fn check(&self, public: &Public, document: &DocumentAddress) -> Result<bool, Error> {
        DummyAclStorage::check(self, public, document)
    }
}

/// An empty denial set permits everything; a denial forbids exactly its own
/// pair and leaves every other pair as it was.
pub proof fn lemma_denial_is_isolated(
    denied: Set<(Seq<u8>, Seq<u8>)>,
    public: Seq<u8>,
    document: Seq<u8>,
    other_public: Seq<u8>,
    other_document: Seq<u8>,
)
    ensures
        permits(Set::empty(), public, document),
        !permits(denied.insert((public, document)), public, document),
        (other_public, other_document) != (public, document) ==> permits(
            denied.insert((public, document)),
            other_public,
            other_document,
        ) == permits(denied, other_public, other_document),
{
}

/// The permission registry contract, once its address is known.
#[derive(Debug)]
pub struct Contract {
    /// Address of the registry contract.
    pub address: Address,
}

/// A read-only call to make against the latest ledger state.
#[derive(Debug)]
pub struct ContractCall {
    /// Contract to call.
    pub address: Address,
    /// ABI-encoded call data.
    pub data: Vec<u8>,
}

/// What a registry-backed check needs next.
#[derive(Debug)]
pub enum CheckStep {
    /// Resolve `ACL_CHECKER_CONTRACT_REGISTRY_NAME` through the ledger's
    /// name registry, and hand the answer to `check_resolved`.
    ResolveRegistry,
    /// Make this call, and hand its output to `check_returned`.
    CallContract(ContractCall),
    /// The check is over, with this result.
    Done(Result<bool, Error>),
}

/// Whether `step` is the permission query for `public` and `document` made
/// against the contract at `address`.
pub open spec fn is_query(step: CheckStep, address: Address, public: Seq<u8>, document: Seq<u8>) -> bool {
    match step {
        CheckStep::CallContract(call) => call.address == address && call.data@
            == check_permissions_call_data(account_of(public), document),
        _ => false,
    }
}

/// Message of the error that ends a check while the registry name does not resolve.
pub open spec fn not_configured_message() -> Seq<char> {
    "ACL checker contract is not configured"@
}

/// Whether a check with this binding must first resolve the registry's address.
pub open spec fn needs_resolution(binding: Option<Address>) -> bool {
    binding is None
}

/// The binding after a resolution attempt answered `resolved`: a binding, once
/// made, is kept for good; an empty one takes whatever the registry answered.
pub open spec fn next_binding(binding: Option<Address>, resolved: Option<Address>) -> Option<Address> {
    match binding {
        Some(address) => Some(address),
        None => resolved,
    }
}

/// What a check returns once the contract call came back with `output`.
pub open spec fn returned_result(output: Result<Vec<u8>, String>, r: Result<bool, Error>) -> bool {
    match output {
        Err(e) => r == Err::<bool, Error>(Error::Internal(e)),
        Ok(data) => match decoded_bool(data@) {
            Some(allowed) => r == Ok::<bool, Error>(allowed),
            None => r is Err,
        },
    }
}

impl Contract {
    /// The registry contract at `address`.
    pub fn new(address: Address) -> (r: Contract)
        ensures
            r.address == address,
    {
        Contract { address }
    }

    /// The call that asks whether account `user` may access `document`.
    pub fn check_permissions(&self, user: &Address, document: &DocumentAddress) -> (r: ContractCall)
        ensures
            r.address == self.address,
            r.data@ == check_permissions_call_data(user@, document@),
            r.data@.len() == 68,
    {
        ContractCall { address: self.address, data: encode_check_permissions(user, document) }
    }

    /// The answer carried by the output of a `check_permissions` call; a
    /// transport error is passed on as it came.
    pub fn check_permissions_output(output: Result<Vec<u8>, String>) -> (r: Result<bool, String>)
        ensures
            match output {
                Err(e) => r == Err::<bool, String>(e),
                Ok(data) => match decoded_bool(data@) {
                    Some(allowed) => r == Ok::<bool, String>(allowed),
                    None => r is Err,
                },
            },
    {
        match output {
            Err(e) => Err(e),
            Ok(data) => decode_check_permissions(&data),
        }
    }
}

/// Registry-backed storage: the registry contract's address is resolved on
/// the first check and kept from then on. Each check runs as a short exchange
/// with the ledger: `check_begin`, then `check_resolved` when asked to
/// resolve, then `check_returned` with the output of the call. A caller that
/// shares one instance between threads holds one lock over the whole exchange.
pub struct OnChainAclStorage {
    contract: Option<Contract>,
}

impl OnChainAclStorage {
    /// Address of the registry contract, once resolved.
    pub closed spec fn binding(&self) -> Option<Address> {
        match self.contract {
            Some(contract) => Some(contract.address),
            None => None,
        }
    }

    /// Storage whose registry has not been resolved yet.
    pub fn new() -> (r: OnChainAclStorage)
        ensures
            r.binding() is None,
    {
        OnChainAclStorage { contract: None }
    }

    /// The query for `public` and `document`, against the bound contract.
    fn query(contract: &Contract, public: &Public, document: &DocumentAddress) -> (r: CheckStep)
        ensures
            is_query(r, contract.address, public@, document@),
    {
        let user = public_to_address(public);
        CheckStep::CallContract(contract.check_permissions(&user, document))
    }

    /// First step of a check: resolve the registry when no contract is bound,
    /// else query the bound contract.
    pub fn check_begin(&self, public: &Public, document: &DocumentAddress) -> (r: CheckStep)
        ensures
            needs_resolution(self.binding()) ==> r is ResolveRegistry,
            !needs_resolution(self.binding()) ==> is_query(
                r,
                self.binding()->Some_0,
                public@,
                document@,
            ),
    {
        match &self.contract {
            Some(contract) => OnChainAclStorage::query(contract, public, document),
            None => CheckStep::ResolveRegistry,
        }
    }

    /// Step of a check after the registry name was looked up with answer
    /// `resolved`: bind the contract, then query it; with nothing to bind, the
    /// check fails and the next check tries the lookup again.
    pub fn check_resolved(
        &mut self,
        resolved: Option<Address>,
        public: &Public,
        document: &DocumentAddress,
    ) -> (r: CheckStep)
        ensures
            final(self).binding() == next_binding(old(self).binding(), resolved),
            match final(self).binding() {
                Some(address) => is_query(r, address, public@, document@),
                None => match r {
                    CheckStep::Done(Err(Error::Internal(m))) => m@ == not_configured_message(),
                    _ => false,
                },
            },
    {
        if self.contract.is_none() {
            self.contract = match resolved {
                Some(address) => Some(Contract::new(address)),
                None => None,
            };
        }
        match &self.contract {
            Some(contract) => OnChainAclStorage::query(contract, public, document),
            None => CheckStep::Done(
                Err(Error::Internal("ACL checker contract is not configured".to_owned())),
            ),
        }
    }

    /// Last step of a check: the result carried by the contract call's output.
    pub fn check_returned(&self, output: Result<Vec<u8>, String>) -> (r: Result<bool, Error>)
        ensures
            returned_result(output, r),
    {
        match Contract::check_permissions_output(output) {
            Ok(allowed) => Ok(allowed),
            Err(e) => Err(Error::Internal(e)),
        }
    }
}

/// While the registry name does not resolve, the binding stays empty, so the
/// next check asks for resolution again and ends in the same error; the first
/// answer that names an address binds exactly that address.
pub proof fn lemma_unresolved_registry_is_retried(resolved: Address)
    ensures
        needs_resolution(next_binding(None, None)),
        next_binding(None, Some(resolved)) == Some(resolved),
{
}

/// Once a contract is bound, no check asks for resolution again, and no
/// answer of the registry changes the binding.
pub proof fn lemma_binding_is_kept(binding: Option<Address>, resolved: Option<Address>)
    requires
        binding is Some,
    ensures
        !needs_resolution(binding),
        next_binding(binding, resolved) == binding,
{
}

/// The registry-backed check decides as the in-memory storage does: when the
/// registry answers the query for `public` and `document` with the word of
/// `permits(denied, account, document)`, for the account of `public`, the
/// check returns exactly that decision, and no error.
pub proof fn lemma_registry_mirrors_denials(
    denied: Set<(Seq<u8>, Seq<u8>)>,
    public: Seq<u8>,
    document: Seq<u8>,
    output: Vec<u8>,
    r: Result<bool, Error>,
)
    requires
        output@ == bool_word(permits(denied, account_of(public), document)),
        returned_result(Ok(output), r),
    ensures
        r == Ok::<bool, Error>(permits(denied, account_of(public), document)),
{
}

} // verus!
