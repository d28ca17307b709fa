use vstd::prelude::*;

use crate::records::{CreateTokenMint, ErrorCode, Initialize, MintRecord, MintToken, TokenConfig};
use crate::resolver::{derived_of, index_le_bytes, resolve_address, u64_le_bytes};

verus! {

/// Bytes of the namespace tag "config", which locates the configuration
/// record and names the signing authority.
pub open spec fn config_tag_spec() -> Seq<u8> {
    seq![99u8, 111u8, 110u8, 102u8, 105u8, 103u8]
}

/// Bytes of the namespace tag "token_mint", which locates the fungible
/// unit's mint.
pub open spec fn token_mint_tag_spec() -> Seq<u8> {
    seq![116u8, 111u8, 107u8, 101u8, 110u8, 95u8, 109u8, 105u8, 110u8, 116u8]
}

/// Bytes of the namespace tag "mint_record", under which each audit record
/// is addressed.
pub open spec fn mint_record_tag_spec() -> Seq<u8> {
    seq![109u8, 105u8, 110u8, 116u8, 95u8, 114u8, 101u8, 99u8, 111u8, 114u8, 100u8]
}

/// The tag "config" as bytes.
pub fn config_tag() -> (r: Vec<u8>)
    ensures
        r@ == config_tag_spec(),
{
    let mut r: Vec<u8> = Vec::new();
    r.push(99u8);
    r.push(111u8);
    r.push(110u8);
    r.push(102u8);
    r.push(105u8);
    r.push(103u8);
    proof {
        assert(r@ =~= config_tag_spec());
    }
    r
}

/// The tag "token_mint" as bytes.
pub fn token_mint_tag() -> (r: Vec<u8>)
    ensures
        r@ == token_mint_tag_spec(),
{
    let mut r: Vec<u8> = Vec::new();
    r.push(116u8);
    r.push(111u8);
    r.push(107u8);
    r.push(101u8);
    r.push(110u8);
    r.push(95u8);
    r.push(109u8);
    r.push(105u8);
    r.push(110u8);
    r.push(116u8);
    proof {
        assert(r@ =~= token_mint_tag_spec());
    }
    r
}

/// The tag "mint_record" as bytes.
pub fn mint_record_tag() -> (r: Vec<u8>)
    ensures
        r@ == mint_record_tag_spec(),
{
    let mut r: Vec<u8> = Vec::new();
    r.push(109u8);
    r.push(105u8);
    r.push(110u8);
    r.push(116u8);
    r.push(95u8);
    r.push(114u8);
    r.push(101u8);
    r.push(99u8);
    r.push(111u8);
    r.push(114u8);
    r.push(100u8);
    proof {
        assert(r@ =~= mint_record_tag_spec());
    }
    r
}

/// Byte-for-byte equality of two byte vectors.
pub fn bytes_eq(a: &Vec<u8>, b: &Vec<u8>) -> (r: bool)
    ensures
        r == (a@ == b@),
{
    if a.len() != b.len() {
        return false;
    }
    let mut i: usize = 0;
    while i < a.len()
        invariant
            i <= a@.len(),
            a@.len() == b@.len(),
            forall|j: int| 0 <= j < i ==> a@[j] == b@[j],
        decreases a@.len() - i,
    {
        if a[i] != b[i] {
            return false;
        }
        i += 1;
    }
    proof {
        assert(a@ =~= b@);
    }
    true
}

/// A fresh byte vector with the same contents.
pub fn copy_bytes(a: &Vec<u8>) -> (r: Vec<u8>)
    ensures
        r@ == a@,
{
    let mut r: Vec<u8> = Vec::new();
    let mut i: usize = 0;
    while i < a.len()
        invariant
            i <= a@.len(),
            r@ == a@.subrange(0, i as int),
        decreases a@.len() - i,
    {
        r.push(a[i]);
        i += 1;
        proof {
            assert(r@ =~= a@.subrange(0, i as int));
        }
    }
    proof {
        assert(r@ =~= a@);
    }
    r
}

/// An audit record together with the derived address it is stored at.
pub struct AuditEntry {
    pub address: Vec<u8>,
    pub record: MintRecord,
}

/// The mint-authorization ledger: the injected state handle holding the
/// singleton configuration record and every audit record written so far,
/// all addressed inside one 32-byte namespace identity.
pub struct MintLedger {
    pub namespace: Vec<u8>,
    pub config: Option<TokenConfig>,
    pub records: Vec<AuditEntry>,
}

impl MintLedger {
    /// The audit record at position `i` is addressed under
    /// `("mint_record", i + 1)`.
    pub open spec fn record_address_ok(self, i: int) -> bool {
        derived_of(self.namespace@, mint_record_tag_spec(), u64_le_bytes((i + 1) as u64))
            matches Some(p) && self.records@[i].address@ == p.0
    }

    /// Well-formedness: the namespace identity is 32 bytes; an
    /// uninitialized ledger holds no records; an initialized one holds
    /// exactly records 1 ..= mint_count, gapless and in order, each at its
    /// derived address, all addresses distinct, and the stored
    /// discriminator byte re-derives the signing authority.
    pub open spec fn wf(self) -> bool {
        &&& self.namespace@.len() == 32
        &&& match self.config {
            None => self.records@.len() == 0,
            Some(c) => {
                &&& c.mint_count == self.records@.len()
                &&& derived_of(self.namespace@, config_tag_spec(), Seq::<u8>::empty())
                    matches Some(p) && p.1 == c.bump
            },
        }
        &&& forall|i: int|
            0 <= i < self.records@.len() ==> (#[trigger] self.records@[i]).record.mint_index == i
                + 1
        &&& forall|i: int| 0 <= i < self.records@.len() ==> self.record_address_ok(i)
        &&& forall|i: int, j: int|
            0 <= i < j < self.records@.len() ==> (#[trigger] self.records@[i]).address@ != (
            #[trigger] self.records@[j]).address@
    }

    /// A fresh, uninitialized deployment inside `namespace`.
    pub fn new(namespace: Vec<u8>) -> (r: MintLedger)
        requires
            namespace@.len() == 32,
        ensures
            r.wf(),
            r.namespace@ == namespace@,
            r.config is None,
            r.records@.len() == 0,
    {
        MintLedger { namespace, config: None, records: Vec::new() }
    }

    /// Create the configuration record: the caller becomes admin, the
    /// authority discriminator is fixed, and the mint sequence starts at 0.
    /// Fails with `AlreadyInitialized` — leaving the ledger untouched — if
    /// a configuration record already exists, whoever calls.
    pub fn initialize(&mut self, ctx: Initialize) -> (r: Result<TokenConfig, ErrorCode>)
        requires
            old(self).wf(),
        ensures
            final(self).wf(),
            final(self).namespace@ == old(self).namespace@,
            old(self).config is Some ==> (r matches Err(e) && e == ErrorCode::AlreadyInitialized
                && *final(self) == *old(self)),
            old(self).config is None ==> match derived_of(
                old(self).namespace@,
                config_tag_spec(),
                Seq::<u8>::empty(),
            ) {
                None => (r matches Err(e) && e == ErrorCode::ResolutionFailed && *final(self)
                    == *old(self)),
                Some(p) => {
                    &&& r matches Ok(c) && c.admin@ == ctx.signer@ && c.bump == p.1 && c.mint_count
                        == 0
                    &&& final(self).config matches Some(c2) && c2.admin@ == ctx.signer@ && c2.bump
                        == p.1 && c2.mint_count == 0
                    &&& final(self).records@ == old(self).records@
                },
            },
    {
        if self.config.is_some() {
            return Err(ErrorCode::AlreadyInitialized);
        }
        let tag = config_tag();
        let suffix: Vec<u8> = Vec::new();
        match resolve_address(&self.namespace, &tag, &suffix) {
            None => Err(ErrorCode::ResolutionFailed),
            Some((_, bump)) => {
                let admin = copy_bytes(&ctx.signer);
                self.config = Some(TokenConfig { admin, bump, mint_count: 0 });
                Ok(TokenConfig { admin: ctx.signer, bump, mint_count: 0 })
            },
        }
    }

    /// Resolve the address of the fungible unit's mint.  The account
    /// allocation itself is the host's work; the core only demands an
    /// initialized configuration and answers where the mint lives.
    pub fn create_token_mint(&self, ctx: CreateTokenMint) -> (r: Result<Vec<u8>, ErrorCode>)
        requires
            self.wf(),
        ensures
            self.config is None ==> (r matches Err(e) && e == ErrorCode::NotInitialized),
            self.config is Some ==> match derived_of(
                self.namespace@,
                token_mint_tag_spec(),
                Seq::<u8>::empty(),
            ) {
                None => (r matches Err(e) && e == ErrorCode::ResolutionFailed),
                Some(p) => (r matches Ok(a) && a@ == p.0),
            },
    {
        if self.config.is_none() {
            return Err(ErrorCode::NotInitialized);
        }
        let tag = token_mint_tag();
        let suffix: Vec<u8> = Vec::new();
        match resolve_address(&self.namespace, &tag, &suffix) {
            None => Err(ErrorCode::ResolutionFailed),
            Some((addr, _)) => Ok(addr),
        }
    }

    /// Authorize one mint operation.
    ///
    /// The caller claims the next sequence index; the service validates it
    /// against the configuration's counter, takes the host's report of the
    /// external token ledger's answer for this request
    /// (`delegation_accepted`), and on success advances the counter and
    /// writes the audit record at the address derived from
    /// `("mint_record", mint_index)`.  Every failure leaves the ledger
    /// exactly as it was.
    #[verifier::loop_isolation(false)]
    pub fn mint_token(
        &mut self,
        ctx: MintToken,
        amount: u64,
        mint_index: u64,
        delegation_accepted: bool,
    ) -> (r: Result<MintRecord, ErrorCode>)
        requires
            old(self).wf(),
        ensures
            final(self).wf(),
            r is Err ==> *final(self) == *old(self),
            match old(self).config {
                None => (r matches Err(e) && e == ErrorCode::NotInitialized),
                Some(c) => {
                    if mint_index != c.mint_count + 1 {
                        r matches Err(e) && e == ErrorCode::InvalidMintIndex
                    } else if !delegation_accepted {
                        r matches Err(e) && e == ErrorCode::DelegationFailed
                    } else {
                        match derived_of(
                            old(self).namespace@,
                            mint_record_tag_spec(),
                            u64_le_bytes(mint_index),
                        ) {
                            None => (r matches Err(e) && e == ErrorCode::ResolutionFailed),
                            Some(p) => {
                                if (exists|j: int|
                                    0 <= j < old(self).records@.len() && (
                                    #[trigger] old(self).records@[j]).address@ == p.0) {
                                    r matches Err(e) && e == ErrorCode::DuplicateRecord
                                } else {
                                    &&& (r matches Ok(rec) && rec.minter@ == ctx.signer@
                                        && rec.amount == amount && rec.timestamp == ctx.timestamp
                                        && rec.mint_index == mint_index)
                                    &&& final(self).namespace@ == old(self).namespace@
                                    &&& (final(self).config matches Some(c2) && c2.admin@
                                        == c.admin@ && c2.bump == c.bump && c2.mint_count
                                        == mint_index)
                                    &&& final(self).records@.len() == old(self).records@.len() + 1
                                    &&& forall|j: int|
                                        0 <= j < old(self).records@.len()
                                            ==> final(self).records@[j] == old(self).records@[j]
                                    &&& final(self).records@.last().address@ == p.0
                                    &&& final(self).records@.last().record.minter@ == ctx.signer@
                                    &&& final(self).records@.last().record.amount == amount
                                    &&& final(self).records@.last().record.timestamp
                                        == ctx.timestamp
                                    &&& final(self).records@.last().record.mint_index == mint_index
                                }
                            },
                        }
                    }
                },
            },
    {
        let mint_count = match &self.config {
            Some(c) => c.mint_count,
            None => { return Err(ErrorCode::NotInitialized) },
        };
        if !(mint_count < u64::MAX && mint_index == mint_count + 1) {
            return Err(ErrorCode::InvalidMintIndex);
        }
        if !delegation_accepted {
            return Err(ErrorCode::DelegationFailed);
        }
        let tag = mint_record_tag();
        let suffix = index_le_bytes(mint_index);
        let address = match resolve_address(&self.namespace, &tag, &suffix) {
            None => { return Err(ErrorCode::ResolutionFailed) },
            Some((addr, _)) => addr,
        };
        let ghost new_addr: Seq<u8> = address@;
        let ghost pre: MintLedger = *old(self);
        let mut j: usize = 0;
        while j < self.records.len()
            invariant
                j <= self.records@.len(),
                forall|k: int| 0 <= k < j ==> (#[trigger] self.records@[k]).address@ != address@,
            decreases self.records@.len() - j,
        {
            if bytes_eq(&self.records[j].address, &address) {
                return Err(ErrorCode::DuplicateRecord);
            }
            j += 1;
        }
        let record = MintRecord {
            minter: copy_bytes(&ctx.signer),
            amount,
            timestamp: ctx.timestamp,
            mint_index,
        };
        match &mut self.config {
            Some(c) => {
                c.mint_count = mint_index;
            },
            None => {},
        }
        self.records.push(AuditEntry { address, record });
        proof {
            let n = pre.records@.len() as int;
            assert(self.records@.len() == n + 1);
            assert forall|i: int|
                0 <= i < self.records@.len() implies (#[trigger] self.records@[i]).record.mint_index
                == i + 1 by {
                if i < n {
                    assert(self.records@[i] == pre.records@[i]);
                }
            }
            assert forall|i: int| 0 <= i < self.records@.len() implies self.record_address_ok(
                i,
            ) by {
                if i < n {
                    assert(pre.record_address_ok(i));
                    assert(self.records@[i] == pre.records@[i]);
                } else {
                    assert((i + 1) as u64 == mint_index);
                }
            }
            assert forall|i: int, j2: int|
                0 <= i < j2 < self.records@.len() implies (#[trigger] self.records@[i]).address@
                != (#[trigger] self.records@[j2]).address@ by {
                if j2 < n {
                    assert(pre.records@[i].address@ != pre.records@[j2].address@);
                } else {
                    assert(self.records@[i].address@ == pre.records@[i].address@);
                    assert(self.records@[j2].address@ == new_addr);
                }
            }
        }
        Ok(MintRecord { minter: ctx.signer, amount, timestamp: ctx.timestamp, mint_index })
    }
}

/// Law: sequencing is monotonic and gapless.  In a well-formed ledger the
/// audit trail carries exactly the indices 1, 2, 3, … in order — the record
/// at position `k` carries index `k + 1`, so accepted indices strictly
/// increase with no gap and no repeat.
pub proof fn lemma_sequencing_monotonic(l: MintLedger)
    requires
        l.wf(),
    ensures
        forall|k: int|
            0 <= k < l.records@.len() ==> (#[trigger] l.records@[k]).record.mint_index == k + 1,
        forall|k1: int, k2: int|
            0 <= k1 < k2 < l.records@.len() ==> (#[trigger] l.records@[k1]).record.mint_index < (
            #[trigger] l.records@[k2]).record.mint_index,
{
}

/// Law: audit completeness.  In a well-formed ledger every consumed index
/// `1 ..= mint_count` is witnessed by exactly one audit record; that record
/// sits at the address derived from `("mint_record", index)`, and no other
/// record sits at that address.
pub proof fn lemma_audit_completeness(l: MintLedger, i: u64)
    requires
        l.wf(),
        l.config matches Some(c) && 1 <= i <= c.mint_count,
    ensures
        exists|k: int|
            0 <= k < l.records@.len() && (#[trigger] l.records@[k]).record.mint_index == i,
        forall|k: int|
            0 <= k < l.records@.len() && (#[trigger] l.records@[k]).record.mint_index == i ==> k
                == i - 1,
        derived_of(l.namespace@, mint_record_tag_spec(), u64_le_bytes(i)) matches Some(p) ==> {
            &&& l.records@[i - 1].address@ == p.0
            &&& forall|k: int|
                0 <= k < l.records@.len() && (#[trigger] l.records@[k]).address@ == p.0 ==> k == i
                    - 1
        },
{
    assert(l.records@[i - 1].record.mint_index == i);
    assert(l.record_address_ok(i - 1));
    assert((i - 1 + 1) as u64 == i);
    match derived_of(l.namespace@, mint_record_tag_spec(), u64_le_bytes(i)) {
        Some(p) => {
            assert(l.records@[i - 1].address@ == p.0);
            assert forall|k: int|
                0 <= k < l.records@.len() && (#[trigger] l.records@[k]).address@ == p.0 implies k
                == i - 1 by {
                if k < i - 1 {
                    assert(l.records@[k].address@ != l.records@[i - 1].address@);
                } else if k > i - 1 {
                    assert(l.records@[i - 1].address@ != l.records@[k].address@);
                }
            }
        },
        None => {},
    }
}

} // verus!
