use vstd::prelude::*;

use crate::bytes32::Bytes32;

verus! {

/// A contract compiled by both backends: the layer-2 compiler and the
/// reference compiler. Identity is the contract name, unique within one
/// compilation run.
#[derive(Clone, Debug)]
pub struct DualCompiledContract {
    /// Contract name.
    pub name: String,
    /// Bytecode hash from the layer-2 compiler.
    pub zk_bytecode_hash: Bytes32,
    /// Deployed bytecode from the layer-2 compiler.
    pub zk_deployed_bytecode: Vec<u8>,
    /// Bytecode hash from the reference compiler.
    pub evm_bytecode_hash: Bytes32,
    /// Deployed bytecode from the reference compiler.
    pub evm_deployed_bytecode: Vec<u8>,
    /// Creation bytecode from the reference compiler.
    pub evm_bytecode: Vec<u8>,
}

impl DualCompiledContract {
    /// Well-formed: both hashes hold 32 bytes.
    pub open spec fn wf(self) -> bool {
        self.zk_bytecode_hash.wf() && self.evm_bytecode_hash.wf()
    }

    /// A record is meaningful only when both backends produced output for
    /// the contract; a one-sided record is unmatched and must be excluded
    /// from dual-compiled contract sets.
    pub open spec fn spec_is_matched(self) -> bool {
        self.zk_deployed_bytecode@.len() > 0 && self.evm_deployed_bytecode@.len() > 0
    }

    /// Pairs the two backends' outputs for one contract.
    pub fn new(
        name: String,
        zk_bytecode_hash: Bytes32,
        zk_deployed_bytecode: Vec<u8>,
        evm_bytecode_hash: Bytes32,
        evm_deployed_bytecode: Vec<u8>,
        evm_bytecode: Vec<u8>,
    ) -> (r: DualCompiledContract)
        requires
            zk_bytecode_hash.wf(),
            evm_bytecode_hash.wf(),
        ensures
            r.name@ == name@,
            r.zk_bytecode_hash == zk_bytecode_hash,
            r.zk_deployed_bytecode@ == zk_deployed_bytecode@,
            r.evm_bytecode_hash == evm_bytecode_hash,
            r.evm_deployed_bytecode@ == evm_deployed_bytecode@,
            r.evm_bytecode@ == evm_bytecode@,
            r.wf(),
    {
        DualCompiledContract {
            name,
            zk_bytecode_hash,
            zk_deployed_bytecode,
            evm_bytecode_hash,
            evm_deployed_bytecode,
            evm_bytecode,
        }
    }

    /// True when both backends produced output for this contract.
    pub fn is_matched(&self) -> (r: bool)
        ensures
            r == self.spec_is_matched(),
    {
        self.zk_deployed_bytecode.len() > 0 && self.evm_deployed_bytecode.len() > 0
    }
}

impl Default for DualCompiledContract {
    /// The default record is unmatched on both sides: empty name, zeroed
    /// hashes, empty bytecode.
    fn default() -> (r: DualCompiledContract)
        ensures
            r.wf(),
            !r.spec_is_matched(),
            r.name@.len() == 0,
            r.zk_deployed_bytecode@.len() == 0,
            r.evm_deployed_bytecode@.len() == 0,
            r.evm_bytecode@.len() == 0,
    {
        DualCompiledContract {
            name: String::new(),
            zk_bytecode_hash: Bytes32::zero(),
            zk_deployed_bytecode: Vec::new(),
            evm_bytecode_hash: Bytes32::zero(),
            evm_deployed_bytecode: Vec::new(),
            evm_bytecode: Vec::new(),
        }
    }
}

/// The matched records of a sequence, in order.
pub open spec fn matched_of(s: Seq<DualCompiledContract>) -> Seq<DualCompiledContract>
    decreases s.len(),
{
    if s.len() == 0 {
        Seq::empty()
    } else {
        (if s[0].spec_is_matched() {
            seq![s[0]]
        } else {
            Seq::empty()
        }) + matched_of(s.drop_first())
    }
}

/// Keeps exactly the matched records, in their original order: what a
/// consumer of dual-compiled contract sets is allowed to see.
pub fn matched_only(contracts: Vec<DualCompiledContract>) -> (r: Vec<DualCompiledContract>)
    ensures
        r@ == matched_of(contracts@),
{
    let ghost all = contracts@;
    let mut rest = contracts;
    let mut out: Vec<DualCompiledContract> = Vec::new();
    while rest.len() > 0
        invariant
            matched_of(all) == out@ + matched_of(rest@),
        decreases rest@.len(),
    {
        let ghost rest0 = rest@;
        let x = rest.remove(0);
        proof {
            assert(rest@ =~= rest0.drop_first());
        }
        if x.is_matched() {
            out.push(x);
        }
        proof {
            assert(out@ + matched_of(rest@) =~= matched_of(all));
        }
    }
    proof {
        assert(matched_of(rest@) =~= Seq::<DualCompiledContract>::empty());
        assert(out@ =~= matched_of(all));
    }
    out
}

/// Law: every record a consumer sees is matched, and every matched record
/// is kept — exclusion drops exactly the one-sided records.
pub proof fn lemma_matched_only_exact(s: Seq<DualCompiledContract>)
    ensures
        forall|i: int| 0 <= i < matched_of(s).len() ==> #[trigger] matched_of(s)[i].spec_is_matched(),
        forall|i: int|
            0 <= i < s.len() && s[i].spec_is_matched() ==> matched_of(s).contains(s[i]),
    decreases s.len(),
{
    if s.len() > 0 {
        lemma_matched_only_exact(s.drop_first());
        assert forall|i: int|
            0 <= i < s.len() && s[i].spec_is_matched() implies matched_of(s).contains(
            s[i],
        ) by {
            if i == 0 {
                assert(matched_of(s)[0] == s[0]);
            } else {
                assert(s.drop_first()[i - 1] == s[i]);
                let t = matched_of(s.drop_first());
                assert(t.contains(s[i]));
                let j = choose|j: int| 0 <= j < t.len() && t[j] == s[i];
                if s[0].spec_is_matched() {
                    assert(matched_of(s)[j + 1] == s[i]);
                } else {
                    assert(matched_of(s)[j] == s[i]);
                }
            }
        }
    }
}

} // verus!
