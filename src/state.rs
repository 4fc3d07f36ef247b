use vstd::prelude::*;

verus! {

/// The one denomination the escrow accepts and pays out, as characters.
pub open spec fn native_denom() -> Seq<char> {
    seq!['u', 's', 'c', 'r', 't']
}

/// The native denomination as an owned string.
pub fn native_denom_string() -> (r: String)
    ensures
        r@ == native_denom(),
{
    let r = String::from_str("uscrt");
    proof {
        reveal_strlit("uscrt");
        assert(r@ =~= native_denom());
    }
    r
}

/// The persisted configuration record of one escrow.
#[derive(Clone, Debug, PartialEq, Eq)]
pub struct Config {
    /// canonical address of the account allowed to operate the escrow
    pub owner: Vec<u8>,
    /// the validator the deposit is staked with
    pub validator: String,
    /// the time, in seconds, before which the funds stay locked
    pub retrieval_time: u64,
    /// the bookkeeping amount of native tokens held
    pub amount: u128,
    /// set once the owner has withdrawn the funds
    pub funds_retrieved: bool,
    /// set once undelegation has been requested
    pub funds_unstaked: bool,
}

/// The configuration record as mathematical values.
pub struct ConfigModel {
    pub owner: Seq<u8>,
    pub validator: Seq<char>,
    pub retrieval_time: u64,
    pub amount: u128,
    pub funds_retrieved: bool,
    pub funds_unstaked: bool,
}

impl View for Config {
    type V = ConfigModel;

    open spec fn view(&self) -> ConfigModel {
        ConfigModel {
            owner: self.owner@,
            validator: self.validator@,
            retrieval_time: self.retrieval_time,
            amount: self.amount,
            funds_retrieved: self.funds_retrieved,
            funds_unstaked: self.funds_unstaked,
        }
    }
}

/// Whether two canonical addresses are the same identity.
pub fn same_address(a: &Vec<u8>, b: &Vec<u8>) -> (r: bool)
    ensures
        r == (a@ == b@),
{
    if a.len() != b.len() {
        return false;
    }
    let mut i: usize = 0;
    while i < a.len()
        invariant
            a@.len() == b@.len(),
            0 <= i <= a@.len(),
            forall|j: int| 0 <= j < i ==> a@[j] == b@[j],
        decreases a@.len() - i,
    {
        if a[i] != b[i] {
            return false;
        }
        i = i + 1;
    }
    assert(a@ =~= b@);
    true
}

} // verus!
