//! Where the contracts are deployed.

use crate::ctf::types::Address;
use vstd::prelude::*;

verus! {

/// The contracts of one deployment.
#[derive(Debug, Clone, Copy, PartialEq, Eq)]
pub struct ContractConfig {
    pub conditional_tokens: Address,
    pub neg_risk_adapter: Option<Address>,
}

/// The deployment of a chain, for ordinary or for negative-risk markets.
#[derive(Debug, Clone, Copy, PartialEq, Eq)]
pub struct Deployment {
    pub chain_id: u64,
    pub neg_risk: bool,
    pub config: ContractConfig,
}

/// The chain ID of Polygon.
pub const POLYGON: u64 = 137;

/// The address of the conditional tokens contract on Polygon,
/// 0x4D97DCd97eC945f40cF65F87097ACe5EA0476045.
pub const POLYGON_CONDITIONAL_TOKENS: [u8; 20] = [
    0x4d,
    0x97,
    0xdc,
    0xd9,
    0x7e,
    0xc9,
    0x45,
    0xf4,
    0x0c,
    0xf6,
    0x5f,
    0x87,
    0x09,
    0x7a,
    0xce,
    0x5e,
    0xa0,
    0x47,
    0x60,
    0x45,
];

/// The contracts of ordinary markets on Polygon, which need no adapter.
pub open spec fn polygon_contracts() -> ContractConfig {
    ContractConfig {
        conditional_tokens: Address { bytes: POLYGON_CONDITIONAL_TOKENS },
        neg_risk_adapter: None,
    }
}

/// The contracts of the first deployment listed for this chain and kind of market.
pub open spec fn listed(
    deployments: Seq<Deployment>,
    chain_id: u64,
    neg_risk: bool,
) -> Option<ContractConfig>
    decreases deployments.len(),
{
    if deployments.len() == 0 {
        None
    } else if deployments[0].chain_id == chain_id && deployments[0].neg_risk == neg_risk {
        Some(deployments[0].config)
    } else {
        listed(deployments.drop_first(), chain_id, neg_risk)
    }
}

/// The contracts of this chain and kind of market: those of ordinary markets on Polygon
/// are known, and `deployments` lists others.
pub open spec fn deployed(
    deployments: Seq<Deployment>,
    chain_id: u64,
    neg_risk: bool,
) -> Option<ContractConfig> {
    if chain_id == POLYGON && !neg_risk {
        Some(polygon_contracts())
    } else {
        listed(deployments, chain_id, neg_risk)
    }
}

/// Looks up the contracts of a chain for a kind of market. Those of ordinary markets on
/// Polygon need not be listed.
pub fn contract_config(
    deployments: &Vec<Deployment>,
    chain_id: u64,
    neg_risk: bool,
) -> (r: Option<ContractConfig>)
    ensures
        r == deployed(deployments@, chain_id, neg_risk),
{
    if chain_id == POLYGON && !neg_risk {
        return Some(
            ContractConfig {
                conditional_tokens: Address { bytes: POLYGON_CONDITIONAL_TOKENS },
                neg_risk_adapter: None,
            },
        );
    }
    let mut i: usize = 0;
    assert(deployments@.skip(0) =~= deployments@);
    while i < deployments.len()
        invariant
            i <= deployments@.len(),
            chain_id != POLYGON || neg_risk,
            listed(deployments@, chain_id, neg_risk) == listed(
                deployments@.skip(i as int),
                chain_id,
                neg_risk,
            ),
        decreases deployments@.len() - i,
    {
        if deployments[i].chain_id == chain_id && deployments[i].neg_risk == neg_risk {
            return Some(deployments[i].config);
        }
        assert(deployments@.skip(i as int).drop_first() =~= deployments@.skip(i + 1));
        i += 1;
    }
    None
}

} // verus!
