use vstd::prelude::*;

use cosmwasm_std::ContractInfoResponse;
use sg721_base::msg::CollectionInfoResponse;

verus! {

#[verifier::external_type_specification]
#[verifier::external_body]
pub struct ExContractInfoResponse(cosmwasm_std::ContractInfoResponse);

#[verifier::external_type_specification]
#[verifier::external_body]
pub struct ExCollectionInfoResponse(sg721_base::msg::CollectionInfoResponse);

/// The baseline facts of a collection, as its contract reports them.
pub struct CollectionData {
    pub owner: Option<String>,
    pub contract_info: Option<ContractInfoResponse>,
    pub name: String,
    pub symbol: String,
    pub num_tokens: Option<u64>,
}

/// The baseline facts of a collection followed by its chain-specific
/// collection info: the class data attached to an outgoing class.
pub struct ExtendedClassData {
    pub owner: Option<String>,
    pub contract_info: Option<ContractInfoResponse>,
    pub name: String,
    pub symbol: String,
    pub num_tokens: Option<u64>,
    pub collection_info: CollectionInfoResponse,
}

/// Joins the baseline facts and the collection info of a sender contract into
/// one record: every field is carried over unchanged and under its own name.
pub fn compose_class_data(base: CollectionData, collection_info: CollectionInfoResponse) -> (r:
    ExtendedClassData)
    ensures
        r.owner == base.owner,
        r.contract_info == base.contract_info,
        r.name == base.name,
        r.symbol == base.symbol,
        r.num_tokens == base.num_tokens,
        r.collection_info == collection_info,
{
    let CollectionData { owner, contract_info, name, symbol, num_tokens } = base;
    ExtendedClassData { owner, contract_info, name, symbol, num_tokens, collection_info }
}

} // verus!
