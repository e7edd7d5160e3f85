use vstd::prelude::*;

use cosmwasm_std::{StdError, Timestamp};
use sg721::RoyaltyInfoResponse;

use crate::address::{
    bech32_parts, convert_owner_chain_address, converted_address,
    lemma_malformed_address_not_converted,
};
use crate::class_data::CollectionData;
use crate::error::ClassError;

verus! {

#[verifier::external_type_specification]
#[verifier::external_body]
pub struct ExTimestamp(cosmwasm_std::Timestamp);

#[verifier::external_type_specification]
#[verifier::external_body]
pub struct ExRoyaltyInfoResponse(sg721::RoyaltyInfoResponse);

#[verifier::external_type_specification]
#[verifier::external_body]
pub struct ExStdError(cosmwasm_std::StdError);

/// The image given to a new collection when the remote chain supplies none.
pub const PLACEHOLDER_IMAGE: &'static str = "https://arkprotocol.io";

/// The values a new collection starts from before any remote data is applied.
pub struct CollectionDefaults {
    pub description: String,
    pub image: String,
}

impl CollectionDefaults {
    /// An empty description and the placeholder image.
    pub fn standard() -> (r: CollectionDefaults)
        ensures
            r.description@ == Seq::<char>::empty(),
            r.image@ == PLACEHOLDER_IMAGE@,
    {
        CollectionDefaults { description: String::new(), image: PLACEHOLDER_IMAGE.to_owned() }
    }
}

/// What the optional data of an incoming class turned out to be.
pub enum ClassPayload {
    /// The data decoded to the baseline facts of a collection.
    Decoded(CollectionData),
    /// The class carried no data.
    Absent,
    /// The class carried data that did not decode.
    Malformed,
}

/// The collection info of a collection contract about to be created.
pub struct NewCollectionInfo {
    pub creator: String,
    pub description: String,
    pub image: String,
    pub external_link: Option<String>,
    pub explicit_content: Option<bool>,
    pub start_trading_time: Option<Timestamp>,
    pub royalty_info: Option<RoyaltyInfoResponse>,
}

/// The parameters that instantiate a local collection contract.
pub struct InstantiationParams {
    pub name: String,
    pub symbol: String,
    pub minter: String,
    pub collection_info: NewCollectionInfo,
}

/// The collection info of a new collection, with strings as character sequences.
pub ghost struct CollectionInfoView {
    pub creator: Seq<char>,
    pub description: Seq<char>,
    pub image: Seq<char>,
    pub external_link: Option<Seq<char>>,
    pub explicit_content: Option<bool>,
    pub start_trading_time: Option<Timestamp>,
    pub royalty_info: Option<RoyaltyInfoResponse>,
}

/// The instantiation parameters, with strings as character sequences.
pub ghost struct InstantiationParamsView {
    pub name: Seq<char>,
    pub symbol: Seq<char>,
    pub minter: Seq<char>,
    pub collection_info: CollectionInfoView,
}

/// An optional string as an optional character sequence.
pub open spec fn opt_string_view(o: Option<String>) -> Option<Seq<char>> {
    match o {
        Some(s) => Some(s@),
        None => None,
    }
}

impl View for NewCollectionInfo {
    type V = CollectionInfoView;

    open spec fn view(&self) -> CollectionInfoView {
        CollectionInfoView {
            creator: self.creator@,
            description: self.description@,
            image: self.image@,
            external_link: opt_string_view(self.external_link),
            explicit_content: self.explicit_content,
            start_trading_time: self.start_trading_time,
            royalty_info: self.royalty_info,
        }
    }
}

impl View for InstantiationParams {
    type V = InstantiationParamsView;

    open spec fn view(&self) -> InstantiationParamsView {
        InstantiationParamsView {
            name: self.name@,
            symbol: self.symbol@,
            minter: self.minter@,
            collection_info: self.collection_info@,
        }
    }
}

/// The parameters used when the incoming class brings no usable data: the
/// class id as name and symbol, the running contract as minter, the fallback
/// creator, and the defaults for everything else.
pub open spec fn default_params(
    contract: Seq<char>,
    class_id: Seq<char>,
    fallback_creator: Seq<char>,
    defaults: CollectionDefaults,
) -> InstantiationParamsView {
    InstantiationParamsView {
        name: class_id,
        symbol: class_id,
        minter: contract,
        collection_info: CollectionInfoView {
            creator: fallback_creator,
            description: defaults.description@,
            image: defaults.image@,
            external_link: None,
            explicit_content: None,
            start_trading_time: None,
            royalty_info: None,
        },
    }
}

/// The instantiation parameters for an incoming class: decoded data supplies
/// name and symbol, and its owner, converted to a local address, the creator.
pub open spec fn instantiation_params(
    contract: Seq<char>,
    class_id: Seq<char>,
    payload: ClassPayload,
    fallback_creator: Seq<char>,
    defaults: CollectionDefaults,
) -> Result<InstantiationParamsView, ClassError> {
    let base = default_params(contract, class_id, fallback_creator, defaults);
    match payload {
        ClassPayload::Decoded(data) => {
            let named = InstantiationParamsView { name: data.name@, symbol: data.symbol@, ..base };
            match data.owner {
                Some(owner) => match converted_address(contract, owner@) {
                    Some(creator) => Ok(
                        InstantiationParamsView {
                            collection_info: CollectionInfoView { creator, ..base.collection_info },
                            ..named
                        },
                    ),
                    None => Err(ClassError::AddressConversionFailure),
                },
                None => Ok(named),
            }
        },
        _ => Ok(base),
    }
}

fn default_collection_params(
    contract_address: &str,
    class_id: &str,
    fallback_creator: &str,
    defaults: &CollectionDefaults,
) -> (r: InstantiationParams)
    ensures
        r@ == default_params(contract_address@, class_id@, fallback_creator@, *defaults),
{
    InstantiationParams {
        name: class_id.to_owned(),
        symbol: class_id.to_owned(),
        minter: contract_address.to_owned(),
        collection_info: NewCollectionInfo {
            creator: fallback_creator.to_owned(),
            description: defaults.description.clone(),
            image: defaults.image.clone(),
            external_link: None,
            explicit_content: None,
            start_trading_time: None,
            royalty_info: None,
        },
    }
}

/// Derives the parameters of a new local collection from an incoming class.
/// `contract_address` is the running contract, which becomes the minter and
/// gives the local address prefix; `fallback_creator` is its own creator,
/// used whenever the class names no owner.
pub fn build_instantiation_params(
    contract_address: &str,
    class_id: &str,
    payload: &ClassPayload,
    fallback_creator: &str,
    defaults: &CollectionDefaults,
) -> (r: Result<InstantiationParams, ClassError>)
    ensures
        match r {
            Ok(p) => instantiation_params(
                contract_address@,
                class_id@,
                *payload,
                fallback_creator@,
                *defaults,
            ) == Ok::<InstantiationParamsView, ClassError>(p@),
            Err(e) => instantiation_params(
                contract_address@,
                class_id@,
                *payload,
                fallback_creator@,
                *defaults,
            ) == Err::<InstantiationParamsView, ClassError>(e),
        },
{
    let mut params = default_collection_params(contract_address, class_id, fallback_creator, defaults);
    match payload {
        ClassPayload::Decoded(data) => {
            match &data.owner {
                Some(owner) => match convert_owner_chain_address(contract_address, owner.as_str()) {
                    Ok(creator) => {
                        params.collection_info.creator = creator;
                    },
                    Err(e) => {
                        return Err(e);
                    },
                },
                None => {},
            }
            params.name = data.name.clone();
            params.symbol = data.symbol.clone();
            Ok(params)
        },
        _ => Ok(params),
    }
}

/// The wire encoding of a collection contract's instantiation message.
pub uninterp spec fn instantiate_msg_json(p: InstantiationParamsView) -> Seq<u8>;

/// Relies on `cosmwasm_std::to_json_binary` applied to `sg721::InstantiateMsg`:
/// the encoding depends on the message's fields alone, and it succeeds, since
/// every field is a string, a bool, an option or a struct of them, and
/// `Timestamp` and `Decimal` are written as strings.
#[verifier::external_body]
fn encode_instantiate_msg(p: InstantiationParams) -> (r: Result<Vec<u8>, StdError>)
    ensures
        r is Ok,
        match r {
            Ok(b) => b@ == instantiate_msg_json(p@),
            Err(_) => false,
        },
{
    let c = p.collection_info;
    let collection_info = sg721::CollectionInfo {
        creator: c.creator,
        description: c.description,
        image: c.image,
        external_link: c.external_link,
        explicit_content: c.explicit_content,
        start_trading_time: c.start_trading_time,
        royalty_info: c.royalty_info,
    };
    let msg = sg721::InstantiateMsg { name: p.name, symbol: p.symbol, minter: p.minter, collection_info };
    cosmwasm_std::to_json_binary(&msg).map(|b| b.into())
}

/// Derives the parameters of a new local collection from an incoming class
/// and encodes them to the wire format the contract-creation step expects;
/// it fails exactly where the parameters cannot be derived.
pub fn build_instantiation_message(
    contract_address: &str,
    class_id: &str,
    payload: &ClassPayload,
    fallback_creator: &str,
    defaults: &CollectionDefaults,
) -> (r: Result<Vec<u8>, ClassError>)
    ensures
        match instantiation_params(
            contract_address@,
            class_id@,
            *payload,
            fallback_creator@,
            *defaults,
        ) {
            Ok(p) => match r {
                Ok(b) => b@ == instantiate_msg_json(p),
                Err(_) => false,
            },
            Err(e) => r == Err::<Vec<u8>, ClassError>(e),
        },
{
    match build_instantiation_params(contract_address, class_id, payload, fallback_creator, defaults) {
        Ok(params) => match encode_instantiate_msg(params) {
            Ok(bytes) => Ok(bytes),
            Err(_) => Err(ClassError::SerializationFailure),
        },
        Err(e) => Err(e),
    }
}

/// With no class data, the class id is both name and symbol, the fallback
/// creator is the creator, and every other collection field keeps its default.
pub proof fn lemma_absent_payload_uses_defaults(
    contract: Seq<char>,
    class_id: Seq<char>,
    fallback_creator: Seq<char>,
    defaults: CollectionDefaults,
)
    ensures
        match instantiation_params(contract, class_id, ClassPayload::Absent, fallback_creator, defaults) {
            Ok(p) => {
                &&& p.name == class_id
                &&& p.symbol == class_id
                &&& p.minter == contract
                &&& p.collection_info.creator == fallback_creator
                &&& p.collection_info.description == defaults.description@
                &&& p.collection_info.image == defaults.image@
                &&& p.collection_info.external_link is None
                &&& p.collection_info.explicit_content is None
                &&& p.collection_info.start_trading_time is None
                &&& p.collection_info.royalty_info is None
            },
            Err(_) => false,
        },
{
}

/// Decoded data whose owner converts to a local address gives that address as
/// creator and its own name and symbol.
pub proof fn lemma_decoded_owner_is_creator(
    contract: Seq<char>,
    class_id: Seq<char>,
    data: CollectionData,
    fallback_creator: Seq<char>,
    defaults: CollectionDefaults,
)
    requires
        match data.owner {
            Some(owner) => converted_address(contract, owner@) is Some,
            None => false,
        },
    ensures
        match instantiation_params(contract, class_id, ClassPayload::Decoded(data), fallback_creator, defaults) {
            Ok(p) => {
                &&& Some(p.collection_info.creator) == converted_address(
                    contract,
                    opt_string_view(data.owner)->Some_0,
                )
                &&& p.name == data.name@
                &&& p.symbol == data.symbol@
            },
            Err(_) => false,
        },
{
}

/// Decoded data without an owner gives the fallback creator, and its own name
/// and symbol.
pub proof fn lemma_decoded_without_owner_keeps_fallback(
    contract: Seq<char>,
    class_id: Seq<char>,
    data: CollectionData,
    fallback_creator: Seq<char>,
    defaults: CollectionDefaults,
)
    requires
        data.owner is None,
    ensures
        match instantiation_params(contract, class_id, ClassPayload::Decoded(data), fallback_creator, defaults) {
            Ok(p) => {
                &&& p.collection_info.creator == fallback_creator
                &&& p.name == data.name@
                &&& p.symbol == data.symbol@
            },
            Err(_) => false,
        },
{
}

/// Class data that does not decode is handled exactly as absent class data.
pub proof fn lemma_malformed_payload_same_as_absent(
    contract: Seq<char>,
    class_id: Seq<char>,
    fallback_creator: Seq<char>,
    defaults: CollectionDefaults,
)
    ensures
        instantiation_params(contract, class_id, ClassPayload::Malformed, fallback_creator, defaults)
            == instantiation_params(contract, class_id, ClassPayload::Absent, fallback_creator, defaults),
{
}

/// An owner that is not well-formed bech32 ends the derivation with an
/// address conversion failure, and no parameters come out.
pub proof fn lemma_malformed_owner_rejected(
    contract: Seq<char>,
    class_id: Seq<char>,
    data: CollectionData,
    fallback_creator: Seq<char>,
    defaults: CollectionDefaults,
)
    requires
        match data.owner {
            Some(owner) => bech32_parts(owner@) is None,
            None => false,
        },
    ensures
        instantiation_params(contract, class_id, ClassPayload::Decoded(data), fallback_creator, defaults)
            == Err::<InstantiationParamsView, ClassError>(ClassError::AddressConversionFailure),
{
    lemma_malformed_address_not_converted(contract, opt_string_view(data.owner)->Some_0);
}

} // verus!
