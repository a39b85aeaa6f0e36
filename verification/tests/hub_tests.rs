use seat_hub::hub::{
    self, ExecuteMsg, HubMetadata, HubModules, InstantiateMsg, MetadataField, QueryMsg, QueryResp,
    SocialLinks,
};
use seat_hub::metadata;
use seat_hub::ownable;
use seat_hub::types::{Env, MessageInfo};

const CREATOR: &str = "CREATOR";

fn mock_env() -> Env {
    Env { contract_address: "cosmos2contract".to_string(), time: 1571797419 }
}

fn mock_info(sender: &str) -> MessageInfo {
    MessageInfo { sender: sender.to_string(), funds: Vec::new() }
}

fn hub_metadata() -> HubMetadata {
    HubMetadata {
        name: "Kenny's contract".to_string(),
        hub_url: "find me here".to_string(),
        description: "Awesome Hub".to_string(),
        tags: vec!["awesome".to_string(), "wild".to_string()],
        social_links: vec![SocialLinks {
            name: "discord".to_string(),
            url: "discord link here".to_string(),
        }],
        creator: CREATOR.to_string(),
        thumbnail_image_url: "image link here".to_string(),
        banner_image_url: "image link here".to_string(),
        seat_contract: None,
    }
}

fn instantiate_msg() -> InstantiateMsg {
    InstantiateMsg {
        ownable: ownable::InstantiateMsg { owner: CREATOR.to_string() },
        metadata: metadata::InstantiateMsg { metadata: hub_metadata() },
    }
}

// make sure ownable module is instantiated
#[test]
fn test_ownable_module() {
    let mut modules = HubModules::default();
    let env = mock_env();
    let info = mock_info(CREATOR);

    let res = hub::instantiate(&mut modules, &env, &info, instantiate_msg()).unwrap();
    assert_eq!(0, res.messages.len());

    let query_msg = QueryMsg::Ownable(ownable::QueryMsg::IsOwner(CREATOR.to_string()));
    let res = hub::query(&modules, &env, query_msg).unwrap();
    match res {
        QueryResp::Ownable(ownable::QueryResp::IsOwner(owner)) => {
            assert_eq!(owner, true);
        }
        _ => unreachable!(),
    }
}

#[test]
fn test_metadata_module() {
    let mut modules = HubModules::default();
    let env = mock_env();
    let info = mock_info(CREATOR);

    let res = hub::instantiate(&mut modules, &env, &info, instantiate_msg()).unwrap();
    assert_eq!(0, res.messages.len());

    let query_msg = QueryMsg::Metadata(metadata::QueryMsg::GetMetadata);
    let res = hub::query(&modules, &env, query_msg).unwrap();
    match res {
        QueryResp::Metadata(metadata::QueryResp::Metadata(meta)) => {
            assert_eq!(meta, hub_metadata());
        }
        _ => unreachable!(),
    }
}

#[test]
fn test_setting_seats() {
    let mut modules = HubModules::default();
    let env = mock_env();
    let info = mock_info(CREATOR);

    let res = hub::instantiate(&mut modules, &env, &info, instantiate_msg()).unwrap();
    assert_eq!(0, res.messages.len());

    let exec_msg = ExecuteMsg::UpdateMetadata(MetadataField::SeatContract(
        env.contract_address.clone(),
    ));
    hub::execute(&mut modules, &env, &info, exec_msg).expect("seat contract set");

    let query_msg = QueryMsg::Metadata(metadata::QueryMsg::GetMetadata);
    let res = hub::query(&modules, &env, query_msg).unwrap();
    match res {
        QueryResp::Metadata(metadata::QueryResp::Metadata(meta)) => {
            assert_eq!(meta.seat_contract.unwrap(), env.contract_address);
        }
        _ => unreachable!(),
    }
}

#[test]
fn hub_instantiate_sets_owner_and_metadata() {
    let mut modules = HubModules::default();
    let env = mock_env();
    let info = mock_info(CREATOR);

    hub::instantiate(&mut modules, &env, &info, instantiate_msg()).unwrap();
    assert_eq!(modules.ownable.get_owner(), CREATOR);
    assert_eq!(*modules.metadata.get_metadata(), hub_metadata());
}

#[test]
fn hub_set_owner_gated_by_owner() {
    let mut modules = HubModules::default();
    let env = mock_env();
    let info = mock_info(CREATOR);
    hub::instantiate(&mut modules, &env, &info, instantiate_msg()).unwrap();

    let stranger = mock_info("stranger");
    let err = hub::execute(
        &mut modules,
        &env,
        &stranger,
        ExecuteMsg::Ownable(ownable::ExecuteMsg::SetOwner("stranger".to_string())),
    )
    .unwrap_err();
    assert_eq!(err, hub::ContractError::OwnableError(ownable::OwnableError::Unauthorized));
    assert_eq!(modules.ownable.get_owner(), CREATOR);

    hub::execute(
        &mut modules,
        &env,
        &info,
        ExecuteMsg::Ownable(ownable::ExecuteMsg::SetOwner("heir".to_string())),
    )
    .unwrap();
    assert_eq!(modules.ownable.get_owner(), "heir");
}

#[test]
fn hub_set_metadata_gated_by_owner() {
    let mut modules = HubModules::default();
    let env = mock_env();
    let info = mock_info(CREATOR);
    hub::instantiate(&mut modules, &env, &info, instantiate_msg()).unwrap();

    let mut replacement = hub_metadata();
    replacement.name = "renamed".to_string();
    let stranger = mock_info("stranger");
    let err = modules
        .metadata
        .execute(
            &modules.ownable,
            &env,
            &stranger,
            metadata::ExecuteMsg::SetMetadata(replacement),
        )
        .unwrap_err();
    assert_eq!(err, metadata::MetadataError::Unauthorized);
    assert_eq!(*modules.metadata.get_metadata(), hub_metadata());

    let mut replacement = hub_metadata();
    replacement.name = "renamed".to_string();
    modules
        .metadata
        .execute(&modules.ownable, &env, &info, metadata::ExecuteMsg::SetMetadata(replacement))
        .unwrap();
    assert_eq!(modules.metadata.get_metadata().name, "renamed");
}

#[test]
fn hub_update_seat_contract_unauthorized() {
    let mut modules = HubModules::default();
    let env = mock_env();
    let info = mock_info(CREATOR);
    hub::instantiate(&mut modules, &env, &info, instantiate_msg()).unwrap();

    let stranger = mock_info("stranger");
    let err = hub::execute(
        &mut modules,
        &env,
        &stranger,
        ExecuteMsg::UpdateMetadata(MetadataField::SeatContract("somewhere".to_string())),
    )
    .unwrap_err();
    assert_eq!(err, hub::ContractError::MetadataError(metadata::MetadataError::Unauthorized));
    assert_eq!(modules.metadata.get_metadata().seat_contract, None);
}
