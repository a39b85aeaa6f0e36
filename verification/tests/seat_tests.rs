use seat_hub::metadata;
use seat_hub::ownable;
use seat_hub::redeemable;
use seat_hub::sales;
use seat_hub::seat::{
    self, ExecuteMsg, ImageSettings, InstantiateMsg, QueryMsg, QueryResp, SeatBenefits,
    SeatMetadata, SeatModules, TokenMetadata,
};
use seat_hub::sellable;
use seat_hub::token;
use seat_hub::types::{Coin, Env, MessageInfo};

const CREATOR: &str = "cosmos188rjfzzrdxlus60zgnrvs4rg0l73hct3azv93z";
const USER: &str = "burnt188rjfzzrdxlus60zgnrvs4rg0l73hct3mlvdpe";

fn mock_env() -> Env {
    Env { contract_address: "cosmos2contract".to_string(), time: 1571797419 }
}

fn mock_info(sender: &str, funds: Vec<Coin>) -> MessageInfo {
    MessageInfo { sender: sender.to_string(), funds }
}

fn seat_metadata() -> SeatMetadata {
    SeatMetadata {
        name: "Kenny's contract".to_string(),
        image_uri: "image".to_owned(),
        description: "description".to_string(),
        benefits: vec![SeatBenefits { name: "name".to_string(), status: "status".to_string() }],
        template_number: 1,
        image_settings: ImageSettings { seat_name: true, hub_name: true },
        hub_contract: "hub".to_string(),
    }
}

fn instantiate_msg() -> InstantiateMsg {
    InstantiateMsg {
        ownable: ownable::InstantiateMsg { owner: CREATOR.to_string() },
        metadata: metadata::InstantiateMsg { metadata: seat_metadata() },
        seat_token: token::InstantiateMsg {
            name: "Kenny's Token Contract".to_string(),
            symbol: "KNY".to_string(),
            minter: CREATOR.to_string(),
        },
        redeemable: redeemable::InstantiateMsg {},
        sellable: Some(sellable::InstantiateMsg { tokens: Vec::new() }),
        sales: sales::InstantiateMsg {},
        hub_contract: "cosmos188rjfzzrdxlus60zgnrvs4rg0l73hct3azv93z".to_string(),
    }
}

fn empty_extension() -> TokenMetadata {
    TokenMetadata {
        description: None,
        name: None,
        royalty_percentage: None,
        royalty_payment_address: None,
    }
}

#[test]
fn test_seat_module_instantiation() {
    let mut modules = SeatModules::new();
    let env = mock_env();
    let info = mock_info(CREATOR, Vec::new());

    modules.instantiate(&env, &info, instantiate_msg()).unwrap();

    // make sure seat contract metadata was created
    let res = modules.query(&env, QueryMsg::Metadata(metadata::QueryMsg::GetMetadata)).unwrap();
    match res {
        QueryResp::Metadata(metadata::QueryResp::Metadata(meta)) => {
            assert_eq!(meta, seat_metadata());
        }
        _ => unreachable!(),
    }

    let res = modules.query(&env, QueryMsg::SeatToken(token::QueryMsg::NumTokens)).unwrap();
    match res {
        QueryResp::SeatToken(token::QueryResp::NumTokens(count)) => {
            assert_eq!(count, 0);
        }
        _ => unreachable!(),
    }
}

#[test]
fn test_seat_module_tokens() {
    let mut modules = SeatModules::new();
    let env = mock_env();
    let info = mock_info(CREATOR, Vec::new());

    modules.instantiate(&env, &info, instantiate_msg()).unwrap();

    // mint a token
    for token_id in &["1", "2"] {
        let msg = ExecuteMsg::SeatToken(token::ExecuteMsg::Mint(token::MintMsg {
            token_id: token_id.to_string(),
            owner: CREATOR.to_string(),
            token_uri: Some("https://example.com".to_string()),
            extension: TokenMetadata {
                name: Some("".to_string()),
                description: Some("".to_string()),
                royalty_percentage: Some(0),
                royalty_payment_address: Some("".to_string()),
            },
        }));
        modules.execute(&env, &info, msg).unwrap();
    }

    let res = modules.query(&env, QueryMsg::SeatToken(token::QueryMsg::NumTokens)).unwrap();
    match res {
        QueryResp::SeatToken(token::QueryResp::NumTokens(count)) => {
            assert_eq!(count, 2);
        }
        _ => unreachable!(),
    }

    // Get all listed tokens
    let query_msg = QueryMsg::Sellable(sellable::QueryMsg::ListedTokens {
        start_after: None,
        limit: None,
    });
    let res = modules.query(&env, query_msg).unwrap();
    match res {
        QueryResp::Sellable(sellable::QueryResp::ListedTokens(res)) => {
            assert_eq!(res.len(), 0);
        }
        _ => unreachable!(),
    }

    // List the token
    let msg = ExecuteMsg::Sellable(sellable::ExecuteMsg::List {
        listings: vec![
            sellable::Listing {
                token_id: "1".to_string(),
                price: Coin { denom: "uturnt".to_string(), amount: 200 },
            },
            sellable::Listing {
                token_id: "2".to_string(),
                price: Coin { denom: "uturnt".to_string(), amount: 100 },
            },
        ],
    });
    modules.execute(&env, &info, msg).unwrap();

    let query_msg = QueryMsg::Sellable(sellable::QueryMsg::ListedTokens {
        start_after: None,
        limit: None,
    });
    let res = modules.query(&env, query_msg).unwrap();
    match res {
        QueryResp::Sellable(sellable::QueryResp::ListedTokens(res)) => {
            assert_eq!(res.len(), 2);
        }
        _ => unreachable!(),
    }
}

#[test]
fn add_primary_sales() {
    let mut modules = SeatModules::new();
    let mut env = mock_env();
    let info = mock_info(CREATOR, Vec::new());

    modules
        .instantiate(&env, &info, instantiate_msg())
        .expect("seat modules instantiated");

    // get all primary sales
    let query_res = modules.query(&env, QueryMsg::Sales(sales::QueryMsg::PrimarySales)).unwrap();
    match query_res {
        QueryResp::Sales(sales::QueryResp::PrimarySales(primary_sales)) => {
            assert_eq!(primary_sales.len(), 0)
        }
        _ => unreachable!(),
    }

    // create a primary sale
    let create = || {
        sales::CreatePrimarySale {
            total_supply: 1,
            start_time: 1674567586,
            end_time: 1675567587,
            price: vec![Coin { denom: "USDC".to_string(), amount: 10 }],
        }
    };

    // test creating multiple active primary sales
    let fake_info = mock_info("hacker", Vec::new());
    modules
        .execute(&env, &fake_info, ExecuteMsg::Sales(sales::ExecuteMsg::PrimarySale(create())))
        .expect_err("primary sales should not be added");
    // set block time
    env.time = 1674567586;
    modules
        .execute(&env, &info, ExecuteMsg::Sales(sales::ExecuteMsg::PrimarySale(create())))
        .expect("primary sales added");

    let query_res = modules.query(&env, QueryMsg::Sales(sales::QueryMsg::PrimarySales)).unwrap();
    match query_res {
        QueryResp::Sales(sales::QueryResp::PrimarySales(primary_sales)) => {
            assert_eq!(primary_sales.len(), 1)
        }
        _ => unreachable!(),
    }
    let query_res =
        modules.query(&env, QueryMsg::Sales(sales::QueryMsg::ActivePrimarySale)).unwrap();
    match query_res {
        QueryResp::Sales(sales::QueryResp::ActivePrimarySale(Some(sale))) => {
            assert_eq!(sale.start_time.to_string(), "1674567586")
        }
        _ => unreachable!(),
    }

    // buy an item
    let buyer_info = mock_info(USER, vec![Coin { denom: "USDC".to_string(), amount: 20 }]);
    let buy_msg = ExecuteMsg::Sales(sales::ExecuteMsg::BuyItem(token::MintMsg {
        token_id: "1".to_string(),
        owner: CREATOR.to_string(),
        token_uri: Some("url".to_string()),
        extension: empty_extension(),
    }));
    modules.execute(&env, &buyer_info, buy_msg).expect("item bought");

    let query_res =
        modules.query(&env, QueryMsg::Sales(sales::QueryMsg::ActivePrimarySale)).unwrap();
    if let QueryResp::Sales(sales::QueryResp::ActivePrimarySale(Some(_sale))) = query_res {
        panic!()
    }

    // create a new primary sale
    env.time = 1676567587;
    let msg = ExecuteMsg::Sales(sales::ExecuteMsg::PrimarySale(sales::CreatePrimarySale {
        total_supply: 1,
        start_time: 1676567587,
        end_time: 1677567587,
        price: vec![Coin { denom: "USDC".to_string(), amount: 10 }],
    }));
    modules.execute(&env, &info, msg).expect("primary sales added");

    // halt ongoing primary sale
    modules
        .execute(&env, &info, ExecuteMsg::Sales(sales::ExecuteMsg::HaltSale))
        .expect("any ongoing sale halted");

    let query_res =
        modules.query(&env, QueryMsg::Sales(sales::QueryMsg::ActivePrimarySale)).unwrap();
    // there should be no active primary sale after sale is halted
    if let QueryResp::Sales(sales::QueryResp::ActivePrimarySale(Some(_sale))) = query_res {
        panic!()
    }
}
