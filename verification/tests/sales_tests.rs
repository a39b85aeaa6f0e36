use seat_hub::metadata;
use seat_hub::ownable;
use seat_hub::redeemable;
use seat_hub::response::{Attribute, ContractCall, Event, OutMsg, Response, TransferMsg,
    merge_responses};
use seat_hub::sales;
use seat_hub::seat::{
    self, ExecuteMsg, ImageSettings, InstantiateMsg, QueryMsg, QueryResp, SeatMetadata,
    SeatModules, TokenMetadata,
};
use seat_hub::sellable;
use seat_hub::token;
use seat_hub::types::{Coin, Env, MessageInfo};

const ALICE: &str = "alice";
const BOB: &str = "bob";

fn env_at(time: u64) -> Env {
    Env { contract_address: "seat0".to_string(), time }
}

fn info(sender: &str, funds: Vec<Coin>) -> MessageInfo {
    MessageInfo { sender: sender.to_string(), funds }
}

fn coin(denom: &str, amount: u128) -> Coin {
    Coin { denom: denom.to_string(), amount }
}

fn empty_extension() -> TokenMetadata {
    TokenMetadata {
        description: None,
        name: None,
        royalty_percentage: None,
        royalty_payment_address: None,
    }
}

fn fresh_seat(env: &Env) -> SeatModules {
    let mut modules = SeatModules::new();
    let msg = InstantiateMsg {
        ownable: ownable::InstantiateMsg { owner: ALICE.to_string() },
        metadata: metadata::InstantiateMsg {
            metadata: SeatMetadata {
                name: "X".to_string(),
                image_uri: "i".to_string(),
                description: "d".to_string(),
                benefits: Vec::new(),
                template_number: 1,
                image_settings: ImageSettings { seat_name: true, hub_name: true },
                hub_contract: "hub".to_string(),
            },
        },
        seat_token: token::InstantiateMsg {
            name: "Seats".to_string(),
            symbol: "SEAT".to_string(),
            minter: ALICE.to_string(),
        },
        redeemable: redeemable::InstantiateMsg {},
        sellable: None,
        sales: sales::InstantiateMsg {},
        hub_contract: "hub".to_string(),
    };
    modules.instantiate(env, &info(ALICE, Vec::new()), msg).unwrap();
    modules
}

fn sale(total_supply: u64, start: u64, end: u64, amount: u128) -> sales::CreatePrimarySale {
    sales::CreatePrimarySale {
        total_supply,
        start_time: start,
        end_time: end,
        price: vec![coin("usdc", amount)],
    }
}

fn create(modules: &mut SeatModules, env: &Env, who: &str, s: sales::CreatePrimarySale)
    -> Result<(), seat::ContractError> {
    modules
        .execute(env, &info(who, Vec::new()), ExecuteMsg::Sales(sales::ExecuteMsg::PrimarySale(s)))
        .map(|_| ())
}

fn buy_item(modules: &mut SeatModules, env: &Env, id: &str, funds: Vec<Coin>)
    -> Result<Response, seat::ContractError> {
    let payload = token::MintMsg {
        token_id: id.to_string(),
        owner: BOB.to_string(),
        token_uri: None,
        extension: empty_extension(),
    };
    modules.execute(env, &info(BOB, funds), ExecuteMsg::Sales(sales::ExecuteMsg::BuyItem(payload)))
}

fn active(modules: &SeatModules, env: &Env) -> Option<sales::PrimarySale> {
    let res = modules.query(env, QueryMsg::Sales(sales::QueryMsg::ActivePrimarySale)).unwrap();
    match res {
        QueryResp::Sales(sales::QueryResp::ActivePrimarySale(o)) => o,
        _ => unreachable!(),
    }
}

// creating a campaign while one is window-live fails; the history keeps both
// attempts apart
#[test]
fn create_sale_while_active_fails_with_conflict() {
    let env = env_at(1000);
    let mut modules = fresh_seat(&env);
    create(&mut modules, &env, ALICE, sale(5, 1000, 2000, 10)).unwrap();

    let err = create(&mut modules, &env, ALICE, sale(5, 900, 3000, 10)).unwrap_err();
    assert_eq!(err, seat::ContractError::SalesError(sales::SalesError::Conflict));

    // after the window has passed a new campaign may start
    let later = env_at(2000);
    create(&mut modules, &later, ALICE, sale(5, 2000, 3000, 10)).unwrap();
}

#[test]
fn create_sale_is_owner_only() {
    let env = env_at(1000);
    let mut modules = fresh_seat(&env);
    let err = create(&mut modules, &env, BOB, sale(5, 1000, 2000, 10)).unwrap_err();
    assert_eq!(err, seat::ContractError::SalesError(sales::SalesError::Unauthorized));
}

#[test]
fn create_sale_rejects_malformed_payloads() {
    let env = env_at(1000);
    let mut modules = fresh_seat(&env);
    let invalid = seat::ContractError::SalesError(sales::SalesError::InvalidInput);

    // zero supply
    let err = create(&mut modules, &env, ALICE, sale(0, 1000, 2000, 10)).unwrap_err();
    assert_eq!(err, invalid);
    // empty window
    let err = create(&mut modules, &env, ALICE, sale(5, 2000, 2000, 10)).unwrap_err();
    assert_eq!(err, invalid);
    // zero price amount
    let err = create(&mut modules, &env, ALICE, sale(5, 1000, 2000, 0)).unwrap_err();
    assert_eq!(err, invalid);
    // empty price list
    let err = create(
        &mut modules,
        &env,
        ALICE,
        sales::CreatePrimarySale {
            total_supply: 5,
            start_time: 1000,
            end_time: 2000,
            price: Vec::new(),
        },
    )
    .unwrap_err();
    assert_eq!(err, invalid);
}

// a sale with supply one: buying before the window fails as inactive, the
// first in-window purchase succeeds, the second fails on exhausted supply
#[test]
fn scenario_supply_bounded_window() {
    let before = env_at(500);
    let mut modules = fresh_seat(&before);
    create(&mut modules, &before, ALICE, sale(1, 1000, 2000, 10)).unwrap();

    let err = buy_item(&mut modules, &before, "1", vec![coin("usdc", 10)]).unwrap_err();
    assert_eq!(err, seat::ContractError::SalesError(sales::SalesError::NotFound));
    assert_eq!(active(&modules, &before), None);

    let during = env_at(1000);
    let resp = buy_item(&mut modules, &during, "1", vec![coin("usdc", 10)]).unwrap();
    assert_eq!(
        resp.messages,
        vec![OutMsg::Transfer(TransferMsg {
            recipient: ALICE.to_string(),
            amount: coin("usdc", 10),
        })]
    );
    // the purchased token was minted to the payload's owner
    assert!(modules.seat_token.has_token(&"1".to_string()));

    let err = buy_item(&mut modules, &during, "2", vec![coin("usdc", 10)]).unwrap_err();
    assert_eq!(err, seat::ContractError::SalesError(sales::SalesError::Conflict));
    // supply exhaustion implicitly ended the sale
    assert_eq!(active(&modules, &during), None);
}

#[test]
fn buy_item_underpaying_fails() {
    let env = env_at(1000);
    let mut modules = fresh_seat(&env);
    create(&mut modules, &env, ALICE, sale(5, 1000, 2000, 10)).unwrap();

    let err = buy_item(&mut modules, &env, "1", vec![coin("usdc", 9)]).unwrap_err();
    assert_eq!(err, seat::ContractError::SalesError(sales::SalesError::InvalidInput));
    assert_eq!(active(&modules, &env).unwrap().tokens_minted, 0);
}

#[test]
fn buy_item_existing_token_id_fails() {
    let env = env_at(1000);
    let mut modules = fresh_seat(&env);
    create(&mut modules, &env, ALICE, sale(5, 1000, 2000, 10)).unwrap();
    buy_item(&mut modules, &env, "1", vec![coin("usdc", 10)]).unwrap();

    let err = buy_item(&mut modules, &env, "1", vec![coin("usdc", 10)]).unwrap_err();
    assert_eq!(err, seat::ContractError::SalesError(sales::SalesError::Conflict));
    // the failed purchase did not consume supply
    assert_eq!(active(&modules, &env).unwrap().tokens_minted, 1);
}

// halting ends the sale even though its window has not expired; the record
// stays in the history
#[test]
fn halt_clears_active_sale_and_keeps_history() {
    let env = env_at(1000);
    let mut modules = fresh_seat(&env);
    create(&mut modules, &env, ALICE, sale(5, 1000, 2000, 10)).unwrap();
    assert_eq!(active(&modules, &env).unwrap().start_time, 1000);

    let err = modules
        .execute(&env, &info(BOB, Vec::new()), ExecuteMsg::Sales(sales::ExecuteMsg::HaltSale))
        .unwrap_err();
    assert_eq!(err, seat::ContractError::SalesError(sales::SalesError::Unauthorized));

    modules
        .execute(&env, &info(ALICE, Vec::new()), ExecuteMsg::Sales(sales::ExecuteMsg::HaltSale))
        .unwrap();
    assert_eq!(active(&modules, &env), None);

    let res = modules.query(&env, QueryMsg::Sales(sales::QueryMsg::PrimarySales)).unwrap();
    match res {
        QueryResp::Sales(sales::QueryResp::PrimarySales(ss)) => {
            assert_eq!(ss.len(), 1);
            assert!(ss[0].disabled);
        }
        _ => unreachable!(),
    }
}

#[test]
fn multi_coin_price_must_be_covered_coin_by_coin() {
    let env = env_at(1000);
    let mut modules = fresh_seat(&env);
    let s = sales::CreatePrimarySale {
        total_supply: 5,
        start_time: 1000,
        end_time: 2000,
        price: vec![coin("usdc", 10), coin("uturnt", 3)],
    };
    create(&mut modules, &env, ALICE, s).unwrap();

    let err = buy_item(&mut modules, &env, "1", vec![coin("usdc", 10)]).unwrap_err();
    assert_eq!(err, seat::ContractError::SalesError(sales::SalesError::InvalidInput));

    let resp = buy_item(
        &mut modules,
        &env,
        "1",
        vec![coin("usdc", 10), coin("uturnt", 3)],
    )
    .unwrap();
    assert_eq!(resp.messages.len(), 2);
}

// the merge keeps attributes and events in invocation order and forwards
// only the financial transfer instructions
#[test]
fn merge_forwards_only_transfers() {
    let attr = |k: &str, v: &str| Attribute { key: k.to_string(), value: v.to_string() };
    let first = Response {
        attributes: vec![attr("a", "1")],
        events: vec![Event { name: "e1".to_string(), attributes: vec![attr("k", "v")] }],
        messages: vec![
            OutMsg::Transfer(TransferMsg { recipient: ALICE.to_string(), amount: coin("u", 5) }),
            OutMsg::Contract(ContractCall {
                contract: "other".to_string(),
                payload: "data".to_string(),
            }),
        ],
    };
    let second = Response {
        attributes: vec![attr("b", "2")],
        events: Vec::new(),
        messages: vec![OutMsg::Transfer(TransferMsg {
            recipient: BOB.to_string(),
            amount: coin("u", 7),
        })],
    };
    let mut main = Response::new();
    merge_responses(&mut main, vec![first, second]);

    assert_eq!(main.attributes, vec![attr("a", "1"), attr("b", "2")]);
    assert_eq!(main.events.len(), 1);
    assert_eq!(main.events[0].name, "e1");
    assert_eq!(
        main.messages,
        vec![
            OutMsg::Transfer(TransferMsg { recipient: ALICE.to_string(), amount: coin("u", 5) }),
            OutMsg::Transfer(TransferMsg { recipient: BOB.to_string(), amount: coin("u", 7) }),
        ]
    );
}

#[test]
fn seat_instantiate_emits_its_event() {
    let env = env_at(100);
    let mut modules = SeatModules::new();
    let msg = InstantiateMsg {
        ownable: ownable::InstantiateMsg { owner: ALICE.to_string() },
        metadata: metadata::InstantiateMsg {
            metadata: SeatMetadata {
                name: "X".to_string(),
                image_uri: "i".to_string(),
                description: "d".to_string(),
                benefits: Vec::new(),
                template_number: 1,
                image_settings: ImageSettings { seat_name: true, hub_name: true },
                hub_contract: "hub".to_string(),
            },
        },
        seat_token: token::InstantiateMsg {
            name: "Seats".to_string(),
            symbol: "SEAT".to_string(),
            minter: ALICE.to_string(),
        },
        redeemable: redeemable::InstantiateMsg {},
        sellable: None,
        sales: sales::InstantiateMsg {},
        hub_contract: "hub7".to_string(),
    };
    let resp = modules.instantiate(&env, &info(ALICE, Vec::new()), msg).unwrap();
    assert_eq!(resp.events.len(), 1);
    assert_eq!(resp.events[0].name, "seat_contract-instantiate");
    assert_eq!(resp.events[0].attributes[0].key, "hub_address");
    assert_eq!(resp.events[0].attributes[0].value, "hub7");
    assert_eq!(modules.hub_contract, "hub7");
}

#[test]
fn seat_instantiate_rejects_initial_listing_of_missing_token() {
    let env = env_at(100);
    let mut modules = SeatModules::new();
    let msg = InstantiateMsg {
        ownable: ownable::InstantiateMsg { owner: ALICE.to_string() },
        metadata: metadata::InstantiateMsg {
            metadata: SeatMetadata {
                name: "X".to_string(),
                image_uri: "i".to_string(),
                description: "d".to_string(),
                benefits: Vec::new(),
                template_number: 1,
                image_settings: ImageSettings { seat_name: true, hub_name: true },
                hub_contract: "hub".to_string(),
            },
        },
        seat_token: token::InstantiateMsg {
            name: "Seats".to_string(),
            symbol: "SEAT".to_string(),
            minter: ALICE.to_string(),
        },
        redeemable: redeemable::InstantiateMsg {},
        sellable: Some(sellable::InstantiateMsg {
            tokens: vec![sellable::Listing { token_id: "1".to_string(), price: coin("u", 5) }],
        }),
        sales: sales::InstantiateMsg {},
        hub_contract: "hub".to_string(),
    };
    let err = modules.instantiate(&env, &info(ALICE, Vec::new()), msg).unwrap_err();
    assert_eq!(err, seat::ContractError::SellableError(sellable::SellableError::NotFound));
}
