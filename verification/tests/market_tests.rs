use seat_hub::metadata;
use seat_hub::ownable;
use seat_hub::redeemable;
use seat_hub::sales;
use seat_hub::seat::{
    self, ExecuteMsg, ImageSettings, InstantiateMsg, QueryMsg, QueryResp, SeatMetadata,
    SeatModules, TokenMetadata,
};
use seat_hub::sellable;
use seat_hub::token;
use seat_hub::types::{Coin, Env, MessageInfo};
use seat_hub::response::{OutMsg, TransferMsg};

const ALICE: &str = "alice";
const BOB: &str = "bob";

fn env_at(time: u64) -> Env {
    Env { contract_address: "seat0".to_string(), time }
}

fn info(sender: &str, funds: Vec<Coin>) -> MessageInfo {
    MessageInfo { sender: sender.to_string(), funds }
}

fn coin(denom: &str, amount: u128) -> Coin {
    Coin { denom: denom.to_string(), amount }
}

fn empty_extension() -> TokenMetadata {
    TokenMetadata {
        description: None,
        name: None,
        royalty_percentage: None,
        royalty_payment_address: None,
    }
}

fn seat_metadata() -> SeatMetadata {
    SeatMetadata {
        name: "X".to_string(),
        image_uri: "i".to_string(),
        description: "d".to_string(),
        benefits: Vec::new(),
        template_number: 1,
        image_settings: ImageSettings { seat_name: true, hub_name: true },
        hub_contract: "hub".to_string(),
    }
}

/// A seat instantiated by `ALICE`, who is both owner and minter.
fn fresh_seat(env: &Env) -> SeatModules {
    let mut modules = SeatModules::new();
    let msg = InstantiateMsg {
        ownable: ownable::InstantiateMsg { owner: ALICE.to_string() },
        metadata: metadata::InstantiateMsg { metadata: seat_metadata() },
        seat_token: token::InstantiateMsg {
            name: "Seats".to_string(),
            symbol: "SEAT".to_string(),
            minter: ALICE.to_string(),
        },
        redeemable: redeemable::InstantiateMsg {},
        sellable: None,
        sales: sales::InstantiateMsg {},
        hub_contract: "hub".to_string(),
    };
    modules.instantiate(env, &info(ALICE, Vec::new()), msg).unwrap();
    modules
}

fn mint(modules: &mut SeatModules, env: &Env, id: &str) {
    let msg = ExecuteMsg::SeatToken(token::ExecuteMsg::Mint(token::MintMsg {
        token_id: id.to_string(),
        owner: ALICE.to_string(),
        token_uri: None,
        extension: empty_extension(),
    }));
    modules.execute(env, &info(ALICE, Vec::new()), msg).unwrap();
}

fn list(modules: &mut SeatModules, env: &Env, id: &str, price: Coin) -> Result<(), seat::ContractError> {
    let msg = ExecuteMsg::Sellable(sellable::ExecuteMsg::List {
        listings: vec![sellable::Listing { token_id: id.to_string(), price }],
    });
    modules.execute(env, &info(ALICE, Vec::new()), msg).map(|_| ())
}

fn owner_of(modules: &SeatModules, env: &Env, id: &str) -> String {
    let res = modules
        .query(env, QueryMsg::SeatToken(token::QueryMsg::OwnerOf { token_id: id.to_string() }))
        .unwrap();
    match res {
        QueryResp::SeatToken(token::QueryResp::OwnerOf { owner, .. }) => owner,
        _ => unreachable!(),
    }
}

fn listed_ids(modules: &SeatModules, env: &Env) -> Vec<String> {
    let res = modules
        .query(
            env,
            QueryMsg::Sellable(sellable::QueryMsg::ListedTokens { start_after: None, limit: None }),
        )
        .unwrap();
    match res {
        QueryResp::Sellable(sellable::QueryResp::ListedTokens(ls)) => {
            ls.into_iter().map(|l| l.token_id).collect()
        }
        _ => unreachable!(),
    }
}

// owner A instantiates with owner=A, metadata name "X"; A lists token "1" at
// 200; buyer B buys with 200: token "1" owned by B, listing removed, A is
// paid 200.
#[test]
fn scenario_list_and_buy() {
    let env = env_at(100);
    let mut modules = fresh_seat(&env);
    assert_eq!(modules.ownable.get_owner(), ALICE);
    assert_eq!(modules.metadata.get_metadata().name, "X");

    mint(&mut modules, &env, "1");
    list(&mut modules, &env, "1", coin("uturnt", 200)).unwrap();

    let buy = ExecuteMsg::Sellable(sellable::ExecuteMsg::Buy { token_id: "1".to_string() });
    let resp = modules.execute(&env, &info(BOB, vec![coin("uturnt", 200)]), buy).unwrap();

    assert_eq!(owner_of(&modules, &env, "1"), BOB);
    assert_eq!(listed_ids(&modules, &env).len(), 0);
    assert_eq!(
        resp.messages,
        vec![OutMsg::Transfer(TransferMsg {
            recipient: ALICE.to_string(),
            amount: coin("uturnt", 200),
        })]
    );
}

#[test]
fn buy_with_insufficient_payment_fails_and_changes_nothing() {
    let env = env_at(100);
    let mut modules = fresh_seat(&env);
    mint(&mut modules, &env, "1");
    list(&mut modules, &env, "1", coin("uturnt", 200)).unwrap();

    let buy = ExecuteMsg::Sellable(sellable::ExecuteMsg::Buy { token_id: "1".to_string() });
    let err = modules.execute(&env, &info(BOB, vec![coin("uturnt", 150)]), buy).unwrap_err();
    assert_eq!(err, seat::ContractError::SellableError(sellable::SellableError::InvalidInput));
    assert_eq!(owner_of(&modules, &env, "1"), ALICE);
    assert_eq!(listed_ids(&modules, &env), vec!["1".to_string()]);
}

#[test]
fn buy_with_wrong_denomination_fails() {
    let env = env_at(100);
    let mut modules = fresh_seat(&env);
    mint(&mut modules, &env, "1");
    list(&mut modules, &env, "1", coin("uturnt", 200)).unwrap();

    let buy = ExecuteMsg::Sellable(sellable::ExecuteMsg::Buy { token_id: "1".to_string() });
    let err = modules.execute(&env, &info(BOB, vec![coin("usdc", 500)]), buy).unwrap_err();
    assert_eq!(err, seat::ContractError::SellableError(sellable::SellableError::InvalidInput));
}

#[test]
fn buy_unlisted_token_fails_not_found() {
    let env = env_at(100);
    let mut modules = fresh_seat(&env);
    mint(&mut modules, &env, "1");

    let buy = ExecuteMsg::Sellable(sellable::ExecuteMsg::Buy { token_id: "1".to_string() });
    let err = modules.execute(&env, &info(BOB, vec![coin("uturnt", 200)]), buy).unwrap_err();
    assert_eq!(err, seat::ContractError::SellableError(sellable::SellableError::NotFound));
}

#[test]
fn mint_duplicate_id_fails_with_conflict() {
    let env = env_at(100);
    let mut modules = fresh_seat(&env);
    mint(&mut modules, &env, "1");

    let msg = ExecuteMsg::SeatToken(token::ExecuteMsg::Mint(token::MintMsg {
        token_id: "1".to_string(),
        owner: ALICE.to_string(),
        token_uri: None,
        extension: empty_extension(),
    }));
    let err = modules.execute(&env, &info(ALICE, Vec::new()), msg).unwrap_err();
    assert_eq!(err, seat::ContractError::SeatTokenError(token::TokenError::Conflict));
}

#[test]
fn mint_by_non_minter_fails_unauthorized() {
    let env = env_at(100);
    let mut modules = fresh_seat(&env);
    let msg = ExecuteMsg::SeatToken(token::ExecuteMsg::Mint(token::MintMsg {
        token_id: "1".to_string(),
        owner: BOB.to_string(),
        token_uri: None,
        extension: empty_extension(),
    }));
    let err = modules.execute(&env, &info(BOB, Vec::new()), msg).unwrap_err();
    assert_eq!(err, seat::ContractError::SeatTokenError(token::TokenError::Unauthorized));
}

#[test]
fn mint_then_enumerate_includes_id_exactly_once() {
    let env = env_at(100);
    let mut modules = fresh_seat(&env);
    mint(&mut modules, &env, "7");
    mint(&mut modules, &env, "8");

    let res = modules
        .query(
            &env,
            QueryMsg::SeatToken(token::QueryMsg::AllTokens {
                start_after: None,
                limit: None,
                descending: false,
            }),
        )
        .unwrap();
    match res {
        QueryResp::SeatToken(token::QueryResp::Tokens(ids)) => {
            assert_eq!(ids, vec!["7".to_string(), "8".to_string()]);
            assert_eq!(ids.iter().filter(|i| i.as_str() == "7").count(), 1);
        }
        _ => unreachable!(),
    }
}

#[test]
fn enumerate_supports_order_restart_and_limit() {
    let env = env_at(100);
    let mut modules = fresh_seat(&env);
    for id in ["1", "2", "3"] {
        mint(&mut modules, &env, id);
    }
    let page = |start_after: Option<&str>, limit: Option<usize>, descending: bool| {
        modules.seat_token.enumerate(
            start_after.map(|s| s.to_string()).as_ref(),
            limit,
            descending,
        )
    };
    assert_eq!(page(None, None, true), vec!["3".to_string(), "2".to_string(), "1".to_string()]);
    assert_eq!(page(Some("1"), Some(1), false), vec!["2".to_string()]);
    assert_eq!(page(Some("3"), None, true), vec!["2".to_string(), "1".to_string()]);
    assert_eq!(page(None, Some(0), false), Vec::<String>::new());
    assert_eq!(page(Some("missing"), None, false).len(), 3);
}

#[test]
fn transfer_by_approved_grantee_until_expiry() {
    let env = env_at(50);
    let mut modules = fresh_seat(&env);
    mint(&mut modules, &env, "1");

    let approve = ExecuteMsg::SeatToken(token::ExecuteMsg::Approve {
        spender: BOB.to_string(),
        token_id: "1".to_string(),
        expires: 100,
    });
    modules.execute(&env, &info(ALICE, Vec::new()), approve).unwrap();

    // a third party may not send the token
    let steal = ExecuteMsg::SeatToken(token::ExecuteMsg::TransferNft {
        recipient: "mallory".to_string(),
        token_id: "1".to_string(),
    });
    let err = modules.execute(&env, &info("mallory", Vec::new()), steal).unwrap_err();
    assert_eq!(err, seat::ContractError::SeatTokenError(token::TokenError::Unauthorized));

    // after the expiry the grant no longer authorizes
    let late = env_at(100);
    let transfer = ExecuteMsg::SeatToken(token::ExecuteMsg::TransferNft {
        recipient: BOB.to_string(),
        token_id: "1".to_string(),
    });
    let err = modules.execute(&late, &info(BOB, Vec::new()), transfer).unwrap_err();
    assert_eq!(err, seat::ContractError::SeatTokenError(token::TokenError::Unauthorized));

    // within the window the grantee may take the token
    let transfer = ExecuteMsg::SeatToken(token::ExecuteMsg::TransferNft {
        recipient: BOB.to_string(),
        token_id: "1".to_string(),
    });
    modules.execute(&env, &info(BOB, Vec::new()), transfer).unwrap();
    assert_eq!(owner_of(&modules, &env, "1"), BOB);
}

#[test]
fn redeem_twice_fails_and_blocks_listing() {
    let env = env_at(100);
    let mut modules = fresh_seat(&env);
    mint(&mut modules, &env, "1");

    let redeem = ExecuteMsg::Redeemable(redeemable::ExecuteMsg::RedeemItem("1".to_string()));
    modules.execute(&env, &info(BOB, Vec::new()), redeem).unwrap();

    let res = modules
        .query(&env, QueryMsg::Redeemable(redeemable::QueryMsg::IsRedeemed("1".to_string())))
        .unwrap();
    assert_eq!(res, QueryResp::Redeemable(redeemable::QueryResp::IsRedeemed(true)));

    let redeem = ExecuteMsg::Redeemable(redeemable::ExecuteMsg::RedeemItem("1".to_string()));
    let err = modules.execute(&env, &info(BOB, Vec::new()), redeem).unwrap_err();
    assert_eq!(err, seat::ContractError::RedeemableError(redeemable::RedeemableError::Conflict));

    // a redeemed token cannot be newly listed
    let err = list(&mut modules, &env, "1", coin("uturnt", 200)).unwrap_err();
    assert_eq!(err, seat::ContractError::SellableError(sellable::SellableError::Conflict));
}

#[test]
fn redeem_missing_token_fails_not_found() {
    let env = env_at(100);
    let mut modules = fresh_seat(&env);
    let redeem = ExecuteMsg::Redeemable(redeemable::ExecuteMsg::RedeemItem("9".to_string()));
    let err = modules.execute(&env, &info(BOB, Vec::new()), redeem).unwrap_err();
    assert_eq!(err, seat::ContractError::RedeemableError(redeemable::RedeemableError::NotFound));
}

#[test]
fn buy_fails_when_token_redeemed_after_listing() {
    let env = env_at(100);
    let mut modules = fresh_seat(&env);
    mint(&mut modules, &env, "1");
    list(&mut modules, &env, "1", coin("uturnt", 200)).unwrap();

    let redeem = ExecuteMsg::Redeemable(redeemable::ExecuteMsg::RedeemItem("1".to_string()));
    modules.execute(&env, &info(BOB, Vec::new()), redeem).unwrap();

    // redemption is re-checked at buy time
    let buy = ExecuteMsg::Sellable(sellable::ExecuteMsg::Buy { token_id: "1".to_string() });
    let err = modules.execute(&env, &info(BOB, vec![coin("uturnt", 200)]), buy).unwrap_err();
    assert_eq!(err, seat::ContractError::SellableError(sellable::SellableError::Conflict));
    assert_eq!(owner_of(&modules, &env, "1"), ALICE);
}

#[test]
fn list_by_non_owner_fails_unauthorized() {
    let env = env_at(100);
    let mut modules = fresh_seat(&env);
    mint(&mut modules, &env, "1");
    let msg = ExecuteMsg::Sellable(sellable::ExecuteMsg::List {
        listings: vec![sellable::Listing { token_id: "1".to_string(), price: coin("uturnt", 5) }],
    });
    let err = modules.execute(&env, &info(BOB, Vec::new()), msg).unwrap_err();
    assert_eq!(err, seat::ContractError::SellableError(sellable::SellableError::Unauthorized));
}

#[test]
fn list_zero_price_fails_invalid_input() {
    let env = env_at(100);
    let mut modules = fresh_seat(&env);
    mint(&mut modules, &env, "1");
    let err = list(&mut modules, &env, "1", coin("uturnt", 0)).unwrap_err();
    assert_eq!(err, seat::ContractError::SellableError(sellable::SellableError::InvalidInput));
}

#[test]
fn list_missing_token_fails_not_found() {
    let env = env_at(100);
    let mut modules = fresh_seat(&env);
    let err = list(&mut modules, &env, "1", coin("uturnt", 5)).unwrap_err();
    assert_eq!(err, seat::ContractError::SellableError(sellable::SellableError::NotFound));
}

#[test]
fn batch_listing_is_all_or_nothing() {
    let env = env_at(100);
    let mut modules = fresh_seat(&env);
    mint(&mut modules, &env, "1");
    // the second entry refers to a missing token, so nothing is listed
    let msg = ExecuteMsg::Sellable(sellable::ExecuteMsg::List {
        listings: vec![
            sellable::Listing { token_id: "1".to_string(), price: coin("uturnt", 5) },
            sellable::Listing { token_id: "9".to_string(), price: coin("uturnt", 5) },
        ],
    });
    let err = modules.execute(&env, &info(ALICE, Vec::new()), msg).unwrap_err();
    assert_eq!(err, seat::ContractError::SellableError(sellable::SellableError::NotFound));
    assert_eq!(listed_ids(&modules, &env).len(), 0);
}

#[test]
fn relisting_replaces_the_price() {
    let env = env_at(100);
    let mut modules = fresh_seat(&env);
    mint(&mut modules, &env, "1");
    list(&mut modules, &env, "1", coin("uturnt", 200)).unwrap();
    list(&mut modules, &env, "1", coin("uturnt", 300)).unwrap();

    assert_eq!(
        modules.sellable_token.price_of(&"1".to_string()),
        Some(coin("uturnt", 300))
    );
    assert_eq!(listed_ids(&modules, &env), vec!["1".to_string()]);
}

#[test]
fn delist_is_owner_only() {
    let env = env_at(100);
    let mut modules = fresh_seat(&env);
    mint(&mut modules, &env, "1");
    list(&mut modules, &env, "1", coin("uturnt", 200)).unwrap();

    let delist = ExecuteMsg::Sellable(sellable::ExecuteMsg::Delist { token_id: "1".to_string() });
    let err = modules.execute(&env, &info(BOB, Vec::new()), delist).unwrap_err();
    assert_eq!(err, seat::ContractError::SellableError(sellable::SellableError::Unauthorized));

    let delist = ExecuteMsg::Sellable(sellable::ExecuteMsg::Delist { token_id: "1".to_string() });
    modules.execute(&env, &info(ALICE, Vec::new()), delist).unwrap();
    assert_eq!(listed_ids(&modules, &env).len(), 0);

    let delist = ExecuteMsg::Sellable(sellable::ExecuteMsg::Delist { token_id: "1".to_string() });
    let err = modules.execute(&env, &info(ALICE, Vec::new()), delist).unwrap_err();
    assert_eq!(err, seat::ContractError::SellableError(sellable::SellableError::NotFound));
}

#[test]
fn all_seats_reports_tokens_with_listing_state() {
    let env = env_at(100);
    let mut modules = fresh_seat(&env);
    mint(&mut modules, &env, "1");
    mint(&mut modules, &env, "2");
    list(&mut modules, &env, "2", coin("uturnt", 70)).unwrap();

    let res = modules.query(&env, QueryMsg::AllSeats).unwrap();
    match res {
        QueryResp::AllSeats(infos) => {
            assert_eq!(infos.len(), 2);
            assert_eq!(infos[0].token_id, "1");
            assert_eq!(infos[0].listed_price, None);
            assert_eq!(infos[0].owner, ALICE);
            assert_eq!(infos[1].token_id, "2");
            assert_eq!(infos[1].listed_price, Some(coin("uturnt", 70)));
        }
        _ => unreachable!(),
    }
}
