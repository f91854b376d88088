use outlet::bond::contract as bond;
use outlet::bond::msg as bond_msg;
use outlet::chain::{attr, Coin, Env, MessageInfo};
use outlet::error::ContractError;
use outlet::treasury::contract::{
    add_remove_depositor, add_remove_spender, deposit, execute, execute_is_in_range, instantiate,
    is_listed, only_admin, position, toggle, withdraw,
};
use outlet::treasury::msg::{ExecuteMsg, InstantiateMsg, Request, TokenCall};
use outlet::treasury::state::{State, Store};

fn coins(amount: u128, denom: &str) -> Vec<Coin> {
    vec![Coin { denom: denom.to_string(), amount }]
}

fn mock_info(sender: &str, funds: &[Coin]) -> MessageInfo {
    MessageInfo { sender: sender.to_string(), funds: funds.to_vec(), is_admin: true }
}

fn stranger(sender: &str) -> MessageInfo {
    MessageInfo { sender: sender.to_string(), funds: Vec::new(), is_admin: false }
}

fn fresh(admin: &str) -> Store {
    let msg = InstantiateMsg { admin: admin.to_string() };
    instantiate("treasury".to_string(), &mock_info(admin, &[]), msg).unwrap().0
}

#[test]
fn contract_proper_initialization() {
    let addr = "terra1e8ryd9ezefuucd4mje33zdms9m2s90m57878v9";

    let msg = InstantiateMsg { admin: addr.to_string() };
    let info = mock_info(addr, &coins(1000, "earth"));

    // we can just call .unwrap() to assert this was a success
    let (mut store, res) = instantiate("cosmos2contract".to_string(), &info, msg).unwrap();
    assert_eq!(0, res.messages.len());

    let _res2 = add_remove_depositor(&mut store, &info, addr.to_string());

    assert!(execute_is_in_range(&store, &info, &ExecuteMsg::Deposit { amount: 500, profit: 50 }));
    let _res3 = deposit(&mut store, &info, 500, 50);

    println!("{:#?}", store);

    assert_eq!(
        res.token_calls,
        vec![TokenCall::Create {
            name: "Phase".to_string(),
            symbol: "PHS".to_string(),
            decimals: 9,
            minter: "cosmos2contract".to_string(),
        }]
    );
    assert_eq!(res.attributes, vec![attr("method", "instantiate"), attr("owner", addr)]);
    assert_eq!(
        _res3.unwrap().token_calls,
        vec![TokenCall::Mint { recipient: addr.to_string(), amount: 450 }]
    );
    assert_eq!(store.state, State { total_reserves: 500, total_debt: 0 });
    assert_eq!(store.depositors.depositors, vec![addr.to_string()]);
    assert!(store.spenders.spenders.is_empty());
}

#[test]
fn transfer_ust() {
    let addr_string = "terra1dcegyrekltswvyy0xy69ydgxn9x8x32zdtapd8".to_string();
    let treasury_addr = "Treasury".to_string();
    let bond_addr = "Bond".to_string();
    let admin = mock_info(&addr_string, &[]);

    let treasury_init_msg = InstantiateMsg { admin: addr_string.clone() };
    let (mut treasury, _) =
        instantiate(treasury_addr.clone(), &admin, treasury_init_msg).unwrap();

    let bond_inst_msg = bond_msg::InstantiateMsg {
        admin: addr_string.clone(),
        treasury: treasury_addr.clone(),
        dao: addr_string.clone(),
        staking: addr_string.clone(),
        total_debt: 0,
        last_decay: 0,
    };
    let env = Env { height: 12_345, total_supply: 60_000_000_000 };
    let (mut bonds, _) = bond::instantiate(&env, &admin, bond_inst_msg).unwrap();

    let terms_msg = bond_msg::ExecuteMsg::Init {
        control_variable: 369,
        vesting_term: 28800,
        minimum_price: 10000,
        max_payout: 50,
        fee: 1000,
        max_debt: 1000000000000000,
        initial_debt: 0,
    };

    let add_depositor_msg = ExecuteMsg::AddRemoveDepositor { address: bond_addr.clone() };
    execute(&mut treasury, &admin, add_depositor_msg).unwrap();

    let deposit_msg = bond_msg::ExecuteMsg::Deposit { max_price: 50000 };

    bond::execute(&mut bonds, &env, &admin, terms_msg).unwrap();

    let funds = mock_info(&addr_string, &coins(1000u128 * 10u128.pow(6), "uusd"));
    assert!(bond::execute_is_in_range(&bonds, &env, &funds, &deposit_msg));
    let res = bond::execute(&mut bonds, &env, &funds, deposit_msg).unwrap();

    // the chain delivers the one request to the treasury, as the bond contract
    let mut total_supply: u128 = 0;
    assert_eq!(res.messages.len(), 1);
    for request in res.messages {
        match request {
            bond_msg::Request::ReserveDeposit { treasury: to, funds: _, amount, profit } => {
                assert_eq!(to, treasury_addr);
                let from_bond = stranger(&bond_addr);
                let msg = ExecuteMsg::Deposit { amount, profit };
                assert!(execute_is_in_range(&treasury, &from_bond, &msg));
                for call in execute(&mut treasury, &from_bond, msg).unwrap().token_calls {
                    match call {
                        TokenCall::Mint { recipient, amount } => {
                            assert_eq!(recipient, bond_addr);
                            total_supply += amount;
                        }
                        _ => panic!("Must mint"),
                    }
                }
            }
            _ => panic!("Must ask the treasury"),
        }
    }
    assert_eq!(10, total_supply / 10u128.pow(9));

    assert_eq!(total_supply, 10_100_000_000);
    assert_eq!(treasury.state.total_reserves, 1_000_000_000_000);
}

#[test]
fn toggling_twice_restores_the_list() {
    let admin = mock_info("admin", &[]);
    let mut store = fresh("admin");
    for name in ["a", "b", "c"] {
        add_remove_depositor(&mut store, &admin, name.to_string()).unwrap();
    }
    let before = store.clone();
    // an address that is not on the list: the list itself comes back
    let res = add_remove_depositor(&mut store, &admin, "d".to_string()).unwrap();
    assert_eq!(res.attributes, vec![attr("added", "d")]);
    assert_eq!(store.depositors.depositors, vec!["a", "b", "c", "d"]);
    let res = add_remove_depositor(&mut store, &admin, "d".to_string()).unwrap();
    assert_eq!(res.attributes, vec![attr("removed", "d")]);
    assert_eq!(store, before);
    // an address that is on the list: the same addresses come back
    add_remove_depositor(&mut store, &admin, "a".to_string()).unwrap();
    assert_eq!(store.depositors.depositors, vec!["b", "c"]);
    add_remove_depositor(&mut store, &admin, "a".to_string()).unwrap();
    assert_eq!(store.depositors.depositors, vec!["b", "c", "a"]);
    let mut sorted = store.depositors.depositors.clone();
    sorted.sort();
    assert_eq!(sorted, before.depositors.depositors);
    assert!(store.spenders.spenders.is_empty());
}

#[test]
fn the_two_lists_are_apart() {
    let admin = mock_info("admin", &[]);
    let mut store = fresh("admin");
    add_remove_spender(&mut store, &admin, "s".to_string()).unwrap();
    execute(&mut store, &admin, ExecuteMsg::AddRemoveDepositor { address: "d".into() }).unwrap();
    assert_eq!(store.spenders.spenders, vec!["s"]);
    assert_eq!(store.depositors.depositors, vec!["d"]);
    let res =
        execute(&mut store, &admin, ExecuteMsg::AddRemoveSpender { address: "s".into() }).unwrap();
    assert_eq!(res.attributes, vec![attr("removed", "s")]);
    assert!(store.spenders.spenders.is_empty());
    assert_eq!(store.depositors.depositors, vec!["d"]);
}

#[test]
fn toggling_is_for_the_admin() {
    let mut store = fresh("admin");
    let before = store.clone();
    assert_eq!(only_admin(&stranger("x")), Err(ContractError::Unauthorized));
    assert_eq!(only_admin(&mock_info("admin", &[])), Ok(()));
    assert_eq!(
        add_remove_depositor(&mut store, &stranger("x"), "x".to_string()),
        Err(ContractError::Unauthorized)
    );
    assert_eq!(
        add_remove_spender(&mut store, &stranger("x"), "x".to_string()),
        Err(ContractError::Unauthorized)
    );
    assert_eq!(store, before);
}

#[test]
fn list_helpers() {
    let mut list: Vec<String> = vec!["a".into(), "b".into(), "a".into()];
    assert_eq!(position(&list, &"a".to_string()), Some(0));
    assert_eq!(position(&list, &"b".to_string()), Some(1));
    assert_eq!(position(&list, &"c".to_string()), None);
    assert!(is_listed(&list, &"b".to_string()));
    assert!(!is_listed(&list, &"".to_string()));
    // the first entry goes
    assert!(!toggle(&mut list, &"a".to_string()));
    assert_eq!(list, vec!["b", "a"]);
    assert!(toggle(&mut list, &"c".to_string()));
    assert_eq!(list, vec!["b", "a", "c"]);
}

#[test]
fn deposit_is_for_depositors() {
    let admin = mock_info("admin", &[]);
    let mut store = fresh("admin");
    add_remove_spender(&mut store, &admin, "bond".to_string()).unwrap();
    let before = store.clone();
    // the admin is no depositor, and neither is a spender
    assert_eq!(deposit(&mut store, &admin, 500, 50), Err(ContractError::Unauthorized));
    assert_eq!(deposit(&mut store, &stranger("bond"), 500, 50), Err(ContractError::Unauthorized));
    assert_eq!(store, before);
    add_remove_depositor(&mut store, &admin, "bond".to_string()).unwrap();
    let res = deposit(&mut store, &stranger("bond"), 500, 500).unwrap();
    assert_eq!(res.token_calls, vec![TokenCall::Mint { recipient: "bond".into(), amount: 0 }]);
    assert!(res.messages.is_empty() && res.attributes.is_empty());
    assert_eq!(store.state.total_reserves, 500);
    // out of range: more profit than amount, or reserves beyond 64 bits
    let bond = stranger("bond");
    assert!(!execute_is_in_range(&store, &bond, &ExecuteMsg::Deposit { amount: 1, profit: 2 }));
    assert!(!execute_is_in_range(
        &store,
        &bond,
        &ExecuteMsg::Deposit { amount: u64::MAX, profit: 0 }
    ));
    assert!(execute_is_in_range(
        &store,
        &bond,
        &ExecuteMsg::Deposit { amount: u64::MAX - 500, profit: 0 }
    ));
    // for a caller that is refused anyway, nothing is out of range
    assert!(execute_is_in_range(&store, &admin, &ExecuteMsg::Deposit { amount: 1, profit: 2 }));
}

#[test]
fn withdraw_is_for_spenders() {
    let admin = mock_info("admin", &[]);
    let mut store = fresh("admin");
    add_remove_depositor(&mut store, &admin, "dao".to_string()).unwrap();
    deposit(&mut store, &stranger("dao"), 10_000, 0).unwrap();
    let before = store.clone();
    assert_eq!(
        withdraw(&mut store, &stranger("dao"), "me".to_string(), 3),
        Err(ContractError::Unauthorized)
    );
    assert_eq!(store, before);
    add_remove_spender(&mut store, &admin, "dao".to_string()).unwrap();
    let dao = stranger("dao");
    let msg = ExecuteMsg::Withdraw { recipient: "me".into(), amount: 3 };
    assert!(execute_is_in_range(&store, &dao, &msg));
    let res = execute(&mut store, &dao, msg).unwrap();
    assert_eq!(res.token_calls, vec![TokenCall::Burn { amount: 3_000 }]);
    assert_eq!(
        res.messages,
        vec![Request::Send {
            to_address: "me".into(),
            amount: Coin { denom: "uusd".into(), amount: 3 },
        }]
    );
    assert_eq!(store.state, State { total_reserves: 7_000, total_debt: 0 });
    // all that is left can go, and no more
    assert!(execute_is_in_range(
        &store,
        &dao,
        &ExecuteMsg::Withdraw { recipient: "me".into(), amount: 7 }
    ));
    assert!(!execute_is_in_range(
        &store,
        &dao,
        &ExecuteMsg::Withdraw { recipient: "me".into(), amount: 8 }
    ));
    assert!(!execute_is_in_range(
        &store,
        &dao,
        &ExecuteMsg::Withdraw { recipient: "me".into(), amount: u64::MAX }
    ));
}

#[test]
fn token_commands_are_handed_on() {
    let mut store = fresh("admin");
    let before = store.clone();
    let anyone = stranger("anyone");
    let res = execute(
        &mut store,
        &anyone,
        ExecuteMsg::Transfer { recipient: "r".into(), amount: 5 },
    )
    .unwrap();
    assert_eq!(res.token_calls, vec![TokenCall::Transfer { recipient: "r".into(), amount: 5 }]);
    let res = execute(
        &mut store,
        &anyone,
        ExecuteMsg::TransferFrom { owner: "o".into(), recipient: "r".into(), amount: 6 },
    )
    .unwrap();
    assert_eq!(
        res.token_calls,
        vec![TokenCall::TransferFrom { owner: "o".into(), recipient: "r".into(), amount: 6 }]
    );
    let res = execute(
        &mut store,
        &anyone,
        ExecuteMsg::IncreaseAllowance { spender: "s".into(), amount: 7 },
    )
    .unwrap();
    assert_eq!(
        res.token_calls,
        vec![TokenCall::IncreaseAllowance { spender: "s".into(), amount: 7 }]
    );
    assert!(res.messages.is_empty() && res.attributes.is_empty());
    assert_eq!(store, before);
}
