use vstd::prelude::*;
use crate::chain::{attr, Coin, MessageInfo};
use crate::error::ContractError;
use crate::treasury::msg::{ExecuteMsg, InstantiateMsg, Request, Response, TokenCall};
use crate::treasury::state::{names, ReserveDepositors, ReserveSpenders, State, Store};

verus! {

// ---------------------------------------------------------------------
// Allow-lists
// ---------------------------------------------------------------------

/// The list after a toggle of `address`: without its first entry for the
/// address where it has one, with the address at its end where it has
/// none.
pub open spec fn toggled(list: Seq<Seq<char>>, address: Seq<char>) -> Seq<Seq<char>> {
    if list.contains(address) {
        list.remove_value(address)
    } else {
        list.push(address)
    }
}

/// Where `address` first stands in `list`, if it does.
pub fn position(list: &Vec<String>, address: &String) -> (at: Option<usize>)
    ensures
        at matches Some(i) ==> i < list@.len() && Some(i as int) == names(list@).index_of_first(
            address@,
        ),
        at is None <==> !names(list@).contains(address@),
{
    let ghost all = names(list@);
    let mut i: usize = 0;
    while i < list.len()
        invariant
            i <= list.len(),
            all == names(list@),
            forall|j: int| 0 <= j < i ==> all[j] != address@,
        decreases list.len() - i,
    {
        if list[i] == *address {
            proof {
                assert(all[i as int] == address@);
                all.index_of_first_ensures(address@);
                let first = all.index_of_first(address@).unwrap();
                assert(all[first] == address@);
                assert(first == i);
            }
            return Some(i);
        }
        i += 1;
    }
    None
}

/// Whether `address` is on `list`.
pub fn is_listed(list: &Vec<String>, address: &String) -> (listed: bool)
    ensures
        listed == names(list@).contains(address@),
{
    position(list, address).is_some()
}

/// Takes `address` off `list` where it is on it, and puts it on where it
/// is not. Says whether it was put on.
pub fn toggle(list: &mut Vec<String>, address: &String) -> (added: bool)
    ensures
        names(final(list)@) == toggled(names(old(list)@), address@),
        added == !names(old(list)@).contains(address@),
        names(old(list)@).no_duplicates() ==> names(final(list)@).no_duplicates(),
{
    let ghost before = names(list@);
    match position(list, address) {
        None => {
            list.push(address.clone());
            assert(names(list@) =~= before.push(address@));
            proof {
                if before.no_duplicates() {
                    lemma_toggled_no_duplicates(before, address@);
                }
            }
            true
        },
        Some(i) => {
            let _ = list.remove(i);
            assert(names(list@) =~= before.remove(i as int));
            proof {
                if before.no_duplicates() {
                    lemma_toggled_no_duplicates(before, address@);
                }
            }
            false
        },
    }
}

/// A toggle keeps a list free of duplicates, and it changes whether the
/// address is on the list, and that of no other address.
pub proof fn lemma_toggled_no_duplicates(list: Seq<Seq<char>>, address: Seq<char>)
    requires
        list.no_duplicates(),
    ensures
        toggled(list, address).no_duplicates(),
        toggled(list, address).contains(address) == !list.contains(address),
        forall|other: Seq<char>|
            other != address ==> toggled(list, address).contains(other) == list.contains(other),
{
    let after = toggled(list, address);
    list.index_of_first_ensures(address);
    if list.contains(address) {
        let i = list.index_of_first(address).unwrap();
        assert(after == list.remove(i));
        assert forall|j: int, k: int| 0 <= j < after.len() && 0 <= k < after.len() && j != k
            implies after[j] != after[k] by {
            let jj = if j < i { j } else { j + 1 };
            let kk = if k < i { k } else { k + 1 };
            assert(after[j] == list[jj] && after[k] == list[kk]);
        }
        if after.contains(address) {
            let j = choose|j: int| 0 <= j < after.len() && after[j] == address;
            let jj = if j < i { j } else { j + 1 };
            assert(list[jj] == address && jj != i);
        }
        assert forall|other: Seq<char>| other != address implies after.contains(other)
            == list.contains(other) by {
            if list.contains(other) {
                let j = choose|j: int| 0 <= j < list.len() && list[j] == other;
                let jj = if j < i { j } else { j - 1 };
                assert(after[jj] == other);
            }
            if after.contains(other) {
                let j = choose|j: int| 0 <= j < after.len() && after[j] == other;
                let jj = if j < i { j } else { j + 1 };
                assert(list[jj] == other);
            }
        }
    } else {
        assert(after == list.push(address));
        assert(after[list.len() as int] == address);
        assert forall|other: Seq<char>| other != address implies after.contains(other)
            == list.contains(other) by {
            if list.contains(other) {
                let j = choose|j: int| 0 <= j < list.len() && list[j] == other;
                assert(after[j] == other);
            }
        }
    }
}

/// Two toggles of one address leave on the list exactly the addresses that
/// were on it. Where the address was not on the list, they leave the list
/// itself.
pub proof fn lemma_toggle_twice(list: Seq<Seq<char>>, address: Seq<char>)
    requires
        list.no_duplicates(),
    ensures
        toggled(toggled(list, address), address).to_set() == list.to_set(),
        toggled(toggled(list, address), address).no_duplicates(),
        !list.contains(address) ==> toggled(toggled(list, address), address) == list,
{
    let once = toggled(list, address);
    let twice = toggled(once, address);
    lemma_toggled_no_duplicates(list, address);
    lemma_toggled_no_duplicates(once, address);
    assert forall|other: Seq<char>| twice.to_set().contains(other) == list.to_set().contains(
        other,
    ) by {
        assert(twice.contains(other) == list.contains(other));
    }
    assert(twice.to_set() =~= list.to_set());
    if !list.contains(address) {
        once.index_of_first_ensures(address);
        let i = once.index_of_first(address).unwrap();
        assert(once[list.len() as int] == address);
        assert(i == list.len());
        assert(twice =~= list);
    }
}

// ---------------------------------------------------------------------
// Set-up and governance
// ---------------------------------------------------------------------

/// The call that creates the treasury's token.
pub open spec fn is_token_creation(call: TokenCall, contract: String) -> bool {
    &&& call matches TokenCall::Create { name, symbol, decimals, minter }
    &&& name@ == "Phase"@
    &&& symbol@ == "PHS"@
    &&& decimals == 9
    &&& minter == contract
}

/// Sets the treasury up: no reserves, no debt, nobody on either list. Its
/// token is to be created, with the treasury itself, at the address
/// `contract`, as its minter.
pub fn instantiate(contract: String, info: &MessageInfo, msg: InstantiateMsg) -> (res: Result<
    (Store, Response),
    ContractError,
>)
    ensures
        res matches Ok((store, response)) && {
            &&& store.state == (State { total_reserves: 0, total_debt: 0 })
            &&& store.depositors@.len() == 0
            &&& store.spenders@.len() == 0
            &&& store.wf()
            &&& response.messages@.len() == 0
            &&& response.token_calls@.len() == 1
            &&& is_token_creation(response.token_calls@[0], contract)
            &&& response.attributes@.len() == 2
            &&& response.attributes@[0].key@ == "method"@
            &&& response.attributes@[0].value@ == "instantiate"@
            &&& response.attributes@[1].key@ == "owner"@
            &&& response.attributes@[1].value@ == info.sender@
        },
{
    let store = Store {
        state: State { total_reserves: 0, total_debt: 0 },
        depositors: ReserveDepositors { depositors: Vec::new() },
        spenders: ReserveSpenders { spenders: Vec::new() },
    };
    let mut response = Response::new();
    response.token_calls.push(
        TokenCall::Create {
            name: "Phase".to_owned(),
            symbol: "PHS".to_owned(),
            decimals: 9,
            minter: contract,
        },
    );
    response.attributes.push(attr("method", "instantiate"));
    response.attributes.push(attr("owner", info.sender.as_str()));
    Ok((store, response))
}

/// Passes for the admin, and for nobody else.
pub fn only_admin(info: &MessageInfo) -> (res: Result<(), ContractError>)
    ensures
        info.is_admin ==> res == Ok::<(), ContractError>(()),
        !info.is_admin ==> res == Err::<(), ContractError>(ContractError::Unauthorized),
{
    if info.is_admin {
        Ok(())
    } else {
        Err(ContractError::Unauthorized)
    }
}

/// The response reports, under `added` or under `removed`, the one
/// address that was toggled.
pub open spec fn reports_toggle(response: Response, added: bool, address: Seq<char>) -> bool {
    &&& response.messages@.len() == 0
    &&& response.token_calls@.len() == 0
    &&& response.attributes@.len() == 1
    &&& response.attributes@[0].key@ == if added {
        "added"@
    } else {
        "removed"@
    }
    &&& response.attributes@[0].value@ == address
}

/// What `add_remove_depositor` does: nothing but refuse, for anybody but
/// the admin; otherwise `address` is toggled on the list of depositors,
/// and that is reported.
pub open spec fn add_remove_depositor_outcome(
    pre: Store,
    info: MessageInfo,
    address: String,
    post: Store,
    res: Result<Response, ContractError>,
) -> bool {
    if !info.is_admin {
        res == Err::<Response, ContractError>(ContractError::Unauthorized) && post == pre
    } else {
        &&& res matches Ok(response)
        &&& reports_toggle(response, !pre.depositors@.contains(address@), address@)
        &&& post.depositors@ == toggled(pre.depositors@, address@)
        &&& post.spenders == pre.spenders
        &&& post.state == pre.state
    }
}

/// Toggles `address` on the list of depositors, for the admin only: an
/// address on the list is taken off, one that is not on it is put on.
pub fn add_remove_depositor(store: &mut Store, info: &MessageInfo, address: String) -> (res: Result<
    Response,
    ContractError,
>)
    ensures
        add_remove_depositor_outcome(*old(store), *info, address, *final(store), res),
        old(store).wf() ==> final(store).wf(),
{
    match only_admin(info) {
        Err(e) => {
            return Err(e);
        },
        Ok(_) => {},
    }
    let mut response = Response::new();
    if toggle(&mut store.depositors.depositors, &address) {
        response.attributes.push(attr("added", address.as_str()));
    } else {
        response.attributes.push(attr("removed", address.as_str()));
    }
    Ok(response)
}

/// What `add_remove_spender` does: nothing but refuse, for anybody but the
/// admin; otherwise `address` is toggled on the list of spenders, and that
/// is reported.
pub open spec fn add_remove_spender_outcome(
    pre: Store,
    info: MessageInfo,
    address: String,
    post: Store,
    res: Result<Response, ContractError>,
) -> bool {
    if !info.is_admin {
        res == Err::<Response, ContractError>(ContractError::Unauthorized) && post == pre
    } else {
        &&& res matches Ok(response)
        &&& reports_toggle(response, !pre.spenders@.contains(address@), address@)
        &&& post.spenders@ == toggled(pre.spenders@, address@)
        &&& post.depositors == pre.depositors
        &&& post.state == pre.state
    }
}

/// Toggles `address` on the list of spenders, for the admin only: an
/// address on the list is taken off, one that is not on it is put on.
pub fn add_remove_spender(store: &mut Store, info: &MessageInfo, address: String) -> (res: Result<
    Response,
    ContractError,
>)
    ensures
        add_remove_spender_outcome(*old(store), *info, address, *final(store), res),
        old(store).wf() ==> final(store).wf(),
{
    match only_admin(info) {
        Err(e) => {
            return Err(e);
        },
        Ok(_) => {},
    }
    let mut response = Response::new();
    if toggle(&mut store.spenders.spenders, &address) {
        response.attributes.push(attr("added", address.as_str()));
    } else {
        response.attributes.push(attr("removed", address.as_str()));
    }
    Ok(response)
}

// ---------------------------------------------------------------------
// Reserves
// ---------------------------------------------------------------------

/// A deposit by a depositor leaves the amount minted, and the reserves,
/// within 64 bits and not negative.
pub open spec fn deposit_in_range(store: Store, info: MessageInfo, amount: u64, profit: u64) -> bool {
    store.depositors@.contains(info.sender@) ==> profit <= amount && store.state.total_reserves
        + amount <= u64::MAX
}

/// What `deposit` does: nothing but refuse, for a caller that is not on
/// the list of depositors; otherwise `amount` less `profit` of the token
/// is to be minted to the caller, and `amount` joins the reserves.
pub open spec fn deposit_outcome(
    pre: Store,
    info: MessageInfo,
    amount: u64,
    profit: u64,
    post: Store,
    res: Result<Response, ContractError>,
) -> bool {
    if !pre.depositors@.contains(info.sender@) {
        res == Err::<Response, ContractError>(ContractError::Unauthorized) && post == pre
    } else {
        &&& res matches Ok(response)
        &&& response.attributes@.len() == 0
        &&& response.messages@.len() == 0
        &&& response.token_calls@.len() == 1
        &&& response.token_calls@[0] == (TokenCall::Mint {
            recipient: info.sender,
            amount: (amount - profit) as u128,
        })
        &&& post == (Store {
            state: State {
                total_reserves: (pre.state.total_reserves + amount) as u64,
                ..pre.state
            },
            ..pre
        })
    }
}

/// Takes a deposit into the reserves, from a depositor only.
pub fn deposit(store: &mut Store, info: &MessageInfo, amount: u64, profit: u64) -> (res: Result<
    Response,
    ContractError,
>)
    requires
        deposit_in_range(*old(store), *info, amount, profit),
    ensures
        deposit_outcome(*old(store), *info, amount, profit, *final(store), res),
        old(store).wf() ==> final(store).wf(),
{
    let is_depositor: bool = is_listed(&store.depositors.depositors, &info.sender);
    if is_depositor {
        let send: u64 = amount - profit;
        let mut response = Response::new();
        response.token_calls.push(
            TokenCall::Mint { recipient: info.sender.clone(), amount: send as u128 },
        );
        let reserve: u64 = store.state.total_reserves;
        store.state.total_reserves = reserve + amount;
        Ok(response)
    } else {
        Err(ContractError::Unauthorized)
    }
}

/// What a withdrawal of `amount` takes out of the reserves, and burns of
/// the token.
pub open spec fn withdrawn_value(amount: u64) -> int {
    amount * 1000
}

/// A withdrawal by a spender takes no more out of the reserves than they
/// hold.
pub open spec fn withdraw_in_range(store: Store, info: MessageInfo, amount: u64) -> bool {
    store.spenders@.contains(info.sender@) ==> withdrawn_value(amount)
        <= store.state.total_reserves
}

/// The request that sends `amount` of `uusd` to `recipient`.
pub open spec fn is_send(request: Request, recipient: String, amount: u64) -> bool {
    &&& request matches Request::Send { to_address, amount: coin }
    &&& to_address == recipient
    &&& coin.denom@ == "uusd"@
    &&& coin.amount == amount
}

/// What `withdraw` does: nothing but refuse, for a caller that is not on
/// the list of spenders; otherwise 1000 times `amount` of the caller's
/// tokens is to be burnt and leaves the reserves, and `amount` of `uusd`
/// is to be sent to `recipient`.
pub open spec fn withdraw_outcome(
    pre: Store,
    info: MessageInfo,
    recipient: String,
    amount: u64,
    post: Store,
    res: Result<Response, ContractError>,
) -> bool {
    if !pre.spenders@.contains(info.sender@) {
        res == Err::<Response, ContractError>(ContractError::Unauthorized) && post == pre
    } else {
        &&& res matches Ok(response)
        &&& response.attributes@.len() == 0
        &&& response.token_calls@.len() == 1
        &&& response.token_calls@[0] == (TokenCall::Burn {
            amount: withdrawn_value(amount) as u128,
        })
        &&& response.messages@.len() == 1
        &&& is_send(response.messages@[0], recipient, amount)
        &&& post == (Store {
            state: State {
                total_reserves: (pre.state.total_reserves - withdrawn_value(amount)) as u64,
                ..pre.state
            },
            ..pre
        })
    }
}

/// Pays out of the reserves, for a spender only.
pub fn withdraw(store: &mut Store, info: &MessageInfo, recipient: String, amount: u64) -> (res:
    Result<Response, ContractError>)
    requires
        withdraw_in_range(*old(store), *info, amount),
    ensures
        withdraw_outcome(*old(store), *info, recipient, amount, *final(store), res),
        old(store).wf() ==> final(store).wf(),
{
    let is_spender: bool = is_listed(&store.spenders.spenders, &info.sender);
    if is_spender {
        let value: u64 = amount * 1000;
        let mut response = Response::new();
        response.token_calls.push(TokenCall::Burn { amount: value as u128 });
        store.state.total_reserves = store.state.total_reserves - value;
        response.messages.push(
            Request::Send {
                to_address: recipient,
                amount: Coin { denom: "uusd".to_owned(), amount: amount as u128 },
            },
        );
        Ok(response)
    } else {
        Err(ContractError::Unauthorized)
    }
}

// ---------------------------------------------------------------------
// Dispatch
// ---------------------------------------------------------------------

/// The command can be carried out within 64 bits: see `deposit_in_range`
/// and `withdraw_in_range`. The other commands always can.
pub open spec fn execute_in_range(store: Store, info: MessageInfo, msg: ExecuteMsg) -> bool {
    match msg {
        ExecuteMsg::Deposit { amount, profit } => deposit_in_range(store, info, amount, profit),
        ExecuteMsg::Withdraw { recipient, amount } => withdraw_in_range(store, info, amount),
        _ => true,
    }
}

/// The response hands one call on to the ledger of the token, and the
/// store is as it was.
pub open spec fn handed_on(
    pre: Store,
    call: TokenCall,
    post: Store,
    res: Result<Response, ContractError>,
) -> bool {
    &&& res matches Ok(response)
    &&& response.attributes@.len() == 0
    &&& response.messages@.len() == 0
    &&& response.token_calls@.len() == 1
    &&& response.token_calls@[0] == call
    &&& post == pre
}

/// What `execute` does: what the operation does that the command names.
/// A command for the ledger of the token is handed on to it.
pub open spec fn execute_outcome(
    pre: Store,
    info: MessageInfo,
    msg: ExecuteMsg,
    post: Store,
    res: Result<Response, ContractError>,
) -> bool {
    match msg {
        ExecuteMsg::AddRemoveDepositor { address } => add_remove_depositor_outcome(
            pre,
            info,
            address,
            post,
            res,
        ),
        ExecuteMsg::AddRemoveSpender { address } => add_remove_spender_outcome(
            pre,
            info,
            address,
            post,
            res,
        ),
        ExecuteMsg::Deposit { amount, profit } => deposit_outcome(
            pre,
            info,
            amount,
            profit,
            post,
            res,
        ),
        ExecuteMsg::IncreaseAllowance { spender, amount } => handed_on(
            pre,
            TokenCall::IncreaseAllowance { spender, amount },
            post,
            res,
        ),
        ExecuteMsg::Transfer { recipient, amount } => handed_on(
            pre,
            TokenCall::Transfer { recipient, amount },
            post,
            res,
        ),
        ExecuteMsg::TransferFrom { owner, recipient, amount } => handed_on(
            pre,
            TokenCall::TransferFrom { owner, recipient, amount },
            post,
            res,
        ),
        ExecuteMsg::Withdraw { recipient, amount } => withdraw_outcome(
            pre,
            info,
            recipient,
            amount,
            post,
            res,
        ),
    }
}

/// Hands `call` on to the ledger of the token.
fn hand_on(call: TokenCall) -> (res: Result<Response, ContractError>)
    ensures
        res matches Ok(response) && response.attributes@.len() == 0 && response.messages@.len()
            == 0 && response.token_calls@.len() == 1 && response.token_calls@[0] == call,
{
    let mut response = Response::new();
    response.token_calls.push(call);
    Ok(response)
}

/// Carries out a command.
pub fn execute(store: &mut Store, info: &MessageInfo, msg: ExecuteMsg) -> (res: Result<
    Response,
    ContractError,
>)
    requires
        execute_in_range(*old(store), *info, msg),
    ensures
        execute_outcome(*old(store), *info, msg, *final(store), res),
        old(store).wf() ==> final(store).wf(),
{
    match msg {
        ExecuteMsg::AddRemoveDepositor { address } => add_remove_depositor(store, info, address),
        ExecuteMsg::AddRemoveSpender { address } => add_remove_spender(store, info, address),
        ExecuteMsg::Deposit { amount, profit } => deposit(store, info, amount, profit),
        ExecuteMsg::IncreaseAllowance { spender, amount } => hand_on(
            TokenCall::IncreaseAllowance { spender, amount },
        ),
        ExecuteMsg::Transfer { recipient, amount } => hand_on(
            TokenCall::Transfer { recipient, amount },
        ),
        ExecuteMsg::TransferFrom { owner, recipient, amount } => hand_on(
            TokenCall::TransferFrom { owner, recipient, amount },
        ),
        ExecuteMsg::Withdraw { recipient, amount } => withdraw(store, info, recipient, amount),
    }
}

/// Whether the command can be carried out within 64 bits: what a caller
/// tests before it calls `execute`, `deposit` or `withdraw`.
pub fn execute_is_in_range(store: &Store, info: &MessageInfo, msg: &ExecuteMsg) -> (ok: bool)
    ensures
        ok == execute_in_range(*store, *info, *msg),
{
    match msg {
        ExecuteMsg::Deposit { amount, profit } => {
            if is_listed(&store.depositors.depositors, &info.sender) {
                *profit <= *amount && store.state.total_reserves as u128 + *amount as u128
                    <= u64::MAX as u128
            } else {
                true
            }
        },
        ExecuteMsg::Withdraw { recipient, amount } => {
            if is_listed(&store.spenders.spenders, &info.sender) {
                *amount as u128 * 1000u128 <= store.state.total_reserves as u128
            } else {
                true
            }
        },
        _ => true,
    }
}

} // verus!
