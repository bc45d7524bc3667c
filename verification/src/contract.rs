//! The entry points: instantiation, the commands and the queries. A command
//! reads the store, decides, and either commits the whole new state with a
//! response for the host, or fails and leaves the store exactly as it was.

use vstd::prelude::*;
use cosmwasm_std::{Empty, Response};
use crate::decimal::{decimal, decimal_text};
use crate::error::{ContractError, StoreError};
use crate::events::{
    event_attributes,
    event_with_attribute,
    is_empty_response,
    new_event,
    new_response,
    response_attributes,
    response_data,
    response_events,
    response_message_count,
    response_with_attribute,
    response_with_event,
};
use crate::msg::{ExecuteMsg, InstantiateMsg, Items, QueryMsg, QueryResponse};
use crate::registry::{all_new, check_all_new, without};
use crate::state::{principals, Authority, AuthorityView, Category, MachineItems, Store};

verus! {

/// The key under which the authority is stored.
pub open spec fn owner_key() -> Seq<char> {
    "owner"@
}

/// The key under which the counts are stored.
pub open spec fn machine_key() -> Seq<char> {
    "machine_items"@
}

/// The failure of reading a key under which nothing is stored.
pub open spec fn is_not_found(error: ContractError, key: Seq<char>) -> bool {
    error matches ContractError::StdError(StoreError::NotFound { kind }) && kind@ == key
}

/// A result that is the failure of reading `key`.
pub open spec fn fails_not_found<T>(result: Result<T, ContractError>, key: Seq<char>) -> bool {
    result matches Err(error) && is_not_found(error, key)
}

/// The type string of the event that reports a taken item.
pub open spec fn taken_kind(category: Category) -> Seq<char> {
    match category {
        Category::ChocolateBar => "chocolate_bar_is_taken"@,
        Category::WaterBottle => "water_bottle_is_taken"@,
        Category::ChipsPacket => "chips_packet_are_taken"@,
    }
}

/// The event that reports a taken item: the category in its type, and how
/// many are left of it.
pub open spec fn taken_event(category: Category, left: u64) -> (
    Seq<char>,
    Seq<(Seq<char>, Seq<char>)>,
) {
    (taken_kind(category), seq![("left"@, decimal_text(left as nat))])
}

/// The event that reports a refill: the new count of every category.
pub open spec fn refilled_event(items: MachineItems) -> (Seq<char>, Seq<(Seq<char>, Seq<char>)>) {
    (
        "snacks_are_refilled"@,
        seq![
            ("chocolate_bars"@, decimal_text(items.chocolate_bars as nat)),
            ("water_bottles"@, decimal_text(items.water_bottles as nat)),
            ("chips_packets"@, decimal_text(items.chips_packets as nat)),
        ],
    )
}

/// The events that report new administrators: one for each, in order.
pub open spec fn added_events(candidates: Seq<Seq<char>>) -> Seq<
    (Seq<char>, Seq<(Seq<char>, Seq<char>)>),
> {
    Seq::new(candidates.len(), |i: int| ("admin_added"@, seq![("addr"@, candidates[i])]))
}

/// The attributes that sum up an addition of `count` administrators.
pub open spec fn added_summary(count: nat) -> Seq<(Seq<char>, Seq<char>)> {
    seq![("action"@, "add_members"@), ("added_count"@, decimal_text(count))]
}

/// A response that carries the given events and attributes and nothing
/// else.
pub open spec fn carries(
    response: Response<Empty>,
    events: Seq<(Seq<char>, Seq<(Seq<char>, Seq<char>)>)>,
    attributes: Seq<(Seq<char>, Seq<char>)>,
) -> bool {
    &&& response_events(response) == events
    &&& response_attributes(response) == attributes
    &&& response_message_count(response) == 0
    &&& response_data(response) is None
}

/// What taking `amount` items of a category does. Without stored counts
/// the read fails. Where the machine holds fewer than `amount`, the command
/// fails. Otherwise the count goes down by `amount`, nothing else changes,
/// and the response carries the one event that reports it.
pub open spec fn take_outcome(
    pre: Store,
    category: Category,
    amount: u64,
    post: Store,
    result: Result<Response<Empty>, ContractError>,
) -> bool {
    match pre.machine {
        None => post == pre && fails_not_found(result, machine_key()),
        Some(items) => if amount > items.count_of(category) {
            &&& post == pre
            &&& result matches Err(ContractError::NoSnackLeft { category: text })
            &&& text@ == category.plural_text()
        } else {
            let left = (items.count_of(category) - amount) as u64;
            &&& post.authority == pre.authority
            &&& post.machine == Some(items.with_count(category, left))
            &&& result matches Ok(response)
            &&& carries(response, seq![taken_event(category, left)], Seq::empty())
        },
    }
}

/// What a refill by `number`, asked for by `sender`, does. The authority
/// is read first, then the caller is judged, then the counts are read, then
/// the sums are tried: the first of these to fail decides the failure. On
/// success every count has gone up by `number`, and the response carries
/// the one event that reports the new counts.
pub open spec fn refill_outcome(
    pre: Store,
    sender: Seq<char>,
    number: u64,
    post: Store,
    result: Result<Response<Empty>, ContractError>,
) -> bool {
    match pre@.authority {
        None => post == pre && fails_not_found(result, owner_key()),
        Some(authority) => if !authority.permits(sender) {
            &&& post == pre
            &&& result matches Err(ContractError::RefillerIsNotTheOwner { sender: refused })
            &&& refused@ == sender
        } else {
            match pre.machine {
                None => post == pre && fails_not_found(result, machine_key()),
                Some(items) => if !items.can_refill(number) {
                    post == pre && result matches Err(ContractError::TooBigRefill {  })
                } else {
                    &&& post.authority == pre.authority
                    &&& post.machine == Some(items.raised_by(number))
                    &&& result matches Ok(response)
                    &&& carries(
                        response,
                        seq![refilled_event(items.raised_by(number))],
                        Seq::empty(),
                    )
                },
            }
        },
    }
}

/// What adding `candidates` to the administrators, asked for by `sender`,
/// does. Under a single owner nobody may do so. Under an administrator
/// list only a member may, and only where every candidate is new. On
/// success the candidates stand at the end of the list in their order, and
/// the response carries one event for each and the summary. Validation
/// comes first: a command that fails reports no event.
pub open spec fn add_members_outcome(
    pre: Store,
    sender: Seq<char>,
    candidates: Seq<Seq<char>>,
    post: Store,
    result: Result<Response<Empty>, ContractError>,
) -> bool {
    match pre@.authority {
        None => post == pre && fails_not_found(result, owner_key()),
        Some(AuthorityView::Owner(_)) => {
            &&& post == pre
            &&& result matches Err(ContractError::Unauthorized { sender: refused })
            &&& refused@ == sender
        },
        Some(AuthorityView::Admins(list)) => if !list.contains(sender) {
            &&& post == pre
            &&& result matches Err(ContractError::Unauthorized { sender: refused })
            &&& refused@ == sender
        } else if !all_new(list, candidates) {
            post == pre && result matches Err(ContractError::AlreadyExists {  })
        } else {
            &&& post@.authority == Some(AuthorityView::Admins(list + candidates))
            &&& post.machine == pre.machine
            &&& result matches Ok(response)
            &&& carries(response, added_events(candidates), added_summary(candidates.len()))
        },
    }
}

/// What leaving does for `sender`. Under an administrator list the sender
/// is taken off it; a sender who is not on it, and any sender under a
/// single owner, changes nothing. The response is empty.
pub open spec fn leave_outcome(
    pre: Store,
    sender: Seq<char>,
    post: Store,
    result: Result<Response<Empty>, ContractError>,
) -> bool {
    match pre@.authority {
        None => post == pre && fails_not_found(result, owner_key()),
        Some(AuthorityView::Owner(_)) => {
            &&& post == pre
            &&& result matches Ok(response)
            &&& is_empty_response(response)
        },
        Some(AuthorityView::Admins(list)) => {
            &&& post@.authority == Some(AuthorityView::Admins(without(list, sender)))
            &&& post.machine == pre.machine
            &&& result matches Ok(response)
            &&& is_empty_response(response)
        },
    }
}

/// What a command does: a named item is taken one at a time, and a name
/// that stands for no category fails before anything is read.
pub open spec fn execute_outcome(
    pre: Store,
    sender: Seq<char>,
    msg: ExecuteMsg,
    post: Store,
    result: Result<Response<Empty>, ContractError>,
) -> bool {
    match msg {
        ExecuteMsg::GetItem { category } => match Category::named(category@) {
            Some(category) => take_outcome(pre, category, 1, post, result),
            None => post == pre && result matches Err(ContractError::IncorrectTypeOfItem {  }),
        },
        ExecuteMsg::Refill { number } => refill_outcome(pre, sender, number, post, result),
        ExecuteMsg::AddMembers { admins } => add_members_outcome(
            pre,
            sender,
            principals(admins@),
            post,
            result,
        ),
        ExecuteMsg::Leave {  } => leave_outcome(pre, sender, post, result),
    }
}

/// The counts as a query reports them.
pub open spec fn items_of(items: MachineItems) -> Items {
    Items {
        chocolate_bars: items.chocolate_bars,
        water_bottles: items.water_bottles,
        chips_packets: items.chips_packets,
    }
}

/// The constant greeting.
pub open spec fn greeting() -> Seq<char> {
    "Hello World"@
}

fn not_found(key: &str) -> (error: ContractError)
    ensures
        is_not_found(error, key@),
{
    ContractError::StdError(StoreError::NotFound { kind: key.to_owned() })
}

fn taken_kind_of(category: Category) -> (kind: &'static str)
    ensures
        kind@ == taken_kind(category),
{
    match category {
        Category::ChocolateBar => "chocolate_bar_is_taken",
        Category::WaterBottle => "water_bottle_is_taken",
        Category::ChipsPacket => "chips_packet_are_taken",
    }
}

/// Sets the machine up with `sender` as its single owner and the counts of
/// the message, taken as they are. Whatever the store held is replaced.
pub fn instantiate(store: &mut Store, sender: String, msg: InstantiateMsg) -> (result: Result<
    Response<Empty>,
    ContractError,
>)
    ensures
        result matches Ok(response) && is_empty_response(response),
        final(store)@.authority == Some(AuthorityView::Owner(sender@)),
        final(store).machine == Some(
            MachineItems {
                chocolate_bars: msg.chocolate_bars,
                water_bottles: msg.water_bottles,
                chips_packets: msg.chips_packets,
            },
        ),
        final(store).wf(),
{
    let items = MachineItems::initialize(msg.chocolate_bars, msg.water_bottles, msg.chips_packets);
    store.authority = Some(Authority::Owner(sender));
    store.machine = Some(items);
    Ok(new_response())
}

/// Sets the machine up with a list of administrators and the counts of the
/// message. A list that names somebody twice is refused, and the store
/// stays as it was.
pub fn instantiate_with_admins(store: &mut Store, admins: Vec<String>, msg: InstantiateMsg) -> (result:
    Result<Response<Empty>, ContractError>)
    ensures
        match result {
            Ok(response) => {
                &&& principals(admins@).no_duplicates()
                &&& is_empty_response(response)
                &&& final(store)@.authority == Some(AuthorityView::Admins(principals(admins@)))
                &&& final(store).machine == Some(
                    MachineItems {
                        chocolate_bars: msg.chocolate_bars,
                        water_bottles: msg.water_bottles,
                        chips_packets: msg.chips_packets,
                    },
                )
                &&& final(store).wf()
            },
            Err(ContractError::AlreadyExists {  }) => {
                &&& !principals(admins@).no_duplicates()
                &&& *final(store) == *old(store)
            },
            Err(_) => false,
        },
{
    let nobody: Vec<String> = Vec::new();
    if !check_all_new(&nobody, &admins) {
        return Err(ContractError::AlreadyExists {  });
    }
    let items = MachineItems::initialize(msg.chocolate_bars, msg.water_bottles, msg.chips_packets);
    store.authority = Some(Authority::Admins(admins));
    store.machine = Some(items);
    Ok(new_response())
}

/// Reports the counts of all categories.
pub fn items_count(store: &Store) -> (result: Result<Items, ContractError>)
    ensures
        match store.machine {
            Some(items) => result == Ok::<Items, ContractError>(items_of(items)),
            None => fails_not_found(result, machine_key()),
        },
{
    match store.machine {
        Some(items) => Ok(
            Items {
                chocolate_bars: items.chocolate_bars,
                water_bottles: items.water_bottles,
                chips_packets: items.chips_packets,
            },
        ),
        None => Err(not_found("machine_items")),
    }
}

/// Reports the principals who hold authority, in order: the owner alone,
/// or the administrators.
pub fn admins_list(store: &Store) -> (result: Result<Vec<String>, ContractError>)
    ensures
        match store@.authority {
            Some(authority) => result matches Ok(list) && principals(list@)
                == authority.members(),
            None => fails_not_found(result, owner_key()),
        },
{
    match &store.authority {
        Some(authority) => Ok(authority.members()),
        None => Err(not_found("owner")),
    }
}

/// The greeting: the same words whatever the state.
pub fn greet() -> (message: String)
    ensures
        message@ == greeting(),
{
    "Hello World".to_owned()
}

/// Answers a query. The store is only read.
pub fn query(store: &Store, msg: QueryMsg) -> (result: Result<QueryResponse, ContractError>)
    ensures
        match msg {
            QueryMsg::ItemsCount {  } => match store.machine {
                Some(items) => result == Ok::<QueryResponse, ContractError>(
                    QueryResponse::ItemsCount(items_of(items)),
                ),
                None => fails_not_found(result, machine_key()),
            },
            QueryMsg::AdminsList {  } => match store@.authority {
                Some(authority) => result matches Ok(QueryResponse::AdminsList { admins })
                    && principals(admins@) == authority.members(),
                None => fails_not_found(result, owner_key()),
            },
            QueryMsg::Greet {  } => result matches Ok(QueryResponse::Greet { message })
                && message@ == greeting(),
        },
{
    match msg {
        QueryMsg::ItemsCount {  } => match items_count(store) {
            Ok(items) => Ok(QueryResponse::ItemsCount(items)),
            Err(error) => Err(error),
        },
        QueryMsg::AdminsList {  } => match admins_list(store) {
            Ok(admins) => Ok(QueryResponse::AdminsList { admins }),
            Err(error) => Err(error),
        },
        QueryMsg::Greet {  } => Ok(QueryResponse::Greet { message: greet() }),
    }
}

/// Takes `amount` items of one category.
pub fn take(store: &mut Store, category: Category, amount: u64) -> (result: Result<
    Response<Empty>,
    ContractError,
>)
    ensures
        take_outcome(*old(store), category, amount, *final(store), result),
        old(store).wf() ==> final(store).wf(),
{
    let mut items = match store.machine {
        Some(items) => items,
        None => {
            return Err(not_found("machine_items"));
        },
    };
    let left = match items.dispense(category, amount) {
        Ok(left) => left,
        Err(error) => {
            return Err(error);
        },
    };
    let text = decimal(left);
    let event = event_with_attribute(new_event(taken_kind_of(category)), "left", text.as_str());
    store.machine = Some(items);
    let response = response_with_event(new_response(), event);
    proof {
        assert(event_attributes(event) =~= taken_event(category, left).1);
        assert(response_events(response) =~= seq![taken_event(category, left)]);
        assert(response_attributes(response) =~= Seq::empty());
    }
    Ok(response)
}

/// Takes one chocolate bar.
pub fn take_chocolate(store: &mut Store) -> (result: Result<Response<Empty>, ContractError>)
    ensures
        take_outcome(*old(store), Category::ChocolateBar, 1, *final(store), result),
        old(store).wf() ==> final(store).wf(),
{
    take(store, Category::ChocolateBar, 1)
}

/// Takes one water bottle.
pub fn take_water(store: &mut Store) -> (result: Result<Response<Empty>, ContractError>)
    ensures
        take_outcome(*old(store), Category::WaterBottle, 1, *final(store), result),
        old(store).wf() ==> final(store).wf(),
{
    take(store, Category::WaterBottle, 1)
}

/// Takes one packet of chips.
pub fn take_chips(store: &mut Store) -> (result: Result<Response<Empty>, ContractError>)
    ensures
        take_outcome(*old(store), Category::ChipsPacket, 1, *final(store), result),
        old(store).wf() ==> final(store).wf(),
{
    take(store, Category::ChipsPacket, 1)
}

/// Adds `number` items to every category, if `sender` holds authority and
/// every count can take them.
pub fn refill(store: &mut Store, sender: String, number: u64) -> (result: Result<
    Response<Empty>,
    ContractError,
>)
    ensures
        refill_outcome(*old(store), sender@, number, *final(store), result),
        old(store).wf() ==> final(store).wf(),
{
    let permitted = match &store.authority {
        Some(authority) => authority.permits(&sender),
        None => {
            return Err(not_found("owner"));
        },
    };
    if !permitted {
        return Err(ContractError::RefillerIsNotTheOwner { sender });
    }
    let mut items = match store.machine {
        Some(items) => items,
        None => {
            return Err(not_found("machine_items"));
        },
    };
    match items.refill(number) {
        Ok(_) => {},
        Err(error) => {
            return Err(error);
        },
    }
    let chocolate_bars = decimal(items.chocolate_bars);
    let water_bottles = decimal(items.water_bottles);
    let chips_packets = decimal(items.chips_packets);
    let event = new_event("snacks_are_refilled");
    let event = event_with_attribute(event, "chocolate_bars", chocolate_bars.as_str());
    let event = event_with_attribute(event, "water_bottles", water_bottles.as_str());
    let event = event_with_attribute(event, "chips_packets", chips_packets.as_str());
    store.machine = Some(items);
    let response = response_with_event(new_response(), event);
    proof {
        assert(event_attributes(event) =~= refilled_event(items).1);
        assert(response_events(response) =~= seq![refilled_event(items)]);
        assert(response_attributes(response) =~= Seq::empty());
    }
    Ok(response)
}

/// Appends `admins` to the administrator list on behalf of `sender`.
pub fn add_members(store: &mut Store, sender: String, admins: Vec<String>) -> (result: Result<
    Response<Empty>,
    ContractError,
>)
    ensures
        add_members_outcome(*old(store), sender@, principals(admins@), *final(store), result),
        old(store).wf() ==> final(store).wf(),
{
    match &mut store.authority {
        None => {
            return Err(not_found("owner"));
        },
        Some(Authority::Owner(_)) => {
            return Err(ContractError::Unauthorized { sender });
        },
        Some(Authority::Admins(list)) => {
            match crate::registry::add_members(list, &sender, &admins) {
                Ok(_) => {},
                Err(error) => {
                    return Err(error);
                },
            }
        },
    }
    let mut response = new_response();
    let mut i: usize = 0;
    while i < admins.len()
        invariant
            i <= admins.len(),
            response_events(response) == added_events(principals(admins@)).take(i as int),
            response_attributes(response).len() == 0,
            response_message_count(response) == 0,
            response_data(response) is None,
        decreases admins.len() - i,
    {
        let event = event_with_attribute(new_event("admin_added"), "addr", admins[i].as_str());
        response = response_with_event(response, event);
        proof {
            assert(event_attributes(event) =~= seq![("addr"@, admins[i as int]@)]);
            assert(response_events(response) =~= added_events(principals(admins@)).take(i + 1));
        }
        i += 1;
    }
    let count = decimal(admins.len() as u64);
    proof {
        reveal_strlit("action");
        reveal_strlit("added_count");
    }
    let response = response_with_attribute(response, "action", "add_members");
    let response = response_with_attribute(response, "added_count", count.as_str());
    proof {
        assert(added_events(principals(admins@)).take(admins.len() as int) =~= added_events(
            principals(admins@),
        ));
        assert(response_attributes(response) =~= added_summary(admins.len() as nat));
    }
    Ok(response)
}

/// Takes `sender` off the administrator list.
pub fn leave(store: &mut Store, sender: String) -> (result: Result<Response<Empty>, ContractError>)
    ensures
        leave_outcome(*old(store), sender@, *final(store), result),
        old(store).wf() ==> final(store).wf(),
{
    match &mut store.authority {
        None => {
            return Err(not_found("owner"));
        },
        Some(Authority::Owner(_)) => {},
        Some(Authority::Admins(list)) => {
            crate::registry::leave(list, &sender);
        },
    }
    Ok(new_response())
}

/// Runs one command on behalf of `sender`.
pub fn execute(store: &mut Store, sender: String, msg: ExecuteMsg) -> (result: Result<
    Response<Empty>,
    ContractError,
>)
    ensures
        execute_outcome(*old(store), sender@, msg, *final(store), result),
        old(store).wf() ==> final(store).wf(),
{
    match msg {
        ExecuteMsg::GetItem { category } => match Category::from_name(category.as_str()) {
            Some(Category::ChocolateBar) => take_chocolate(store),
            Some(Category::WaterBottle) => take_water(store),
            Some(Category::ChipsPacket) => take_chips(store),
            None => Err(ContractError::IncorrectTypeOfItem {  }),
        },
        ExecuteMsg::Refill { number } => refill(store, sender, number),
        ExecuteMsg::AddMembers { admins } => add_members(store, sender, admins),
        ExecuteMsg::Leave {  } => leave(store, sender),
    }
}

} // verus!
