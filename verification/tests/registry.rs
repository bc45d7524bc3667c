use vending_machine::contract::{
    add_members, admins_list, execute, greet, instantiate, instantiate_with_admins, items_count,
    leave, query, refill,
};
use vending_machine::error::{ContractError, ErrorKind, StoreError};
use vending_machine::msg::{ExecuteMsg, InstantiateMsg, Items, QueryMsg, QueryResponse};
use vending_machine::registry;
use vending_machine::state::{Authority, Store};

fn names(list: &[&str]) -> Vec<String> {
    list.iter().map(|name| name.to_string()).collect()
}

fn start() -> InstantiateMsg {
    InstantiateMsg {
        chocolate_bars: 20,
        water_bottles: 0,
        chips_packets: 20,
    }
}

fn with_admins(list: &[&str]) -> Store {
    let mut store = Store::new();
    instantiate_with_admins(&mut store, names(list), start()).unwrap();
    store
}

fn with_owner(owner: &str) -> Store {
    let mut store = Store::new();
    instantiate(&mut store, owner.to_owned(), start()).unwrap();
    store
}

#[test]
fn scenario_refill_by_stranger_then_by_owner() {
    let mut store = with_owner("owner");
    let before = store.clone();
    let error = execute(
        &mut store,
        "admin1".to_owned(),
        ExecuteMsg::Refill { number: 40 },
    )
    .unwrap_err();
    assert_eq!(error.kind(), ErrorKind::Unauthorized);
    assert_eq!(store, before);
    execute(
        &mut store,
        "owner".to_owned(),
        ExecuteMsg::Refill { number: 40 },
    )
    .unwrap();
    assert_eq!(
        items_count(&store),
        Ok(Items {
            chocolate_bars: 60,
            water_bottles: 40,
            chips_packets: 60
        })
    );
}

#[test]
fn scenario_owner_adds_a_user() {
    let mut store = with_admins(&["owner"]);
    let response = execute(
        &mut store,
        "owner".to_owned(),
        ExecuteMsg::AddMembers {
            admins: names(&["user"]),
        },
    )
    .unwrap();
    assert_eq!(admins_list(&store), Ok(names(&["owner", "user"])));
    assert_eq!(response.events.len(), 1);
    assert_eq!(response.events[0].ty, "admin_added");
    assert_eq!(response.events[0].attributes.len(), 1);
    assert_eq!(response.events[0].attributes[0].key, "addr");
    assert_eq!(response.events[0].attributes[0].value, "user");
    assert_eq!(response.attributes.len(), 2);
    assert_eq!(response.attributes[0].key, "action");
    assert_eq!(response.attributes[0].value, "add_members");
    assert_eq!(response.attributes[1].key, "added_count");
    assert_eq!(response.attributes[1].value, "1");
    assert!(response.messages.is_empty());
    assert!(response.data.is_none());
}

#[test]
fn scenario_owner_adds_the_owner_again() {
    let mut store = with_admins(&["owner"]);
    let before = store.clone();
    let error = execute(
        &mut store,
        "owner".to_owned(),
        ExecuteMsg::AddMembers {
            admins: names(&["owner"]),
        },
    )
    .unwrap_err();
    assert_eq!(error, ContractError::AlreadyExists {});
    assert_eq!(error.kind(), ErrorKind::AlreadyExists);
    assert_eq!(admins_list(&store), Ok(names(&["owner"])));
    assert_eq!(store, before);
}

#[test]
fn add_members_by_a_stranger_is_refused() {
    let mut store = with_admins(&["owner", "second"]);
    let before = store.clone();
    let error = add_members(&mut store, "user".to_owned(), names(&["user"])).unwrap_err();
    assert_eq!(
        error,
        ContractError::Unauthorized {
            sender: "user".to_owned()
        }
    );
    assert_eq!(error.kind(), ErrorKind::Unauthorized);
    assert_eq!(store, before);
}

#[test]
fn add_members_appends_in_order() {
    let mut store = with_admins(&["a", "b"]);
    let response = add_members(&mut store, "b".to_owned(), names(&["d", "c", "e"])).unwrap();
    assert_eq!(admins_list(&store), Ok(names(&["a", "b", "d", "c", "e"])));
    let added: Vec<&str> = response
        .events
        .iter()
        .map(|event| event.attributes[0].value.as_str())
        .collect();
    assert_eq!(added, vec!["d", "c", "e"]);
    assert!(response.events.iter().all(|event| event.ty == "admin_added"));
    assert_eq!(response.attributes[1].value, "3");
    assert_eq!(
        items_count(&store),
        Ok(Items {
            chocolate_bars: 20,
            water_bottles: 0,
            chips_packets: 20
        })
    );
}

#[test]
fn add_members_with_a_known_one_among_new_ones_adds_nobody() {
    let mut store = with_admins(&["a", "b"]);
    let before = store.clone();
    let error = add_members(&mut store, "a".to_owned(), names(&["c", "b", "d"])).unwrap_err();
    assert_eq!(error, ContractError::AlreadyExists {});
    assert_eq!(store, before);
}

#[test]
fn add_members_with_the_same_candidate_twice_adds_nobody() {
    let mut store = with_admins(&["a"]);
    let before = store.clone();
    let error = add_members(&mut store, "a".to_owned(), names(&["c", "c"])).unwrap_err();
    assert_eq!(error, ContractError::AlreadyExists {});
    assert_eq!(store, before);
}

#[test]
fn add_members_with_no_candidates_reports_zero() {
    let mut store = with_admins(&["a"]);
    let response = add_members(&mut store, "a".to_owned(), Vec::new()).unwrap();
    assert_eq!(admins_list(&store), Ok(names(&["a"])));
    assert!(response.events.is_empty());
    assert_eq!(response.attributes[1].value, "0");
}

#[test]
fn add_members_under_a_single_owner_is_refused() {
    let mut store = with_owner("owner");
    let before = store.clone();
    let error = add_members(&mut store, "owner".to_owned(), names(&["user"])).unwrap_err();
    assert_eq!(
        error,
        ContractError::Unauthorized {
            sender: "owner".to_owned()
        }
    );
    assert_eq!(store, before);
}

#[test]
fn a_new_member_may_add_and_refill() {
    let mut store = with_admins(&["owner"]);
    add_members(&mut store, "owner".to_owned(), names(&["user"])).unwrap();
    add_members(&mut store, "user".to_owned(), names(&["third"])).unwrap();
    refill(&mut store, "third".to_owned(), 1).unwrap();
    assert_eq!(
        items_count(&store),
        Ok(Items {
            chocolate_bars: 21,
            water_bottles: 1,
            chips_packets: 21
        })
    );
    assert_eq!(admins_list(&store), Ok(names(&["owner", "user", "third"])));
}

#[test]
fn leave_by_a_member_takes_the_member_off() {
    let mut store = with_admins(&["a", "b", "c"]);
    let response = execute(&mut store, "b".to_owned(), ExecuteMsg::Leave {}).unwrap();
    assert_eq!(admins_list(&store), Ok(names(&["a", "c"])));
    assert!(response.events.is_empty());
    assert!(response.attributes.is_empty());
    let error = refill(&mut store, "b".to_owned(), 1).unwrap_err();
    assert_eq!(
        error,
        ContractError::RefillerIsNotTheOwner {
            sender: "b".to_owned()
        }
    );
}

#[test]
fn leave_by_a_stranger_changes_nothing() {
    let mut store = with_admins(&["a", "b", "c"]);
    let before = store.clone();
    leave(&mut store, "user".to_owned()).unwrap();
    assert_eq!(store, before);
    assert_eq!(admins_list(&store), Ok(names(&["a", "b", "c"])));
}

#[test]
fn leave_under_a_single_owner_changes_nothing() {
    let mut store = with_owner("owner");
    let before = store.clone();
    leave(&mut store, "owner".to_owned()).unwrap();
    assert_eq!(store, before);
    leave(&mut store, "user".to_owned()).unwrap();
    assert_eq!(store, before);
}

#[test]
fn the_last_member_may_leave() {
    let mut store = with_admins(&["a"]);
    leave(&mut store, "a".to_owned()).unwrap();
    assert_eq!(admins_list(&store), Ok(Vec::new()));
    let error = refill(&mut store, "a".to_owned(), 1).unwrap_err();
    assert_eq!(error.kind(), ErrorKind::Unauthorized);
}

#[test]
fn instantiate_with_admins_refuses_a_repeated_name() {
    let mut store = Store::new();
    let error = instantiate_with_admins(&mut store, names(&["a", "b", "a"]), start()).unwrap_err();
    assert_eq!(error, ContractError::AlreadyExists {});
    assert_eq!(store, Store::new());
}

#[test]
fn instantiate_with_admins_keeps_list_and_counts() {
    let store = with_admins(&["x", "y"]);
    assert_eq!(store.authority, Some(Authority::Admins(names(&["x", "y"]))));
    assert_eq!(admins_list(&store), Ok(names(&["x", "y"])));
    assert_eq!(
        items_count(&store),
        Ok(Items {
            chocolate_bars: 20,
            water_bottles: 0,
            chips_packets: 20
        })
    );
}

#[test]
fn instantiate_replaces_what_was_stored() {
    let mut store = with_admins(&["x", "y"]);
    let response = instantiate(
        &mut store,
        "owner".to_owned(),
        InstantiateMsg {
            chocolate_bars: 1,
            water_bottles: 2,
            chips_packets: 3,
        },
    )
    .unwrap();
    assert_eq!(response, cosmwasm_std::Response::new());
    assert_eq!(store.authority, Some(Authority::Owner("owner".to_owned())));
    assert_eq!(admins_list(&store), Ok(names(&["owner"])));
    assert_eq!(
        items_count(&store),
        Ok(Items {
            chocolate_bars: 1,
            water_bottles: 2,
            chips_packets: 3
        })
    );
}

#[test]
fn queries_answer_from_the_store() {
    let store = with_admins(&["a", "b"]);
    assert_eq!(
        query(&store, QueryMsg::AdminsList {}),
        Ok(QueryResponse::AdminsList {
            admins: names(&["a", "b"])
        })
    );
    assert_eq!(
        query(&store, QueryMsg::ItemsCount {}),
        Ok(QueryResponse::ItemsCount(Items {
            chocolate_bars: 20,
            water_bottles: 0,
            chips_packets: 20
        }))
    );
    assert_eq!(
        query(&store, QueryMsg::Greet {}),
        Ok(QueryResponse::Greet {
            message: "Hello World".to_owned()
        })
    );
}

#[test]
fn greet_needs_no_state() {
    assert_eq!(greet(), "Hello World");
    assert_eq!(
        query(&Store::new(), QueryMsg::Greet {}),
        Ok(QueryResponse::Greet {
            message: "Hello World".to_owned()
        })
    );
}

#[test]
fn nothing_stored_is_a_storage_failure() {
    let owner_missing = ContractError::StdError(StoreError::NotFound {
        kind: "owner".to_owned(),
    });
    let machine_missing = ContractError::StdError(StoreError::NotFound {
        kind: "machine_items".to_owned(),
    });
    let mut store = Store::new();
    assert_eq!(items_count(&store), Err(machine_missing.clone()));
    assert_eq!(admins_list(&store), Err(owner_missing.clone()));
    assert_eq!(
        query(&store, QueryMsg::ItemsCount {}),
        Err(machine_missing.clone())
    );
    assert_eq!(
        query(&store, QueryMsg::AdminsList {}),
        Err(owner_missing.clone())
    );
    let taken = execute(
        &mut store,
        "user".to_owned(),
        ExecuteMsg::GetItem {
            category: "chips packet".to_owned(),
        },
    );
    assert_eq!(taken, Err(machine_missing.clone()));
    assert_eq!(
        refill(&mut store, "owner".to_owned(), 1),
        Err(owner_missing.clone())
    );
    assert_eq!(
        add_members(&mut store, "owner".to_owned(), names(&["user"])),
        Err(owner_missing.clone())
    );
    assert_eq!(
        leave(&mut store, "owner".to_owned()),
        Err(owner_missing.clone())
    );
    assert_eq!(owner_missing.kind(), ErrorKind::StorageFailure);
    assert_eq!(store, Store::new());
}

#[test]
fn refill_judges_the_caller_before_it_reads_the_counts() {
    let mut store = Store {
        authority: Some(Authority::Owner("owner".to_owned())),
        machine: None,
    };
    assert_eq!(
        refill(&mut store, "user".to_owned(), 1),
        Err(ContractError::RefillerIsNotTheOwner {
            sender: "user".to_owned()
        })
    );
    assert_eq!(
        refill(&mut store, "owner".to_owned(), 1),
        Err(ContractError::StdError(StoreError::NotFound {
            kind: "machine_items".to_owned()
        }))
    );
}

#[test]
fn refill_that_overflows_changes_nothing() {
    let mut store = Store::new();
    instantiate(
        &mut store,
        "owner".to_owned(),
        InstantiateMsg {
            chocolate_bars: 1,
            water_bottles: u64::MAX,
            chips_packets: 3,
        },
    )
    .unwrap();
    let before = store.clone();
    let error = refill(&mut store, "owner".to_owned(), 1).unwrap_err();
    assert_eq!(error, ContractError::TooBigRefill {});
    assert_eq!(store, before);
    let error = refill(&mut store, "user".to_owned(), 1).unwrap_err();
    assert_eq!(error.kind(), ErrorKind::Unauthorized);
    assert_eq!(store, before);
}

#[test]
fn registry_list_operations() {
    let mut list = names(&["a", "b"]);
    assert!(registry::contains(&list, &"a".to_owned()));
    assert!(!registry::contains(&list, &"c".to_owned()));
    assert!(!registry::contains(&Vec::new(), &"a".to_owned()));
    assert_eq!(
        registry::add_members(&mut list, &"a".to_owned(), &names(&["c"])),
        Ok(())
    );
    assert_eq!(list, names(&["a", "b", "c"]));
    assert_eq!(
        registry::add_members(&mut list, &"z".to_owned(), &names(&["d"])),
        Err(ContractError::Unauthorized {
            sender: "z".to_owned()
        })
    );
    assert_eq!(
        registry::add_members(&mut list, &"a".to_owned(), &names(&["d", "a"])),
        Err(ContractError::AlreadyExists {})
    );
    assert_eq!(list, names(&["a", "b", "c"]));
    registry::leave(&mut list, &"z".to_owned());
    assert_eq!(list, names(&["a", "b", "c"]));
    registry::leave(&mut list, &"a".to_owned());
    assert_eq!(list, names(&["b", "c"]));
}

#[test]
fn leave_takes_out_every_entry_of_a_repeated_name() {
    let mut list = names(&["a", "b", "a", "c", "a"]);
    registry::leave(&mut list, &"a".to_owned());
    assert_eq!(list, names(&["b", "c"]));
}

#[test]
fn authority_permits_and_members() {
    let owner = Authority::Owner("owner".to_owned());
    assert!(owner.permits(&"owner".to_owned()));
    assert!(!owner.permits(&"Owner".to_owned()));
    assert_eq!(owner.members(), names(&["owner"]));
    let admins = Authority::Admins(names(&["a", "b"]));
    assert!(admins.permits(&"b".to_owned()));
    assert!(!admins.permits(&"c".to_owned()));
    assert_eq!(admins.members(), names(&["a", "b"]));
    assert!(!Authority::Admins(Vec::new()).permits(&"a".to_owned()));
}
