use vending_machine::contract::{instantiate, refill, take, take_chips, take_chocolate, take_water};
use vending_machine::error::{ContractError, ErrorKind, StoreError};
use vending_machine::msg::InstantiateMsg;
use vending_machine::state::{Category, Store};

fn machine(chocolate_bars: u64, water_bottles: u64, chips_packets: u64) -> Store {
    let mut store = Store::new();
    instantiate(
        &mut store,
        "owner".to_owned(),
        InstantiateMsg {
            chocolate_bars,
            water_bottles,
            chips_packets,
        },
    )
    .unwrap();
    store
}

#[test]
fn instantiate_answers_with_an_empty_response() {
    let mut store = Store::new();
    let response = instantiate(
        &mut store,
        "owner".to_owned(),
        InstantiateMsg {
            chocolate_bars: 1,
            water_bottles: 1,
            chips_packets: 1,
        },
    )
    .unwrap();
    assert!(response.events.is_empty());
    assert!(response.attributes.is_empty());
    assert!(response.messages.is_empty());
    assert!(response.data.is_none());
}

#[test]
fn taking_reports_the_category_and_what_is_left() {
    let mut store = machine(20, 11, 1);
    let response = take_chocolate(&mut store).unwrap();
    assert_eq!(
        response,
        cosmwasm_std::Response::new()
            .add_event(cosmwasm_std::Event::new("chocolate_bar_is_taken").add_attribute("left", "19"))
    );
    let response = take_water(&mut store).unwrap();
    assert_eq!(
        response,
        cosmwasm_std::Response::new()
            .add_event(cosmwasm_std::Event::new("water_bottle_is_taken").add_attribute("left", "10"))
    );
    let response = take_chips(&mut store).unwrap();
    assert_eq!(
        response,
        cosmwasm_std::Response::new()
            .add_event(cosmwasm_std::Event::new("chips_packet_are_taken").add_attribute("left", "0"))
    );
}

#[test]
fn taking_several_reports_what_is_left() {
    let mut store = machine(1000, 0, 0);
    let response = take(&mut store, Category::ChocolateBar, 250).unwrap();
    assert_eq!(response.events.len(), 1);
    assert_eq!(response.events[0].ty, "chocolate_bar_is_taken");
    assert_eq!(response.events[0].attributes.len(), 1);
    assert_eq!(response.events[0].attributes[0].key, "left");
    assert_eq!(response.events[0].attributes[0].value, "750");
    assert!(response.attributes.is_empty());
    assert!(response.messages.is_empty());
    assert!(response.data.is_none());
}

#[test]
fn refill_reports_every_new_count() {
    let mut store = machine(19, 0, 20);
    let response = refill(&mut store, "owner".to_owned(), 40).unwrap();
    assert_eq!(
        response,
        cosmwasm_std::Response::new().add_event(
            cosmwasm_std::Event::new("snacks_are_refilled")
                .add_attribute("chocolate_bars", "59")
                .add_attribute("water_bottles", "40")
                .add_attribute("chips_packets", "60")
        )
    );
}

#[test]
fn failure_messages() {
    assert_eq!(
        ContractError::NoSnackLeft {
            category: "water bottles".to_owned()
        }
        .message(),
        "There are no water bottles left"
    );
    assert_eq!(
        ContractError::IncorrectTypeOfItem {}.message(),
        "Plese use existed type of item: chocolates, water bottles, chips"
    );
    assert_eq!(
        ContractError::TooBigRefill {}.message(),
        "The number for refill is too big"
    );
    assert_eq!(
        ContractError::RefillerIsNotTheOwner {
            sender: "admin1".to_owned()
        }
        .message(),
        "The admin1 is nor the owner!"
    );
    assert_eq!(
        ContractError::Unauthorized {
            sender: "user".to_owned()
        }
        .message(),
        "The user is not an admin"
    );
    assert_eq!(
        ContractError::AlreadyExists {}.message(),
        "The admin is already on the list"
    );
    let missing = StoreError::NotFound {
        kind: "machine_items".to_owned(),
    };
    assert_eq!(missing.message(), "machine_items not found");
    assert_eq!(
        ContractError::StdError(missing).message(),
        "machine_items not found"
    );
}

#[test]
fn failure_classes() {
    assert_eq!(
        ContractError::StdError(StoreError::NotFound {
            kind: "owner".to_owned()
        })
        .kind(),
        ErrorKind::StorageFailure
    );
    assert_eq!(
        ContractError::NoSnackLeft {
            category: "chips packets".to_owned()
        }
        .kind(),
        ErrorKind::InsufficientStock
    );
    assert_eq!(
        ContractError::IncorrectTypeOfItem {}.kind(),
        ErrorKind::UnknownCategory
    );
    assert_eq!(ContractError::TooBigRefill {}.kind(), ErrorKind::RefillOverflow);
    assert_eq!(
        ContractError::RefillerIsNotTheOwner {
            sender: "x".to_owned()
        }
        .kind(),
        ErrorKind::Unauthorized
    );
    assert_eq!(
        ContractError::Unauthorized {
            sender: "x".to_owned()
        }
        .kind(),
        ErrorKind::Unauthorized
    );
    assert_eq!(ContractError::AlreadyExists {}.kind(), ErrorKind::AlreadyExists);
}
