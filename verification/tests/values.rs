//! Statuses, errors, the pure rules and the stores in memory.

use chrono::{NaiveDateTime, TimeZone, Utc};

use quests_tracker::domain::entities::quests::AddQuestEntity;
use quests_tracker::domain::errors::{QuestError, StoreError};
use quests_tracker::domain::lifecycle::QuestEvent;
use quests_tracker::domain::repositories::quest_store::QuestStore;
use quests_tracker::domain::repositories::roster_store::RosterStore;
use quests_tracker::domain::roster_rules::{capacity_gate, check_joinable, check_leavable};
use quests_tracker::domain::value_objects::board_checking_filter::BoardCheckingFilter;
use quests_tracker::domain::value_objects::quest_adventurer_junction::{
    QuestAdventurerJunction, MAX_ADVENTURERS_PER_QUEST,
};
use quests_tracker::domain::value_objects::quest_statuses::QuestStatuses;
use quests_tracker::infrastructure::memory::quest_store::InMemoryQuestStore;
use quests_tracker::infrastructure::memory::roster_store::InMemoryRosterStore;

const STATUSES: [QuestStatuses; 4] = [
    QuestStatuses::Open,
    QuestStatuses::InJourney,
    QuestStatuses::Completed,
    QuestStatuses::Failed,
];

fn epoch() -> NaiveDateTime {
    Utc.with_ymd_and_hms(1970, 1, 1, 0, 0, 0).unwrap().naive_utc()
}

fn new_quest(name: &str, commander: i32) -> AddQuestEntity {
    AddQuestEntity {
        name: name.to_string(),
        description: Some("test".to_string()),
        guild_commander_id: commander,
        created_at: epoch(),
        updated_at: epoch(),
    }
}

fn entry(quest_id: i32, adventurer_id: i32) -> QuestAdventurerJunction {
    QuestAdventurerJunction { adventurer_id, quest_id }
}

#[test]
fn statuses_have_their_names() {
    assert_eq!(QuestStatuses::Open.to_string(), "Open");
    assert_eq!(QuestStatuses::InJourney.to_string(), "InJourney");
    assert_eq!(QuestStatuses::Completed.to_string(), "Completed");
    assert_eq!(QuestStatuses::Failed.to_string(), "Failed");
}

#[test]
fn a_status_is_read_back_from_its_name() {
    for status in STATUSES {
        assert_eq!(QuestStatuses::parse(&status.to_string()), Some(status));
    }
    for text in ["", "open", "OPEN", "Open ", " Open", "InJourney!", "Done", "Faile", "Ope"] {
        assert_eq!(QuestStatuses::parse(text), None);
    }
}

#[test]
fn rosters_change_while_a_quest_recruits() {
    assert!(QuestStatuses::Open.allows_roster_changes());
    assert!(QuestStatuses::Failed.allows_roster_changes());
    assert!(!QuestStatuses::InJourney.allows_roster_changes());
    assert!(!QuestStatuses::Completed.allows_roster_changes());
}

#[test]
fn events_have_their_words() {
    assert_eq!(QuestEvent::BeginJourney.to_string(), "begin the journey of");
    assert_eq!(QuestEvent::Complete.to_string(), "complete");
    assert_eq!(QuestEvent::Fail.to_string(), "fail");
}

#[test]
fn errors_have_their_messages() {
    assert_eq!(QuestError::QuestNotJoinable.to_string(), "Quest is not joinable");
    assert_eq!(QuestError::QuestNotLeavable.to_string(), "Quest is not leavable");
    assert_eq!(QuestError::QuestFull.to_string(), "Quest is full");
    assert_eq!(QuestError::AlreadyJoined.to_string(), "Adventurer has already joined the quest");
    assert_eq!(QuestError::NotFound.to_string(), "Quest not found");
    assert_eq!(
        QuestError::Unauthorized.to_string(),
        "Only the quest's guild commander may do this"
    );
    assert_eq!(QuestError::StorageUnavailable.to_string(), "Storage is unavailable");
}

#[test]
fn errors_have_their_statuses_at_the_boundary() {
    assert_eq!(QuestError::NotFound.http_status(), 404);
    assert_eq!(QuestError::Unauthorized.http_status(), 403);
    assert_eq!(QuestError::StorageUnavailable.http_status(), 503);
    assert_eq!(QuestError::QuestFull.http_status(), 409);
    assert_eq!(QuestError::AlreadyJoined.http_status(), 409);
    assert_eq!(QuestError::QuestNotJoinable.http_status(), 409);
    assert_eq!(QuestError::QuestNotLeavable.http_status(), 409);
    assert_eq!(
        QuestError::InvalidTransition { status: QuestStatuses::Open, event: QuestEvent::Fail }
            .http_status(),
        409
    );
}

#[test]
fn store_errors_reach_the_caller_as_domain_errors() {
    assert_eq!(QuestError::from_store_error(StoreError::NotFound), QuestError::NotFound);
    assert_eq!(QuestError::from_store_error(StoreError::Duplicate), QuestError::AlreadyJoined);
    assert_eq!(
        QuestError::from_store_error(StoreError::Unavailable),
        QuestError::StorageUnavailable
    );
}

#[test]
fn the_gate_opens_below_the_bound() {
    assert_eq!(MAX_ADVENTURERS_PER_QUEST, 4);
    assert!(capacity_gate(0, 4));
    assert!(capacity_gate(3, 4));
    assert!(!capacity_gate(4, 4));
    assert!(!capacity_gate(5, 4));
    assert!(!capacity_gate(0, 0));
    assert!(capacity_gate(u64::MAX - 1, u64::MAX));
    assert!(!capacity_gate(u64::MAX, u64::MAX));
}

#[test]
fn joining_is_checked_by_status_first_and_room_second() {
    for status in [QuestStatuses::Open, QuestStatuses::Failed] {
        assert_eq!(check_joinable(status, 0, 4), Ok(()));
        assert_eq!(check_joinable(status, 3, 4), Ok(()));
        assert_eq!(check_joinable(status, 4, 4), Err(QuestError::QuestFull));
        assert_eq!(check_joinable(status, 9, 4), Err(QuestError::QuestFull));
        assert_eq!(check_leavable(status), Ok(()));
    }
    for status in [QuestStatuses::InJourney, QuestStatuses::Completed] {
        assert_eq!(check_joinable(status, 0, 4), Err(QuestError::QuestNotJoinable));
        assert_eq!(check_joinable(status, 4, 4), Err(QuestError::QuestNotJoinable));
        assert_eq!(check_leavable(status), Err(QuestError::QuestNotLeavable));
    }
}

#[test]
fn a_quest_store_numbers_its_quests_from_one() {
    let mut store = InMemoryQuestStore::new();
    assert_eq!(store.len(), 0);
    assert_eq!(store.get_status(1), Err(StoreError::NotFound));
    assert_eq!(store.add(new_quest("first", 1)), Some(1));
    assert_eq!(store.add(new_quest("second", 2)), Some(2));
    assert_eq!(store.add(new_quest("third", 1)), Some(3));
    assert_eq!(store.len(), 3);

    let second = store.get(2).unwrap();
    assert_eq!(second.id, 2);
    assert_eq!(second.name, "second");
    assert_eq!(second.description.as_deref(), Some("test"));
    assert_eq!(second.status, QuestStatuses::Open);
    assert_eq!(second.guild_commander_id, 2);
    assert_eq!(second.created_at, epoch());
    assert_eq!(second.updated_at, epoch());

    for missing in [0, 4, -1, i32::MIN, i32::MAX] {
        assert_eq!(store.get(missing).unwrap_err(), StoreError::NotFound);
        assert_eq!(store.get_status(missing), Err(StoreError::NotFound));
    }
}

#[test]
fn a_status_is_set_only_from_the_status_that_is_expected() {
    let mut store = InMemoryQuestStore::new();
    assert_eq!(store.add(new_quest("first", 1)), Some(1));
    assert_eq!(store.add(new_quest("second", 1)), Some(2));

    assert_eq!(store.set_status(1, QuestStatuses::Failed, QuestStatuses::InJourney), Ok(false));
    assert_eq!(store.get_status(1), Ok(QuestStatuses::Open));

    assert_eq!(store.set_status(1, QuestStatuses::Open, QuestStatuses::InJourney), Ok(true));
    assert_eq!(store.get_status(1), Ok(QuestStatuses::InJourney));
    assert_eq!(store.get_status(2), Ok(QuestStatuses::Open));

    assert_eq!(store.set_status(1, QuestStatuses::Open, QuestStatuses::InJourney), Ok(false));
    assert_eq!(store.get_status(1), Ok(QuestStatuses::InJourney));

    assert_eq!(
        store.set_status(3, QuestStatuses::Open, QuestStatuses::InJourney),
        Err(StoreError::NotFound)
    );
    assert_eq!(
        store.set_status(0, QuestStatuses::Open, QuestStatuses::InJourney),
        Err(StoreError::NotFound)
    );
    let first = store.get(1).unwrap();
    assert_eq!(first.name, "first");
    assert_eq!(first.guild_commander_id, 1);
}

#[test]
fn a_quest_store_lists_what_passes_in_the_order_of_its_numbers() {
    let mut store = InMemoryQuestStore::new();
    for (name, commander) in [("a", 1), ("b", 2), ("a", 2), ("c", 1)] {
        store.add(new_quest(name, commander)).unwrap();
    }
    assert_eq!(store.set_status(3, QuestStatuses::Open, QuestStatuses::InJourney), Ok(true));
    let ids = |filter: BoardCheckingFilter| -> Vec<i32> {
        store.list(&filter).unwrap().iter().map(|quest| quest.id).collect()
    };
    assert_eq!(
        ids(BoardCheckingFilter { name: None, status: None, guild_commander_id: None }),
        vec![1, 2, 3, 4]
    );
    assert_eq!(
        ids(BoardCheckingFilter {
            name: Some("a".to_string()),
            status: None,
            guild_commander_id: None
        }),
        vec![1, 3]
    );
    assert_eq!(
        ids(BoardCheckingFilter {
            name: None,
            status: Some(QuestStatuses::Open),
            guild_commander_id: Some(2)
        }),
        vec![2]
    );
    assert_eq!(
        ids(BoardCheckingFilter {
            name: Some("a".to_string()),
            status: Some(QuestStatuses::InJourney),
            guild_commander_id: Some(2)
        }),
        vec![3]
    );
    assert_eq!(
        ids(BoardCheckingFilter {
            name: Some("d".to_string()),
            status: None,
            guild_commander_id: None
        }),
        Vec::<i32>::new()
    );
}

#[test]
fn a_roster_holds_each_pairing_once() {
    let mut roster = InMemoryRosterStore::new();
    assert_eq!(roster.len(), 0);
    assert_eq!(roster.count(1), Ok(0));
    assert_eq!(roster.contains(entry(1, 7)), Ok(false));

    assert_eq!(roster.insert(entry(1, 7)), Ok(()));
    assert_eq!(roster.insert(entry(1, 7)), Err(StoreError::Duplicate));
    assert_eq!(roster.insert(entry(7, 1)), Ok(()));
    assert_eq!(roster.insert(entry(1, 8)), Ok(()));
    assert_eq!(roster.insert(entry(2, 7)), Ok(()));
    assert_eq!(roster.len(), 4);
    assert_eq!(roster.count(1), Ok(2));
    assert_eq!(roster.count(2), Ok(1));
    assert_eq!(roster.count(7), Ok(1));
    assert_eq!(roster.count(8), Ok(0));
    assert_eq!(roster.contains(entry(1, 7)), Ok(true));
    assert_eq!(roster.contains(entry(7, 1)), Ok(true));
    assert_eq!(roster.contains(entry(8, 1)), Ok(false));
}

#[test]
fn a_roster_forgets_what_is_deleted_and_nothing_else() {
    let mut roster = InMemoryRosterStore::new();
    for adventurer in 1..=5 {
        assert_eq!(roster.insert(entry(1, adventurer)), Ok(()));
    }
    assert_eq!(roster.delete(entry(1, 3)), Ok(()));
    assert_eq!(roster.delete(entry(1, 3)), Ok(()));
    assert_eq!(roster.delete(entry(2, 1)), Ok(()));
    assert_eq!(roster.len(), 4);
    assert_eq!(roster.count(1), Ok(4));
    for (adventurer, on_roster) in [(1, true), (2, true), (3, false), (4, true), (5, true)] {
        assert_eq!(roster.contains(entry(1, adventurer)), Ok(on_roster));
    }
    assert_eq!(roster.insert(entry(1, 3)), Ok(()));
    assert_eq!(roster.delete(entry(1, 1)), Ok(()));
    assert_eq!(roster.delete(entry(1, 3)), Ok(()));
    assert_eq!(roster.count(1), Ok(3));
    assert_eq!(roster.insert(entry(1, 5)), Err(StoreError::Duplicate));
}
