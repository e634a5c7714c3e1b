//! The transition table and the lifecycle controller.

use chrono::{NaiveDateTime, TimeZone, Utc};

use quests_tracker::application::use_cases::journey_ledger::JourneyLedgerUseCase;
use quests_tracker::domain::entities::quests::AddQuestEntity;
use quests_tracker::domain::errors::QuestError;
use quests_tracker::domain::lifecycle::{command, transition, QuestEvent};
use quests_tracker::domain::repositories::quest_store::QuestStore;
use quests_tracker::domain::value_objects::quest_statuses::QuestStatuses;
use quests_tracker::infrastructure::memory::quest_store::InMemoryQuestStore;

const COMMANDER: i32 = 100;
const STRANGER: i32 = 101;

const STATUSES: [QuestStatuses; 4] = [
    QuestStatuses::Open,
    QuestStatuses::InJourney,
    QuestStatuses::Completed,
    QuestStatuses::Failed,
];

const EVENTS: [QuestEvent; 3] = [QuestEvent::BeginJourney, QuestEvent::Complete, QuestEvent::Fail];

fn table(status: QuestStatuses, event: QuestEvent) -> Option<QuestStatuses> {
    match (status, event) {
        (QuestStatuses::Open, QuestEvent::BeginJourney) => Some(QuestStatuses::InJourney),
        (QuestStatuses::InJourney, QuestEvent::Complete) => Some(QuestStatuses::Completed),
        (QuestStatuses::InJourney, QuestEvent::Fail) => Some(QuestStatuses::Failed),
        (QuestStatuses::Failed, QuestEvent::BeginJourney) => Some(QuestStatuses::InJourney),
        _ => None,
    }
}

fn epoch() -> NaiveDateTime {
    Utc.with_ymd_and_hms(1970, 1, 1, 0, 0, 0).unwrap().naive_utc()
}

fn new_quest() -> AddQuestEntity {
    AddQuestEntity {
        name: "dragon".to_string(),
        description: Some("slay it".to_string()),
        guild_commander_id: COMMANDER,
        created_at: epoch(),
        updated_at: epoch(),
    }
}

/// A controller over one quest, number 1, that has been brought to `status`.
fn ledger_with_quest_in(status: QuestStatuses) -> JourneyLedgerUseCase<InMemoryQuestStore> {
    let mut store = InMemoryQuestStore::new();
    assert_eq!(store.add(new_quest()), Some(1));
    let mut ledger = JourneyLedgerUseCase::new(store);
    match status {
        QuestStatuses::Open => {}
        QuestStatuses::InJourney => {
            assert_eq!(ledger.in_journey(1, COMMANDER), Ok(1));
        }
        QuestStatuses::Completed => {
            assert_eq!(ledger.in_journey(1, COMMANDER), Ok(1));
            assert_eq!(ledger.to_completed(1, COMMANDER), Ok(1));
        }
        QuestStatuses::Failed => {
            assert_eq!(ledger.in_journey(1, COMMANDER), Ok(1));
            assert_eq!(ledger.to_failed(1, COMMANDER), Ok(1));
        }
    }
    ledger
}

fn status_of(ledger: JourneyLedgerUseCase<InMemoryQuestStore>) -> QuestStatuses {
    ledger.into_repository().get_status(1).unwrap()
}

#[test]
fn the_table_has_four_transitions_and_nothing_else() {
    let mut granted = 0;
    for status in STATUSES {
        for event in EVENTS {
            match table(status, event) {
                Some(target) => {
                    granted += 1;
                    assert_eq!(transition(status, event), Ok(target));
                }
                None => assert_eq!(
                    transition(status, event),
                    Err(QuestError::InvalidTransition { status, event })
                ),
            }
        }
    }
    assert_eq!(granted, 4);
}

#[test]
fn completed_is_terminal() {
    for event in EVENTS {
        assert_eq!(
            transition(QuestStatuses::Completed, event),
            Err(QuestError::InvalidTransition { status: QuestStatuses::Completed, event })
        );
    }
}

#[test]
fn a_command_is_granted_to_the_commander_alone() {
    assert_eq!(
        command(QuestStatuses::Open, COMMANDER, COMMANDER, QuestEvent::BeginJourney),
        Ok(QuestStatuses::InJourney)
    );
    assert_eq!(
        command(QuestStatuses::Open, COMMANDER, STRANGER, QuestEvent::BeginJourney),
        Err(QuestError::Unauthorized)
    );
    assert_eq!(
        command(QuestStatuses::Open, COMMANDER, STRANGER, QuestEvent::Complete),
        Err(QuestError::InvalidTransition {
            status: QuestStatuses::Open,
            event: QuestEvent::Complete
        })
    );
    assert_eq!(
        command(QuestStatuses::Completed, COMMANDER, COMMANDER, QuestEvent::Fail),
        Err(QuestError::InvalidTransition {
            status: QuestStatuses::Completed,
            event: QuestEvent::Fail
        })
    );
}

#[test]
fn a_new_quest_is_open() {
    assert_eq!(status_of(ledger_with_quest_in(QuestStatuses::Open)), QuestStatuses::Open);
    assert_eq!(QuestStatuses::default(), QuestStatuses::Open);
}

#[test]
fn every_pair_outside_the_table_is_refused_and_moves_nothing() {
    for status in STATUSES {
        for event in EVENTS {
            if table(status, event).is_some() {
                continue;
            }
            for caller in [COMMANDER, STRANGER] {
                let mut ledger = ledger_with_quest_in(status);
                let answer = match event {
                    QuestEvent::BeginJourney => ledger.in_journey(1, caller),
                    QuestEvent::Complete => ledger.to_completed(1, caller),
                    QuestEvent::Fail => ledger.to_failed(1, caller),
                };
                assert_eq!(answer, Err(QuestError::InvalidTransition { status, event }));
                assert_eq!(status_of(ledger), status);
            }
        }
    }
}

#[test]
fn every_pair_of_the_table_moves_the_quest_for_its_commander() {
    for status in STATUSES {
        for event in EVENTS {
            if let Some(target) = table(status, event) {
                let mut ledger = ledger_with_quest_in(status);
                assert_eq!(ledger.apply(1, COMMANDER, event), Ok(1));
                assert_eq!(status_of(ledger), target);

                let mut ledger = ledger_with_quest_in(status);
                assert_eq!(ledger.apply(1, STRANGER, event), Err(QuestError::Unauthorized));
                assert_eq!(status_of(ledger), status);
            }
        }
    }
}

#[test]
fn open_to_journey_to_failed_to_journey_to_completed() {
    let mut ledger = ledger_with_quest_in(QuestStatuses::Open);
    assert_eq!(ledger.in_journey(1, COMMANDER), Ok(1));
    assert_eq!(ledger.to_failed(1, COMMANDER), Ok(1));
    assert_eq!(ledger.in_journey(1, COMMANDER), Ok(1));
    assert_eq!(ledger.to_completed(1, COMMANDER), Ok(1));
    assert_eq!(status_of(ledger), QuestStatuses::Completed);
}

#[test]
fn nothing_leads_from_a_journey_back_to_open() {
    for event in EVENTS {
        assert_ne!(transition(QuestStatuses::InJourney, event), Ok(QuestStatuses::Open));
    }
    let mut ledger = ledger_with_quest_in(QuestStatuses::InJourney);
    assert_eq!(
        ledger.in_journey(1, COMMANDER),
        Err(QuestError::InvalidTransition {
            status: QuestStatuses::InJourney,
            event: QuestEvent::BeginJourney
        })
    );
    assert_eq!(status_of(ledger), QuestStatuses::InJourney);
}

#[test]
fn a_command_on_no_quest_is_not_found() {
    let mut ledger = ledger_with_quest_in(QuestStatuses::Open);
    for quest in [0, 2, -4] {
        assert_eq!(ledger.in_journey(quest, COMMANDER), Err(QuestError::NotFound));
        assert_eq!(ledger.to_completed(quest, COMMANDER), Err(QuestError::NotFound));
        assert_eq!(ledger.to_failed(quest, COMMANDER), Err(QuestError::NotFound));
    }
    assert_eq!(status_of(ledger), QuestStatuses::Open);
}

#[test]
fn a_command_changes_the_status_and_nothing_else() {
    let mut store = InMemoryQuestStore::new();
    assert_eq!(store.add(new_quest()), Some(1));
    assert_eq!(store.add(new_quest()), Some(2));
    let mut ledger = JourneyLedgerUseCase::new(store);
    assert_eq!(ledger.in_journey(2, COMMANDER), Ok(2));
    let store = ledger.into_repository();
    let first = store.get(1).unwrap();
    let second = store.get(2).unwrap();
    assert_eq!(first.status, QuestStatuses::Open);
    assert_eq!(second.status, QuestStatuses::InJourney);
    for quest in [&first, &second] {
        assert_eq!(quest.name, "dragon");
        assert_eq!(quest.description.as_deref(), Some("slay it"));
        assert_eq!(quest.guild_commander_id, COMMANDER);
        assert_eq!(quest.created_at, epoch());
        assert_eq!(quest.updated_at, epoch());
    }
    assert_eq!(first.id, 1);
    assert_eq!(second.id, 2);
}

#[test]
fn an_invalid_transition_names_the_status_and_the_event() {
    assert_eq!(
        QuestError::InvalidTransition { status: QuestStatuses::Open, event: QuestEvent::Complete }
            .to_string(),
        "Cannot complete a quest that is Open"
    );
    assert_eq!(
        QuestError::InvalidTransition {
            status: QuestStatuses::Completed,
            event: QuestEvent::BeginJourney
        }
        .to_string(),
        "Cannot begin the journey of a quest that is Completed"
    );
    assert_eq!(
        QuestError::InvalidTransition { status: QuestStatuses::Failed, event: QuestEvent::Fail }
            .to_string(),
        "Cannot fail a quest that is Failed"
    );
    assert_eq!(
        QuestError::InvalidTransition {
            status: QuestStatuses::InJourney,
            event: QuestEvent::BeginJourney
        }
        .to_string(),
        "Cannot begin the journey of a quest that is InJourney"
    );
}
