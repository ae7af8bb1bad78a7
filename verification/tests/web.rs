use eth_events::primitives::{Address, U256};
use eth_events::storage::model::{EthEventData, EthEventType, EthEventTypeDiscriminants};
use eth_events::storage::service::StorageService;
use eth_events::web::{get_logs, LogQuery};

const NOW: i64 = 1_700_000_000_000;

fn addr(b: u8) -> Address {
    Address::new([b; 20])
}

/// An event document whose variant cycles with `i` through all four
/// discriminants.
fn cycling_data(i: u64) -> EthEventData {
    let a = addr(i as u8);
    let b = addr((i + 1) as u8);
    EthEventData {
        value: U256::from_u64(i),
        event_type: match i % 4 {
            0 => EthEventType::Approve { from: a, to: b },
            1 => EthEventType::Transfer { from: a, to: b },
            2 => EthEventType::Deposit { to: a },
            _ => EthEventType::Withdrawal { from: a },
        },
    }
}

fn expected_tag(i: u64) -> EthEventTypeDiscriminants {
    match i % 4 {
        0 => EthEventTypeDiscriminants::Approve,
        1 => EthEventTypeDiscriminants::Transfer,
        2 => EthEventTypeDiscriminants::Deposit,
        _ => EthEventTypeDiscriminants::Withdrawal,
    }
}

/// Test that the logs read returns the expected records when no query
/// parameters are provided: ten records starting from identifier zero.
#[test]
fn test_app_return_logs_with_default_query_values() {
    // Arrange
    let mut storage = StorageService::new();
    for i in 0..40u64 {
        storage.save_event(cycling_data(i), NOW);
    }

    // Act
    let body = get_logs(
        &storage,
        &LogQuery { event_type: None, from_id: None, max: None },
    );

    // Assert
    assert_eq!(body.len(), 10);
    assert_eq!(body[0].id, 0);

    // The type is not specified: the event types cycle through all four
    for log in body.iter() {
        assert_eq!(expected_tag(log.id), log.data.event_type.discriminant());
    }
}

/// Test that the logs read returns the expected records when query
/// parameters are provided.
#[test]
fn test_app_return_logs_with_custom_query_values() {
    // Arrange
    let mut storage = StorageService::new();
    for i in 0..1300u64 {
        storage.save_event(
            EthEventData {
                value: U256::from_u64(i),
                event_type: EthEventType::Transfer { from: addr(i as u8), to: addr((i + 1) as u8) },
            },
            NOW,
        );
    }

    // Act
    let body = get_logs(
        &storage,
        &LogQuery {
            event_type: Some(EthEventTypeDiscriminants::Transfer),
            from_id: Some(1234),
            max: Some(55),
        },
    );

    // Assert
    assert_eq!(body.len(), 55);
    assert_eq!(body[0].id, 1234);

    // The type is specified as Transfer: all returned types are Transfer
    for log in body {
        assert_eq!(EthEventTypeDiscriminants::Transfer, log.data.event_type.discriminant());
    }
}

/// Test that the logs read returns at most 100 records: a requested page
/// size above the cap is silently clamped.
#[test]
fn test_app_return_max_100_logs() {
    // Arrange
    let mut storage = StorageService::new();
    for i in 0..150u64 {
        storage.save_event(cycling_data(i), NOW);
    }

    // Act
    let body = get_logs(
        &storage,
        &LogQuery { event_type: None, from_id: None, max: Some(101) },
    );

    // Assert
    assert_eq!(body.len(), 100);
}
