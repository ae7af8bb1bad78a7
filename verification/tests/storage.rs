use eth_events::primitives::{Address, U256};
use eth_events::storage::model::{EthEventData, EthEventType, EthEventTypeDiscriminants};
use eth_events::storage::repository::EthEventRepository;
use eth_events::storage::service::StorageService;
use eth_events::subscriber::model::Event;

const NOW: i64 = 1_700_000_000_000;

fn addr(b: u8) -> Address {
    Address::new([b; 20])
}

/// A deterministic but varied stand-in for a random 64-bit value.
fn mixed(i: u64) -> u64 {
    i.wrapping_mul(0x9E37_79B9_7F4A_7C15).rotate_left(17)
}

/// Tests that events can be saved and retrieved from the repository.
#[test]
fn test_eth_event_repository() {
    // Arrange
    let mut storage = StorageService::new();

    let mut approve_events = vec![];
    let mut transfer_events = vec![];

    // Act
    {
        // insert 10 Approve events
        for i in 0..10u8 {
            approve_events.push(storage.save_event(
                EthEventData {
                    value: U256::from_u64(i as u64),
                    event_type: EthEventType::Approve { from: addr(i), to: addr(i) },
                },
                NOW,
            ));
        }

        // insert 10 Transfer events
        for i in 0..10u8 {
            transfer_events.push(storage.save_event(
                EthEventData {
                    value: U256::from_u64(i as u64),
                    event_type: EthEventType::Transfer { from: addr(i), to: addr(i) },
                },
                NOW,
            ));
        }
    }

    // Assert - fetch Approve events
    {
        let approve_first_id = approve_events[0].id;

        let approve_events_from_storage = storage.fetch_all_events(
            Some(EthEventTypeDiscriminants::Approve),
            approve_first_id,
            10,
        );
        assert_eq!(approve_events, approve_events_from_storage);

        // Fetch with offset and limit
        let approve_events_from_storage = storage.fetch_all_events(
            Some(EthEventTypeDiscriminants::Approve),
            approve_first_id + 1,
            4,
        );
        assert_eq!(approve_events[1..5], approve_events_from_storage[..]);
    }

    // Assert - fetch Transfer events
    {
        let transfer_first_id = transfer_events[0].id;

        let transfer_events_from_storage = storage.fetch_all_events(
            Some(EthEventTypeDiscriminants::Transfer),
            transfer_first_id,
            10,
        );
        assert_eq!(transfer_events, transfer_events_from_storage);

        // Fetch with offset and limit
        let transfer_events_from_storage = storage.fetch_all_events(
            Some(EthEventTypeDiscriminants::Transfer),
            transfer_first_id + 3,
            3,
        );
        assert_eq!(transfer_events[3..6], transfer_events_from_storage[..]);
    }
}

/// Tests that events can be saved and retrieved from the storage,
/// filtered by discriminant, with offsets and limits honored.
#[test]
fn test_eth_event_storage() {
    // Arrange
    let mut storage = StorageService::new();

    let mut approve_events = vec![];
    let mut transfer_events = vec![];

    // Act
    {
        // insert 10 Approve events
        for i in 0..10u64 {
            approve_events.push(storage.save_event(
                EthEventData {
                    value: U256::from_u64(mixed(i)),
                    event_type: EthEventType::Approve {
                        from: addr(mixed(i) as u8),
                        to: addr(mixed(i + 1) as u8),
                    },
                },
                NOW,
            ));
        }

        // insert 10 Transfer events
        for i in 0..10u64 {
            transfer_events.push(storage.save_event(
                EthEventData {
                    value: U256::from_u64(mixed(i + 20)),
                    event_type: EthEventType::Transfer {
                        from: addr(mixed(i + 20) as u8),
                        to: addr(mixed(i + 21) as u8),
                    },
                },
                NOW,
            ));
        }
    }

    // Assert - fetch Approve logs
    {
        let approve_first_id = approve_events[0].id;

        let approve_events_from_storage = storage.fetch_all_events(
            Some(EthEventTypeDiscriminants::Approve),
            approve_first_id,
            10,
        );
        assert_eq!(approve_events_from_storage.len(), 10);
        assert_eq!(approve_first_id, approve_events_from_storage[0].id);

        // check that all events have type Approve
        for event in approve_events_from_storage.iter() {
            assert_eq!(EthEventTypeDiscriminants::Approve, event.data.event_type.discriminant());
        }
    }

    // Assert - Fetch Approve logs with offset and limit
    {
        let approve_first_id = approve_events[1].id;

        let approve_events_from_storage = storage.fetch_all_events(
            Some(EthEventTypeDiscriminants::Approve),
            approve_first_id,
            4,
        );

        assert_eq!(approve_events_from_storage.len(), 4);
        assert_eq!(approve_first_id, approve_events_from_storage[0].id);

        // check that all events have type Approve
        for event in approve_events_from_storage.iter() {
            assert_eq!(EthEventTypeDiscriminants::Approve, event.data.event_type.discriminant());
        }
    }

    // Assert - fetch Transfer events
    {
        let transfer_first_id = transfer_events[0].id;

        let transfer_events_from_storage = storage.fetch_all_events(
            Some(EthEventTypeDiscriminants::Transfer),
            transfer_first_id,
            10,
        );

        assert_eq!(transfer_events_from_storage.len(), 10);
        assert_eq!(transfer_first_id, transfer_events_from_storage[0].id);

        // check that all events have type Transfer
        for event in transfer_events_from_storage.iter() {
            assert_eq!(EthEventTypeDiscriminants::Transfer, event.data.event_type.discriminant());
        }
    }

    // Assert - Fetch Transfer logs with offset and limit
    {
        let transfer_first_id = transfer_events[0].id;
        let transfer_events_from_storage = storage.fetch_all_events(
            Some(EthEventTypeDiscriminants::Transfer),
            transfer_first_id,
            3,
        );

        assert_eq!(transfer_events_from_storage.len(), 3);
        assert_eq!(transfer_first_id, transfer_events_from_storage[0].id);

        // check that all events have type Transfer
        for event in transfer_events_from_storage.iter() {
            assert_eq!(EthEventTypeDiscriminants::Transfer, event.data.event_type.discriminant());
        }
    }
}

/// Tests that a stream of events is persisted in order with each record
/// carrying the mapping of its event.
#[test]
fn service_test_save_events_from_receiver_stream() {
    // Arrange
    let mut storage = StorageService::new();

    let events_count: u64 = 50;
    let mut sent_events = vec![];

    // simulate 50 random events
    for i in 0..events_count {
        sent_events.push(Event::Approval {
            from: addr(mixed(i) as u8),
            to: addr(mixed(i + 1) as u8),
            value: U256::from_u64(mixed(i + 2)),
        });
    }

    // Act
    let received_events = storage.ingest_stream(&sent_events, NOW);

    // Assert
    assert_eq!(sent_events.len(), received_events.len());

    for (sent, received) in sent_events.iter().zip(received_events.iter()) {
        match sent {
            Event::Approval { from, to, value } => {
                assert_eq!(value, &received.data.value);
                assert_eq!(
                    EthEventType::Approve { from: *from, to: *to },
                    received.data.event_type
                );
            }
            _ => panic!("only Approval events were sent"),
        }
    }

    // Assert that all events are persisted
    for event in received_events.iter() {
        let fetched_event = storage.fetch_all_events(
            Some(event.data.event_type.discriminant()),
            event.id,
            1,
        );
        assert_eq!(event, &fetched_event[0]);
    }
}

/// Tests that a mixed stream of all four variants is persisted in order,
/// each record carrying the mapping of its event.
#[test]
fn service_it_test_save_events_from_receiver_stream() {
    // Arrange
    let mut storage = StorageService::new();

    let events_count: u64 = 50;
    let mut sent_events = vec![];

    // simulate 50 rounds of random events, one of each variant
    for i in 0..events_count {
        sent_events.push(Event::Approval {
            from: addr(mixed(4 * i) as u8),
            to: addr(mixed(4 * i + 1) as u8),
            value: U256::from_u64(mixed(4 * i + 2)),
        });
        sent_events.push(Event::Transfer {
            from: addr(mixed(4 * i + 3) as u8),
            to: addr(mixed(4 * i + 4) as u8),
            value: U256::from_u64(mixed(4 * i + 5)),
        });
        sent_events.push(Event::Deposit {
            to: addr(mixed(4 * i + 6) as u8),
            value: U256::from_u64(mixed(4 * i + 7)),
        });
        sent_events.push(Event::Withdrawal {
            from: addr(mixed(4 * i + 8) as u8),
            value: U256::from_u64(mixed(4 * i + 9)),
        });
    }

    // Act: drain the whole stream in arrival order
    let received_events = storage.ingest_stream(&sent_events, NOW);

    // Assert
    assert_eq!(sent_events.len(), received_events.len());

    for (sent, received) in sent_events.iter().zip(received_events.iter()) {
        match sent {
            Event::Approval { from, to, value } => {
                assert_eq!(value, &received.data.value);
                assert_eq!(
                    EthEventType::Approve { from: *from, to: *to },
                    received.data.event_type
                );
            }
            Event::Transfer { from, to, value } => {
                assert_eq!(value, &received.data.value);
                assert_eq!(
                    EthEventType::Transfer { from: *from, to: *to },
                    received.data.event_type
                );
            }
            Event::Deposit { to, value } => {
                assert_eq!(value, &received.data.value);
                assert_eq!(EthEventType::Deposit { to: *to }, received.data.event_type);
            }
            Event::Withdrawal { from, value } => {
                assert_eq!(value, &received.data.value);
                assert_eq!(EthEventType::Withdrawal { from: *from }, received.data.event_type);
            }
        }
    }

    // The persisted identifiers respect the arrival order
    for pair in received_events.windows(2) {
        assert!(pair[0].id < pair[1].id);
    }

    // Assert that all events are persisted
    for event in received_events.iter() {
        let fetched_event = storage.fetch_all_events(None, event.id, 1);
        assert_eq!(event, &fetched_event[0]);
    }
}

/// Saving one mapped event and fetching at its cursor yields a record
/// whose data is the mapping of the event.
#[test]
fn save_then_fetch_returns_the_mapped_record() {
    let mut storage = StorageService::new();
    let event = Event::Deposit { to: addr(0x42), value: U256::from_u64(1234) };

    let record = storage.ingest_event(event, NOW);
    let fetched = storage.fetch_all_events(None, record.id, 1);

    assert_eq!(1, fetched.len());
    assert_eq!(record, fetched[0]);
    assert_eq!(U256::from_u64(1234), fetched[0].data.value);
    assert_eq!(EthEventType::Deposit { to: addr(0x42) }, fetched[0].data.event_type);
    assert_eq!(0, fetched[0].version);
    assert_eq!(NOW, fetched[0].create_epoch_millis);
    assert_eq!(NOW, fetched[0].update_epoch_millis);
}

/// The repository itself assigns identifiers from zero, version zero,
/// and both stamps at the insert time.
#[test]
fn repository_assigns_rows() {
    let mut repo = EthEventRepository::default();
    let data = EthEventData {
        value: U256::from_u64(5),
        event_type: EthEventType::Approve { from: addr(1), to: addr(2) },
    };

    let first = repo.save(data, NOW);
    let second = repo.save(data, NOW + 1);

    assert_eq!(0, first.id);
    assert_eq!(1, second.id);
    assert_eq!(0, first.version);
    assert_eq!(NOW + 1, second.create_epoch_millis);
    assert_eq!(NOW + 1, second.update_epoch_millis);
    assert_eq!(data, first.data);

    assert_eq!(vec![first, second], repo.fetch_all(0, 10));
    assert_eq!(
        vec![first, second],
        repo.fetch_all_by_type(EthEventTypeDiscriminants::Approve, 0, 10)
    );
    assert!(repo.fetch_all_by_type(EthEventTypeDiscriminants::Transfer, 0, 10).is_empty());
}

/// A fetch is idempotent: repeating it returns the same records.
#[test]
fn fetch_is_idempotent() {
    let mut storage = StorageService::new();
    for i in 0..20u8 {
        storage.save_event(
            EthEventData {
                value: U256::from_u64(i as u64),
                event_type: EthEventType::Deposit { to: addr(i) },
            },
            NOW,
        );
    }

    let first = storage.fetch_all_events(Some(EthEventTypeDiscriminants::Deposit), 5, 7);
    let second = storage.fetch_all_events(Some(EthEventTypeDiscriminants::Deposit), 5, 7);
    assert_eq!(first, second);
}

/// A fetch never returns more rows than its limit, and an exhausted tail
/// returns fewer.
#[test]
fn fetch_honors_the_limit() {
    let mut storage = StorageService::new();
    for i in 0..30u8 {
        storage.save_event(
            EthEventData {
                value: U256::from_u64(i as u64),
                event_type: EthEventType::Deposit { to: addr(i) },
            },
            NOW,
        );
    }

    for k in 0..10u32 {
        assert!(storage.fetch_all_events(None, 0, k).len() as u32 <= k);
    }
    // Beyond the current maximum: an empty answer, not an error.
    assert!(storage.fetch_all_events(None, 1000, 10).is_empty());
}
