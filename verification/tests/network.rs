use matchbox_socket::PeerId;
use roc_ray::glue::{PeerMessage, PeerUUID};
use roc_ray::peers::{PeerStatus, PeerTable};
use roc_ray::roc::{fold_worker_events, TransportFailure};
use roc_ray::worker::{
    deliver, init, plan_updates, process_webrtc_updates, select, worker_advance, worker_step,
    Delivery, MainEndpoint, MainToWorkerMsg, Offer, PollCycle, PollFailure, SendOutcome,
    TransportEnd, WorkerAction, WorkerEvent, WorkerState, WorkerToMainMsg,
    MAIN_TO_WORKER_BUFFER_SIZE, WORKER_TO_MAIN_BUFFER_SIZE,
};
use uuid::Uuid;

fn peer(n: u64) -> PeerUUID {
    PeerUUID::new(0xAA00 + n, n)
}

#[test]
fn a_peer_identity_is_the_two_halves_of_the_uuid() {
    let uuid = Uuid::from_u64_pair(0xa1a2a3a4b1b2c1c2, 0xd1d2d3d4d5d6d7d8);
    let id = PeerUUID::from_peer_id(&PeerId(uuid));
    assert_eq!(
        id,
        PeerUUID {
            lower: 0xd1d2d3d4d5d6d7d8,
            upper: 0xa1a2a3a4b1b2c1c2,
            zzz1: 0,
            zzz2: 0,
            zzz3: 0
        }
    );
    assert_eq!(PeerUUID::from(PeerId(uuid)), id);
    assert_eq!(id.to_peer_id(), PeerId(uuid));
    assert_eq!(
        id.to_peer_id().0.hyphenated().to_string(),
        "a1a2a3a4-b1b2-c1c2-d1d2-d3d4d5d6d7d8"
    );
}

#[test]
fn a_peer_identity_round_trips_through_the_transport() {
    for (upper, lower) in [(0u64, 0u64), (1, 2), (u64::MAX, 0), (7, u64::MAX)] {
        let id = PeerUUID::new(upper, lower);
        assert_eq!(PeerUUID::from_peer_id(&id.to_peer_id()), id);
        assert_eq!(id.to_peer_id().0.as_u64_pair(), (upper, lower));
    }
    assert_eq!(PeerUUID::default(), PeerUUID::new(0, 0));
    let padded = PeerUUID {
        lower: 1,
        upper: 2,
        zzz1: 3,
        zzz2: 4,
        zzz3: 5,
    };
    assert_eq!(PeerUUID::from_peer_id(&padded.to_peer_id()), PeerUUID::new(2, 1));
}

#[test]
fn the_table_keeps_the_peers_in_the_order_first_seen() {
    let mut table = PeerTable::new();
    table.record(peer(1), PeerStatus::Connected);
    table.record(peer(2), PeerStatus::Connected);
    table.record(peer(3), PeerStatus::Disconnected);
    table.record(peer(1), PeerStatus::Disconnected);
    table.record(peer(4), PeerStatus::Connected);
    table.record(peer(3), PeerStatus::Connected);
    assert_eq!(table.len(), 4);
    assert_eq!(table.status_of(peer(1)), Some(PeerStatus::Disconnected));
    assert_eq!(table.status_of(peer(3)), Some(PeerStatus::Connected));
    assert_eq!(table.status_of(peer(9)), None);
    let snapshot = table.snapshot();
    assert_eq!(snapshot.connected, vec![peer(2), peer(3), peer(4)]);
    assert_eq!(snapshot.disconnected, vec![peer(1)]);
}

#[test]
fn a_poll_reports_peer_changes_first_and_packets_after_each_in_order() {
    let msgs = plan_updates(
        vec![
            (peer(2), PeerStatus::Connected),
            (peer(1), PeerStatus::Disconnected),
            (peer(3), PeerStatus::Connected),
        ],
        vec![(peer(3), vec![1, 2]), (peer(2), vec![]), (peer(3), vec![9])],
    );
    assert_eq!(
        msgs,
        vec![
            WorkerToMainMsg::PeerConnected(peer(2)),
            WorkerToMainMsg::PeerDisconnected(peer(1)),
            WorkerToMainMsg::PeerConnected(peer(3)),
            WorkerToMainMsg::MessageReceived(peer(3), vec![1, 2]),
            WorkerToMainMsg::MessageReceived(peer(2), vec![]),
            WorkerToMainMsg::MessageReceived(peer(3), vec![9]),
        ]
    );
    assert!(plan_updates(vec![], vec![]).is_empty());
}

#[test]
fn a_scripted_session_arrives_in_order_and_parts_into_peers_and_messages() {
    let bridge = init(Some("ws://localhost:3536/room".to_string())).unwrap();
    assert_eq!(bridge.room_url, "ws://localhost:3536/room");
    let mut main = bridge.main;
    let worker = bridge.worker;
    assert!(main.is_connected());

    let script = vec![
        WorkerToMainMsg::PeerConnected(peer(1)),
        WorkerToMainMsg::MessageReceived(peer(1), b"hello".to_vec()),
        WorkerToMainMsg::PeerConnected(peer(2)),
        WorkerToMainMsg::MessageReceived(peer(2), b"hi".to_vec()),
        WorkerToMainMsg::MessageReceived(peer(1), b"bye".to_vec()),
        WorkerToMainMsg::PeerDisconnected(peer(1)),
    ];
    assert_eq!(deliver(&worker.events, script.clone()), Delivery::Delivered);

    let first = main.get_messages(4);
    assert_eq!(first, script[..4].to_vec());
    let rest = main.get_messages(100);
    assert_eq!(rest, script[4..].to_vec());
    assert!(main.get_messages(100).is_empty());

    let mut table = PeerTable::new();
    let (messages, failure) = fold_worker_events(&mut table, first);
    assert_eq!(failure, None);
    assert_eq!(
        messages,
        vec![
            PeerMessage {
                bytes: b"hello".to_vec(),
                id: peer(1)
            },
            PeerMessage {
                bytes: b"hi".to_vec(),
                id: peer(2)
            },
        ]
    );
    assert_eq!(table.snapshot().connected, vec![peer(1), peer(2)]);
    let (messages, failure) = fold_worker_events(&mut table, rest);
    assert_eq!(failure, None);
    assert_eq!(
        messages,
        vec![PeerMessage {
            bytes: b"bye".to_vec(),
            id: peer(1)
        }]
    );
    assert_eq!(table.snapshot().connected, vec![peer(2)]);
    assert_eq!(table.snapshot().disconnected, vec![peer(1)]);
}

#[test]
fn the_last_failure_of_a_frame_is_the_one_that_counts() {
    let mut table = PeerTable::new();
    let (messages, failure) = fold_worker_events(
        &mut table,
        vec![
            WorkerToMainMsg::ConnectionFailed,
            WorkerToMainMsg::PeerConnected(peer(5)),
            WorkerToMainMsg::Disconnected,
        ],
    );
    assert!(messages.is_empty());
    assert_eq!(failure, Some(TransportFailure::Disconnected));
    assert_eq!(table.status_of(peer(5)), Some(PeerStatus::Connected));
    let (_, failure) = fold_worker_events(&mut table, vec![WorkerToMainMsg::ConnectionFailed]);
    assert_eq!(failure, Some(TransportFailure::ConnectionFailed));
    let (_, failure) = fold_worker_events(&mut table, vec![]);
    assert_eq!(failure, None);
}

#[test]
fn a_full_channel_drops_reports_and_a_closed_one_ends_the_task() {
    let bridge = init(Some("room".to_string())).unwrap();
    let worker = bridge.worker;
    let mut main = bridge.main;
    let flood: Vec<WorkerToMainMsg> = (0..WORKER_TO_MAIN_BUFFER_SIZE as u64 + 5)
        .map(|n| WorkerToMainMsg::PeerConnected(peer(n)))
        .collect();
    let delivery = deliver(&worker.events, flood);
    assert_eq!(delivery, Delivery::Dropped(5));
    assert_eq!(delivery.state(), WorkerState::Running);
    assert_eq!(
        delivery.complaint(),
        Some("Ran out of space consider increasing WORKER_TO_MAIN_BUFFER_SIZE if required.")
    );
    assert_eq!(main.get_messages(2000).len(), WORKER_TO_MAIN_BUFFER_SIZE);

    assert_eq!(
        process_webrtc_updates(&worker.events, Ok(vec![]), vec![]),
        (WorkerState::Running, Delivery::Delivered)
    );
    assert_eq!(
        process_webrtc_updates(&worker.events, Err(PollFailure::Closed), vec![]),
        (WorkerState::Stopped, Delivery::Delivered)
    );
    assert_eq!(main.get_messages(10), vec![WorkerToMainMsg::Disconnected]);

    drop(main);
    let delivery = deliver(&worker.events, vec![WorkerToMainMsg::Disconnected]);
    assert_eq!(delivery, Delivery::Closed);
    assert_eq!(delivery.state(), WorkerState::Stopped);
    assert_eq!(delivery.complaint(), Some("Main thread has disconnected"));
    assert_eq!(
        process_webrtc_updates(
            &worker.events,
            Ok(vec![(peer(1), PeerStatus::Connected)]),
            vec![]
        ),
        (WorkerState::Stopped, Delivery::Closed)
    );
    assert_eq!(deliver(&worker.events, vec![]), Delivery::Delivered);
    assert_eq!(Delivery::Delivered.complaint(), None);
}

#[test]
fn commands_reach_the_task_unless_it_is_gone_or_the_channel_is_full() {
    let detached = MainEndpoint::detached();
    assert!(!detached.is_connected());
    assert_eq!(
        detached.send_message(MainToWorkerMsg::Shutdown),
        SendOutcome::NotInitialized
    );
    assert!(init(None).is_none());

    let bridge = init(Some("room".to_string())).unwrap();
    let main = bridge.main;
    let mut worker = bridge.worker;
    assert_eq!(
        main.send_message(MainToWorkerMsg::SendMessage(peer(1), vec![1])),
        SendOutcome::Sent
    );
    assert_eq!(
        worker.commands.try_recv().ok(),
        Some(MainToWorkerMsg::SendMessage(peer(1), vec![1]))
    );
    for _ in 0..MAIN_TO_WORKER_BUFFER_SIZE {
        assert_eq!(main.send_message(MainToWorkerMsg::Tick), SendOutcome::Sent);
    }
    assert_eq!(
        main.send_message(MainToWorkerMsg::Shutdown),
        SendOutcome::QueueFull
    );
    drop(worker);
    assert_eq!(
        main.send_message(MainToWorkerMsg::Shutdown),
        SendOutcome::WorkerGone
    );
    assert_eq!(
        SendOutcome::WorkerGone.complaint(),
        Some("Worker thread has disconnected")
    );
    assert_eq!(
        SendOutcome::QueueFull.complaint(),
        Some("Ran out of space consider increasing MAIN_TO_WORKER_BUFFER_SIZE if required.")
    );
    assert_eq!(SendOutcome::Sent.complaint(), None);
    assert_eq!(SendOutcome::NotInitialized.complaint(), None);
    assert_eq!(SendOutcome::from_offer(Offer::Taken), SendOutcome::Sent);
    assert_eq!(SendOutcome::from_offer(Offer::Full), SendOutcome::QueueFull);
    assert_eq!(SendOutcome::from_offer(Offer::Closed), SendOutcome::WorkerGone);
}

#[test]
fn what_the_task_does_on_each_event() {
    assert_eq!(
        worker_step(WorkerEvent::Command(Some(MainToWorkerMsg::SendMessage(
            peer(1),
            vec![7]
        )))),
        WorkerAction::SendToPeer(peer(1), vec![7])
    );
    assert_eq!(
        worker_step(WorkerEvent::Command(Some(MainToWorkerMsg::Tick))),
        WorkerAction::PollSocket
    );
    assert_eq!(worker_step(WorkerEvent::TimerTick), WorkerAction::PollSocket);
    assert_eq!(
        worker_step(WorkerEvent::Command(Some(MainToWorkerMsg::Shutdown))),
        WorkerAction::Stop(None)
    );
    assert_eq!(
        worker_step(WorkerEvent::Command(None)),
        WorkerAction::Stop(None)
    );
    assert_eq!(
        worker_step(WorkerEvent::TransportEnded(TransportEnd::Clean)),
        WorkerAction::Stop(Some(WorkerToMainMsg::Disconnected))
    );
    assert_eq!(
        worker_step(WorkerEvent::TransportEnded(TransportEnd::ConnectionFailed)),
        WorkerAction::Stop(Some(WorkerToMainMsg::ConnectionFailed))
    );
    assert_eq!(
        worker_step(WorkerEvent::TransportEnded(TransportEnd::Disconnected)),
        WorkerAction::Stop(Some(WorkerToMainMsg::Disconnected))
    );
}

#[test]
fn shutdown_wins_the_race_and_nothing_is_processed_after_it() {
    for transport in [None, Some(TransportEnd::Clean), Some(TransportEnd::Disconnected)] {
        for timer in [false, true] {
            let cycle = PollCycle {
                command: Some(Some(MainToWorkerMsg::Shutdown)),
                transport,
                timer,
            };
            assert_eq!(
                select(cycle),
                Some(WorkerEvent::Command(Some(MainToWorkerMsg::Shutdown)))
            );
        }
    }
    assert_eq!(
        select(PollCycle {
            command: None,
            transport: Some(TransportEnd::Clean),
            timer: true
        }),
        Some(WorkerEvent::TransportEnded(TransportEnd::Clean))
    );
    assert_eq!(
        select(PollCycle {
            command: None,
            transport: None,
            timer: true
        }),
        Some(WorkerEvent::TimerTick)
    );
    assert_eq!(
        select(PollCycle {
            command: None,
            transport: None,
            timer: false
        }),
        None
    );

    let mut state = WorkerState::Running;
    assert_eq!(
        worker_advance(&mut state, WorkerEvent::TimerTick),
        Some(WorkerAction::PollSocket)
    );
    assert_eq!(state, WorkerState::Running);
    assert_eq!(
        worker_advance(
            &mut state,
            WorkerEvent::Command(Some(MainToWorkerMsg::Shutdown))
        ),
        Some(WorkerAction::Stop(None))
    );
    assert_eq!(state, WorkerState::Stopped);
    for event in [
        WorkerEvent::TimerTick,
        WorkerEvent::Command(Some(MainToWorkerMsg::Tick)),
        WorkerEvent::Command(Some(MainToWorkerMsg::SendMessage(peer(1), vec![1]))),
        WorkerEvent::TransportEnded(TransportEnd::ConnectionFailed),
    ] {
        assert_eq!(worker_advance(&mut state, event), None);
        assert_eq!(state, WorkerState::Stopped);
    }
}

#[test]
fn the_lines_for_a_socket_that_cannot_be_polled() {
    assert_eq!(
        PollFailure::Closed.message(),
        "WebRTC channel closed, maybe the room url was invalid"
    );
    assert_eq!(PollFailure::NotFound.message(), "WebRTC channel not found");
    assert_eq!(
        PollFailure::Taken.message(),
        "WebRTC channel taken, it is no longer on the socket"
    );
}

#[test]
fn what_one_offer_decides_for_a_delivery() {
    assert_eq!(roc_ray::worker::settle(Offer::Taken, 3), None);
    assert_eq!(
        roc_ray::worker::settle(Offer::Full, 3),
        Some(Delivery::Dropped(3))
    );
    assert_eq!(
        roc_ray::worker::settle(Offer::Closed, 3),
        Some(Delivery::Closed)
    );
}

#[test]
fn what_one_look_at_the_channel_adds_to_the_events() {
    let mut events = vec![WorkerToMainMsg::PeerConnected(peer(1))];
    assert!(roc_ray::worker::gather(
        &mut events,
        Some(WorkerToMainMsg::Disconnected)
    ));
    assert_eq!(
        events,
        vec![
            WorkerToMainMsg::PeerConnected(peer(1)),
            WorkerToMainMsg::Disconnected
        ]
    );
    assert!(!roc_ray::worker::gather(&mut events, None));
    assert_eq!(events.len(), 2);
}

#[test]
fn every_end_of_the_transport_is_told_to_the_frame_loop() {
    for (end, last) in [
        (TransportEnd::Clean, WorkerToMainMsg::Disconnected),
        (TransportEnd::Disconnected, WorkerToMainMsg::Disconnected),
        (TransportEnd::ConnectionFailed, WorkerToMainMsg::ConnectionFailed),
    ] {
        let mut state = WorkerState::Running;
        assert_eq!(
            worker_advance(&mut state, WorkerEvent::TransportEnded(end)),
            Some(WorkerAction::Stop(Some(last)))
        );
        assert_eq!(state, WorkerState::Stopped);
        assert_eq!(worker_advance(&mut state, WorkerEvent::TimerTick), None);
    }
}

#[test]
fn what_is_ready_is_taken_one_by_one_commands_first() {
    let mut cycle = PollCycle {
        command: Some(Some(MainToWorkerMsg::Tick)),
        transport: Some(TransportEnd::Clean),
        timer: true,
    };
    assert_eq!(
        roc_ray::worker::take_ready(&mut cycle),
        Some(WorkerEvent::Command(Some(MainToWorkerMsg::Tick)))
    );
    assert_eq!(
        cycle,
        PollCycle {
            command: None,
            transport: Some(TransportEnd::Clean),
            timer: true
        }
    );
    assert_eq!(
        roc_ray::worker::take_ready(&mut cycle),
        Some(WorkerEvent::TransportEnded(TransportEnd::Clean))
    );
    assert_eq!(
        roc_ray::worker::take_ready(&mut cycle),
        Some(WorkerEvent::TimerTick)
    );
    assert_eq!(roc_ray::worker::take_ready(&mut cycle), None);
    assert_eq!(
        cycle,
        PollCycle {
            command: None,
            transport: None,
            timer: false
        }
    );

    let mut closed = PollCycle {
        command: Some(None),
        transport: None,
        timer: true,
    };
    assert_eq!(
        roc_ray::worker::take_ready(&mut closed),
        Some(WorkerEvent::Command(None))
    );
    assert!(closed.timer);
}

#[test]
fn a_socket_that_cannot_be_polled_is_reported_as_a_lost_connection() {
    assert_eq!(
        roc_ray::worker::plan_poll(
            Err(PollFailure::NotFound),
            vec![(peer(1), vec![1, 2])]
        ),
        vec![WorkerToMainMsg::Disconnected]
    );
    assert_eq!(
        roc_ray::worker::plan_poll(
            Ok(vec![(peer(2), PeerStatus::Disconnected)]),
            vec![(peer(1), vec![1, 2])]
        ),
        vec![
            WorkerToMainMsg::PeerDisconnected(peer(2)),
            WorkerToMainMsg::MessageReceived(peer(1), vec![1, 2])
        ]
    );
    assert!(roc_ray::worker::plan_poll(Ok(vec![]), vec![]).is_empty());
}

#[test]
fn shutting_down_closes_the_channels_even_where_the_command_is_dropped() {
    let bridge = init(Some("room".to_string())).unwrap();
    let mut main = bridge.main;
    let mut worker = bridge.worker;
    for _ in 0..MAIN_TO_WORKER_BUFFER_SIZE {
        assert_eq!(main.send_message(MainToWorkerMsg::Tick), SendOutcome::Sent);
    }
    assert_eq!(main.shut_down(), SendOutcome::QueueFull);
    assert!(!main.is_connected());
    assert_eq!(main.shut_down(), SendOutcome::NotInitialized);

    // The task finds the commands that waited, and then the closed channel.
    let mut state = WorkerState::Running;
    let mut polls = 0;
    while state == WorkerState::Running {
        let command = worker.commands.blocking_recv();
        match worker_advance(&mut state, WorkerEvent::Command(command)) {
            Some(WorkerAction::PollSocket) => polls += 1,
            Some(WorkerAction::Stop(None)) => {}
            other => panic!("{other:?}"),
        }
    }
    assert_eq!(polls, MAIN_TO_WORKER_BUFFER_SIZE);
    assert_eq!(
        deliver(&worker.events, vec![WorkerToMainMsg::Disconnected]),
        Delivery::Closed
    );

    let bridge = init(Some("room".to_string())).unwrap();
    let mut main = bridge.main;
    let mut worker = bridge.worker;
    assert_eq!(main.shut_down(), SendOutcome::Sent);
    assert_eq!(
        worker.commands.blocking_recv(),
        Some(MainToWorkerMsg::Shutdown)
    );
    assert_eq!(worker.commands.blocking_recv(), None);
}

#[test]
fn the_table_holds_what_the_events_say_last_of_each_peer() {
    let mut peers = PeerTable::new();
    peers.record(peer(9), PeerStatus::Connected);
    peers.record(peer(1), PeerStatus::Disconnected);
    let events = vec![
        WorkerToMainMsg::PeerConnected(peer(1)),
        WorkerToMainMsg::MessageReceived(peer(1), vec![1]),
        WorkerToMainMsg::PeerDisconnected(peer(2)),
        WorkerToMainMsg::PeerDisconnected(peer(1)),
        WorkerToMainMsg::MessageReceived(peer(2), vec![2, 2]),
        WorkerToMainMsg::PeerConnected(peer(1)),
    ];
    let (messages, failure) = fold_worker_events(&mut peers, events);
    assert_eq!(
        messages,
        vec![
            PeerMessage {
                bytes: vec![1],
                id: peer(1)
            },
            PeerMessage {
                bytes: vec![2, 2],
                id: peer(2)
            },
        ]
    );
    assert_eq!(failure, None);
    assert_eq!(peers.status_of(peer(1)), Some(PeerStatus::Connected));
    assert_eq!(peers.status_of(peer(2)), Some(PeerStatus::Disconnected));
    assert_eq!(peers.status_of(peer(9)), Some(PeerStatus::Connected));
    assert_eq!(peers.status_of(peer(3)), None);
    let lists = peers.snapshot();
    assert_eq!(lists.connected, vec![peer(9), peer(1)]);
    assert_eq!(lists.disconnected, vec![peer(2)]);
}
