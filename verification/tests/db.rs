use bi_chat::db::{
    decide, submission, submit, ChannelClosed, DBMessage, Writer, WriterAction, WriterPhase,
};
use bi_chat::shutdown::Shutdown;

use tokio::sync::{broadcast, mpsc};

fn drain(writer: &mut Writer) -> Vec<DBMessage> {
    let mut rows = Vec::new();
    loop {
        match writer.step() {
            WriterAction::Append(row) => rows.push(row),
            WriterAction::Wait => {}
            WriterAction::Finish => return rows,
        }
    }
}

#[test]
fn new_keeps_its_three_arguments() {
    let row = DBMessage::new(42, "lobby", "good morning");
    assert_eq!(row.user_id, 42);
    assert_eq!(row.room_name, "lobby");
    assert_eq!(row.message, "good morning");
}

#[test]
fn new_takes_empty_strings() {
    let row = DBMessage::new(0, "", "");
    assert_eq!(row.user_id, 0);
    assert_eq!(row.room_name, "");
    assert_eq!(row.message, "");
}

#[test]
fn submit_is_taken_while_the_writer_lives() {
    let (db_tx, mut db_rx) = mpsc::unbounded_channel();
    assert_eq!(submit(&db_tx, DBMessage::new(1, "room1", "hi")), Ok(()));
    let row = db_rx.try_recv().expect("the row should be buffered");
    assert_eq!(row.user_id, 1);
    assert_eq!(row.room_name, "room1");
    assert_eq!(row.message, "hi");
}

#[test]
fn submit_fails_once_the_writer_is_gone() {
    let (db_tx, db_rx) = mpsc::unbounded_channel();
    drop(db_rx);
    assert_eq!(submit(&db_tx, DBMessage::new(1, "room1", "hi")), Err(ChannelClosed));
}

#[test]
fn submission_goes_by_what_the_channel_said() {
    assert_eq!(submission(Ok(())), Ok(()));
    let refused = mpsc::error::SendError(DBMessage::new(1, "room1", "hi"));
    assert_eq!(submission(Err(refused)), Err(ChannelClosed));
}

#[test]
fn decide_appends_what_was_polled() {
    let (phase, action) = decide(false, Some(DBMessage::new(3, "r", "m")));
    assert_eq!(phase, WriterPhase::Running);
    match action {
        WriterAction::Append(row) => {
            assert_eq!(row.user_id, 3);
            assert_eq!(row.room_name, "r");
            assert_eq!(row.message, "m");
        }
        other => panic!("expected an append, got {:?}", other),
    }
    let (phase, action) = decide(true, Some(DBMessage::new(4, "r", "n")));
    assert_eq!(phase, WriterPhase::Draining);
    assert!(matches!(action, WriterAction::Append(row) if row.user_id == 4 && row.message == "n"));
}

#[test]
fn decide_on_an_empty_channel() {
    let (phase, action) = decide(false, None);
    assert_eq!(phase, WriterPhase::Running);
    assert!(matches!(action, WriterAction::Wait));
    let (phase, action) = decide(true, None);
    assert_eq!(phase, WriterPhase::Finished);
    assert!(matches!(action, WriterAction::Finish));
}

#[test]
fn db_test_db_connection() {
    let (_, db_rx) = mpsc::unbounded_channel();
    let (notify_shutdown, _) = broadcast::channel(1);
    let (shutdown_complete_tx, _) = mpsc::channel(1);

    let shutdown_listener = notify_shutdown.subscribe();
    let mut writer = Writer::new(db_rx, Shutdown::new(shutdown_listener, shutdown_complete_tx));

    // Shutdown the connection and return
    drop(notify_shutdown);

    assert!(matches!(writer.step(), WriterAction::Finish));
    assert!(writer.is_finished());
}

#[test]
fn writer_waits_while_nothing_is_buffered() {
    let (db_tx, db_rx) = mpsc::unbounded_channel::<DBMessage>();
    let (notify_shutdown, _) = broadcast::channel(1);
    let (shutdown_complete_tx, _) = mpsc::channel(1);
    let mut writer = Writer::new(db_rx, Shutdown::new(notify_shutdown.subscribe(), shutdown_complete_tx));

    assert!(matches!(writer.step(), WriterAction::Wait));
    assert!(matches!(writer.step(), WriterAction::Wait));
    assert!(!writer.is_finished());

    db_tx.send(DBMessage::new(5, "room1", "late")).unwrap();
    assert!(matches!(writer.step(), WriterAction::Append(row) if row.message == "late"));
    assert!(matches!(writer.step(), WriterAction::Wait));
}

#[test]
fn writer_drains_in_order_after_shutdown() {
    let (db_tx, db_rx) = mpsc::unbounded_channel();
    let (notify_shutdown, _) = broadcast::channel(1);
    let (shutdown_complete_tx, _) = mpsc::channel(1);
    let mut writer = Writer::new(db_rx, Shutdown::new(notify_shutdown.subscribe(), shutdown_complete_tx));

    for body in ["one", "two", "three"] {
        db_tx.send(DBMessage::new(9, "room1", body)).unwrap();
    }
    notify_shutdown.send(()).unwrap();

    let rows = drain(&mut writer);
    let bodies: Vec<&str> = rows.iter().map(|row| row.message.as_str()).collect();
    assert_eq!(bodies, vec!["one", "two", "three"]);
    assert!(writer.is_finished());
}

#[test]
fn finished_writer_takes_nothing_more() {
    let (db_tx, db_rx) = mpsc::unbounded_channel();
    let (notify_shutdown, _) = broadcast::channel(1);
    let (shutdown_complete_tx, _) = mpsc::channel(1);
    let mut writer = Writer::new(db_rx, Shutdown::new(notify_shutdown.subscribe(), shutdown_complete_tx));

    drop(notify_shutdown);
    assert!(matches!(writer.step(), WriterAction::Finish));

    db_tx.send(DBMessage::new(1, "room1", "too late")).unwrap();
    assert!(matches!(writer.step(), WriterAction::Finish));
    assert!(matches!(writer.step(), WriterAction::Finish));
    assert!(writer.is_finished());
}

#[test]
fn completion_handle_is_released_with_the_writer() {
    let (_db_tx, db_rx) = mpsc::unbounded_channel::<DBMessage>();
    let (notify_shutdown, _) = broadcast::channel(1);
    let (shutdown_complete_tx, mut shutdown_complete_rx) = mpsc::channel::<()>(1);
    let mut writer = Writer::new(
        db_rx,
        Shutdown::new(notify_shutdown.subscribe(), shutdown_complete_tx.clone()),
    );
    drop(shutdown_complete_tx);
    drop(notify_shutdown);

    assert!(matches!(
        shutdown_complete_rx.try_recv(),
        Err(mpsc::error::TryRecvError::Empty)
    ));
    assert!(matches!(writer.step(), WriterAction::Finish));
    drop(writer);
    assert!(matches!(
        shutdown_complete_rx.try_recv(),
        Err(mpsc::error::TryRecvError::Disconnected)
    ));
}

#[test]
// Mainly tests that a submitted message comes out of the writer as a proper row
fn test_db_single_insert() {
    let (db_tx, db_rx) = mpsc::unbounded_channel();
    let (notify_shutdown, _) = broadcast::channel(1);
    let (shutdown_complete_tx, mut shutdown_complete_rx) = mpsc::channel::<()>(1);
    let shutdown_listener = notify_shutdown.subscribe();
    let db_shutdown_complete_tx = shutdown_complete_tx.clone();

    let mut writer = Writer::new(db_rx, Shutdown::new(shutdown_listener, db_shutdown_complete_tx));

    let user_id = 1;
    let room_name = String::from("TestRoom");
    let message = String::from("Hello there");
    let chat_message = DBMessage::new(user_id, &room_name, &message);
    db_tx
        .send(chat_message)
        .expect("Failed to send message to Receiver!");

    drop(db_tx);
    drop(notify_shutdown);
    drop(shutdown_complete_tx);

    let rows = drain(&mut writer);
    drop(writer);
    assert!(matches!(
        shutdown_complete_rx.try_recv(),
        Err(mpsc::error::TryRecvError::Disconnected)
    ));

    let returned_msg = rows.into_iter().next().expect("No message returned");
    assert_eq!(returned_msg.user_id, user_id);
    assert_eq!(returned_msg.room_name, room_name);
    assert_eq!(returned_msg.message, message);
}

#[test]
// Mainly tests that the writer can handle multiple requests
fn test_db_multiple_inserts() {
    const TOTAL_ROWS: usize = 1_000_000;

    let (db_tx, db_rx) = mpsc::unbounded_channel();
    let (notify_shutdown, _) = broadcast::channel(1);
    let (shutdown_complete_tx, _shutdown_complete_rx) = mpsc::channel::<()>(1);
    let shutdown_listener = notify_shutdown.subscribe();

    let mut writer = Writer::new(db_rx, Shutdown::new(shutdown_listener, shutdown_complete_tx));

    let user_id = 1;
    let room_name = String::from("TestRoom");
    let message = String::from("Hello there");

    for _ in 0..TOTAL_ROWS {
        let tx = db_tx.clone();
        tx.send(DBMessage::new(user_id, &room_name, &message))
            .expect("Receiver disconnected!");
    }

    drop(db_tx);
    drop(notify_shutdown);

    let rows = drain(&mut writer);
    assert_eq!(rows.len(), TOTAL_ROWS);
}

#[test]
// Mainly tests that the writer can handle many requests at once -- also for channel bottleneck
fn test_db_parallel_inserts() {
    const TOTAL_ROWS: usize = 1_000_000;
    const SENDERS: usize = 8;

    let (db_tx, db_rx) = mpsc::unbounded_channel();
    let (notify_shutdown, _) = broadcast::channel(1);
    let (shutdown_complete_tx, _shutdown_complete_rx) = mpsc::channel::<()>(1);
    let shutdown_listener = notify_shutdown.subscribe();

    let mut writer = Writer::new(db_rx, Shutdown::new(shutdown_listener, shutdown_complete_tx));

    // Simulate many requests at once
    let runtime = tokio::runtime::Builder::new_multi_thread()
        .worker_threads(SENDERS)
        .build()
        .unwrap();
    let mut handles = Vec::new();
    for _ in 0..SENDERS {
        let db_tx = db_tx.clone();
        handles.push(runtime.spawn(async move {
            let user_id = 1;
            let room_name = String::from("TestRoom");
            let message = String::from("Hello there");
            for _ in 0..TOTAL_ROWS / SENDERS {
                db_tx
                    .send(DBMessage::new(user_id, &room_name, &message))
                    .expect("Receiver disconnected!");
            }
        }));
    }

    // The writer takes rows while the senders are still at work.
    let mut rows = 0;
    while handles.iter().any(|handle| !handle.is_finished()) {
        if let WriterAction::Append(_) = writer.step() {
            rows += 1;
        }
    }

    drop(db_tx);
    drop(notify_shutdown);

    rows += drain(&mut writer).len();
    assert_eq!(rows, TOTAL_ROWS);
}
