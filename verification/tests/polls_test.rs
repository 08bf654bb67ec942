use polls::config::{Config, ConfigError};
use polls::controller::{ControllerError, PollController};
use polls::model::{migration_plan, NewAnswer, NewOption, NewPoll, OptionRecord, PollRecord, PollResult, Table, Timestamp};
use polls::routes::{
    create_poll, create_poll_at, create_poll_reply, end_poll, get_poll, poll_results, room_name, vote_poll, CreatePoll,
};
use polls::socket::{socket_handler, SocketAction, SocketEvent};
use polls::status::{Error, HttpError};
use polls::text::{int_to_text, nat_to_text};

fn at(micros: i64) -> Timestamp {
    Timestamp { unix_micros: micros, utc_offset_seconds: 0 }
}

fn poll(id: i32, end_date: Option<Timestamp>) -> PollRecord {
    PollRecord { id, title: "Lunch?".to_string(), start_date: at(1_000), end_date }
}

fn option(id: i32, poll_id: i32, value: &str) -> OptionRecord {
    OptionRecord { id, poll_id, value: value.to_string() }
}

fn http(status: u16, message: &str) -> HttpError {
    HttpError { status, message: message.to_string() }
}

#[test]
fn decimal_text_of_numbers() {
    assert_eq!(nat_to_text(0), "0");
    assert_eq!(nat_to_text(7), "7");
    assert_eq!(nat_to_text(1200), "1200");
    assert_eq!(nat_to_text(u64::MAX), u64::MAX.to_string());
    assert_eq!(int_to_text(42), "42");
    assert_eq!(int_to_text(-7), "-7");
    assert_eq!(int_to_text(i32::MIN), "-2147483648");
    assert_eq!(int_to_text(i32::MAX), "2147483647");
}

#[test]
fn tables_are_created_after_their_parents() {
    assert_eq!(migration_plan(), vec![Table::Poll, Table::PollOption, Table::PollAnswer]);
    assert_eq!(Table::Poll.parent(), None);
    assert_eq!(Table::PollOption.parent(), Some(Table::Poll));
    assert_eq!(Table::PollAnswer.parent(), Some(Table::PollOption));
    assert_eq!(Table::Poll.name(), "polls");
    assert_eq!(Table::PollOption.name(), "polls_option");
    assert_eq!(Table::PollAnswer.name(), "polls_answer");
}

#[test]
fn created_options_point_to_their_poll() {
    let saved = poll(9, None);
    let options = vec![
        NewOption { poll_id: None, value: "pizza".to_string() },
        NewOption { poll_id: None, value: "sushi".to_string() },
    ];
    let linked = PollController::create_poll(&saved, options);
    assert_eq!(
        linked,
        vec![
            NewOption { poll_id: Some(9), value: "pizza".to_string() },
            NewOption { poll_id: Some(9), value: "sushi".to_string() },
        ]
    );
    assert_eq!(PollController::create_poll(&saved, vec![]), vec![]);
}

#[test]
fn get_poll_takes_the_last_row() {
    assert_eq!(PollController::get_poll(vec![]), None);
    let rows = vec![(poll(1, None), vec![]), (poll(2, None), vec![option(5, 2, "a")])];
    assert_eq!(PollController::get_poll(rows), Some((poll(2, None), vec![option(5, 2, "a")])));
}

#[test]
fn vote_on_open_poll_is_stored() {
    let rows = vec![(option(5, 3, "yes"), vec![poll(3, None)])];
    assert_eq!(PollController::vote_poll(3, 5, rows), Ok(NewAnswer { poll_option_id: 5 }));
}

#[test]
fn vote_for_unknown_option_is_refused() {
    assert_eq!(PollController::vote_poll(3, 5, vec![]), Err(ControllerError::PollNotFound));
}

#[test]
fn vote_for_option_of_other_poll_is_refused() {
    let rows = vec![(option(5, 4, "yes"), vec![poll(4, None)])];
    assert_eq!(PollController::vote_poll(3, 5, rows), Err(ControllerError::WrongPoll));
}

#[test]
fn vote_on_ended_poll_is_refused() {
    let rows = vec![(option(5, 3, "yes"), vec![poll(3, Some(at(2_000)))])];
    assert_eq!(PollController::vote_poll(3, 5, rows), Err(ControllerError::PollEnded));
}

#[test]
fn vote_uses_the_last_row_and_its_last_poll() {
    let rows = vec![
        (option(5, 3, "yes"), vec![poll(3, Some(at(2_000)))]),
        (option(5, 3, "yes"), vec![poll(4, None), poll(3, None)]),
    ];
    assert_eq!(PollController::vote_poll(3, 5, rows), Ok(NewAnswer { poll_option_id: 5 }));
}

#[test]
fn controller_error_messages() {
    assert_eq!(ControllerError::Database("db down".to_string()).message(), "db down");
    assert_eq!(ControllerError::PollNotFound.message(), "could not find poll");
    assert_eq!(ControllerError::WrongPoll.message(), "Poll has already ended");
    assert_eq!(ControllerError::PollEnded.message(), "Poll has already ended");
    assert_eq!(ControllerError::AlreadyEnded.message(), "The poll has already been ended.");
}

#[test]
fn end_missing_poll_finds_nothing() {
    assert_eq!(PollController::end_poll_at(None, at(5)), Ok(None));
    assert_eq!(PollController::end_poll(None), Ok(None));
}

#[test]
fn end_open_poll_sets_end_date() {
    assert_eq!(PollController::end_poll_at(Some(poll(3, None)), at(5)), Ok(Some(poll(3, Some(at(5))))));
    let ended = PollController::end_poll(Some(poll(3, None))).unwrap().unwrap();
    assert_eq!(ended.id, 3);
    assert_eq!(ended.title, "Lunch?");
    assert_eq!(ended.start_date, at(1_000));
    assert_eq!(ended.end_date.unwrap().utc_offset_seconds, 0);
}

#[test]
fn end_ended_poll_is_refused() {
    assert_eq!(PollController::end_poll_at(Some(poll(3, Some(at(4)))), at(5)), Err(ControllerError::AlreadyEnded));
    assert_eq!(PollController::end_poll(Some(poll(3, Some(at(4))))), Err(ControllerError::AlreadyEnded));
}

#[test]
fn law_example_ended_poll_is_closed() {
    let ended = PollController::end_poll_at(Some(poll(3, None)), at(5)).unwrap().unwrap();
    let rows = vec![(option(5, 3, "yes"), vec![ended.clone()])];
    assert_eq!(PollController::vote_poll(3, 5, rows), Err(ControllerError::PollEnded));
    assert_eq!(PollController::end_poll_at(Some(ended), at(6)), Err(ControllerError::AlreadyEnded));
}

#[test]
fn law_example_created_options_accept_votes() {
    let (new_poll, options) =
        create_poll_at(CreatePoll { title: "Lunch?".to_string(), options: vec!["a".to_string(), "b".to_string()] }, at(1_000));
    let saved = PollRecord { id: 11, title: new_poll.title, start_date: new_poll.start_date, end_date: None };
    let linked = PollController::create_poll(&saved, options);
    let saved_option = OptionRecord { id: 21, poll_id: linked[1].poll_id.unwrap(), value: linked[1].value.clone() };
    assert_eq!(saved_option.poll_id, 11);
    let rows = vec![(saved_option, vec![saved])];
    assert_eq!(PollController::vote_poll(11, 21, rows), Ok(NewAnswer { poll_option_id: 21 }));
}

#[test]
fn error_responses() {
    assert_eq!(Error::NotFound.status(), 404);
    assert_eq!(Error::ServerError.status(), 500);
    let not_found = Error::NotFound.into_response();
    assert_eq!(not_found.status, 404);
    assert_eq!(not_found.body, "404 Not Found");
    let server = Error::ServerError.into_response();
    assert_eq!(server.status, 500);
    assert_eq!(server.body, "500 Internal Server Error");
}

#[test]
fn create_poll_request() {
    let data = CreatePoll { title: "Best editor".to_string(), options: vec!["vim".to_string(), "emacs".to_string()] };
    let (new_poll, options) = create_poll_at(data.clone(), at(77));
    assert_eq!(new_poll, NewPoll { title: "Best editor".to_string(), start_date: at(77) });
    assert_eq!(
        options,
        vec![
            NewOption { poll_id: None, value: "vim".to_string() },
            NewOption { poll_id: None, value: "emacs".to_string() },
        ]
    );
    let (now_poll, now_options) = create_poll(data);
    assert_eq!(now_poll.title, "Best editor");
    assert_eq!(now_poll.start_date.utc_offset_seconds, 0);
    assert!(now_poll.start_date.unix_micros > 0);
    assert_eq!(now_options.len(), 2);
    assert_eq!(now_options[1].value, "emacs");
}

#[test]
fn create_poll_replies() {
    assert_eq!(create_poll_reply(Ok(poll(1, None))), Ok(poll(1, None)));
    assert_eq!(
        create_poll_reply(Err(ControllerError::Database("x".to_string()))),
        Err(http(500, "Could not create poll"))
    );
}

#[test]
fn get_poll_replies() {
    assert_eq!(get_poll(Err(ControllerError::Database("x".to_string()))), Err(http(500, "Could not get poll")));
    assert_eq!(get_poll(Ok(None)), Err(http(404, "Not found")));
    let found = (poll(2, None), vec![option(5, 2, "a")]);
    assert_eq!(get_poll(Ok(Some(found.clone()))), Ok(found));
}

#[test]
fn vote_poll_replies_and_announces() {
    let results = vec![PollResult { id: 5, count: 2 }, PollResult { id: 6, count: 0 }];
    let (body, emission) = vote_poll(12, Ok(results.clone())).unwrap();
    assert_eq!(body, results);
    assert_eq!(emission.room, "12");
    assert_eq!(emission.event, "vote");
    assert_eq!(vote_poll(12, Err(ControllerError::PollEnded)), Err(http(500, "Could not vote poll")));
    assert_eq!(vote_poll(-3, Ok(vec![])).unwrap().1.room, "-3");
}

#[test]
fn poll_results_replies() {
    let results = vec![PollResult { id: 1, count: 3 }];
    assert_eq!(poll_results(Ok(results.clone())), Ok(results));
    assert_eq!(
        poll_results(Err(ControllerError::Database("x".to_string()))),
        Err(http(500, "Could not find poll results"))
    );
}

#[test]
fn end_poll_replies_and_announces() {
    let emission = end_poll(40, Ok(Some(()))).unwrap();
    assert_eq!(emission.room, "40");
    assert_eq!(emission.event, "end");
    assert_eq!(end_poll(40, Ok(None)), Err(http(404, "Could not find poll")));
    assert_eq!(end_poll(40, Err(ControllerError::AlreadyEnded)), Err(http(500, "could not end poll")));
    assert_eq!(room_name(40), "40");
}

#[test]
fn socket_subscriptions() {
    assert_eq!(
        socket_handler(SocketEvent::Subscribe("7".to_string())),
        vec![SocketAction::LeaveAll, SocketAction::Join("7".to_string())]
    );
    assert_eq!(socket_handler(SocketEvent::Unsubscribe), vec![SocketAction::LeaveAll]);
}

#[test]
fn law_example_subscriber_gets_own_poll_events() {
    let actions = socket_handler(SocketEvent::Subscribe(room_name(7)));
    let mut rooms: Vec<String> = vec!["3".to_string()];
    for action in actions {
        match action {
            SocketAction::LeaveAll => rooms.clear(),
            SocketAction::Join(room) => rooms.push(room),
        }
    }
    assert_eq!(rooms, vec!["7".to_string()]);
    let vote = vote_poll(7, Ok(vec![])).unwrap().1;
    let other = vote_poll(17, Ok(vec![])).unwrap().1;
    assert!(rooms.contains(&vote.room));
    assert!(!rooms.contains(&other.room));
}

#[test]
fn config_defaults() {
    let config = Config::from_env(None, None, Some("postgres://db".to_string()), None).unwrap();
    assert_eq!(config.public_port, "80");
    assert_eq!(config.private_port, "3000");
    assert_eq!(config.database_uri, "postgres://db");
    assert!(!config.should_only_run_migrations);
    assert!(!config.should_run_migrations);
    assert!(config.serves());
    assert_eq!(config.public_addr(), "0.0.0.0:80");
    assert_eq!(config.private_addr(), "0.0.0.0:3000");
}

#[test]
fn config_from_values() {
    let config = Config::from_env(
        Some("8080".to_string()),
        Some("9090".to_string()),
        Some("db".to_string()),
        Some("yes".to_string()),
    )
    .unwrap();
    assert_eq!(config.public_addr(), "0.0.0.0:8080");
    assert_eq!(config.private_addr(), "0.0.0.0:9090");
    assert!(config.should_run_migrations);
    assert!(!config.should_only_run_migrations);
}

#[test]
fn config_migration_modes() {
    let mode = |m: &str| Config::from_env(None, None, Some("db".to_string()), Some(m.to_string())).unwrap();
    let only = mode("only");
    assert!(only.should_only_run_migrations && only.should_run_migrations && !only.serves());
    let t = mode("true");
    assert!(!t.should_only_run_migrations && t.should_run_migrations && t.serves());
    let no = mode("no");
    assert!(!no.should_only_run_migrations && !no.should_run_migrations);
    let upper = mode("YES");
    assert!(!upper.should_run_migrations);
}

#[test]
fn config_needs_database_uri() {
    assert_eq!(Config::from_env(None, None, None, Some("yes".to_string())), Err(ConfigError::MissingDatabaseUri));
    assert_eq!(ConfigError::MissingDatabaseUri.message(), "Missing database URI");
}
