use std::sync::mpsc;

use headlines::cards::{process_envelope, NewsCardData};
use headlines::channel::{dispatch_cards, WorkerHandle};
use headlines::headlines::{Headlines, HeadlinesConfig};
use headlines::news::{NewsAPIResponse, NewsApiError};
use headlines::poller::drain_into;
use headlines::worker::{WorkerCommand, WorkerCore, WorkerState};

fn card(title: &str) -> NewsCardData {
    NewsCardData {
        title: title.to_string(),
        description: "...".to_string(),
        url: format!("https://example.org/{title}"),
    }
}

fn handle_with_cards(titles: &[&str]) -> WorkerHandle {
    let (cmd_tx, _cmd_rx) = mpsc::channel();
    let (card_tx, card_rx) = mpsc::channel();
    dispatch_cards(&card_tx, titles.iter().map(|t| card(t)).collect()).expect("receiver is alive");
    WorkerHandle::new(cmd_tx, card_rx)
}

#[test]
fn worker_starts_awaiting_without_credential() {
    let w = WorkerCore::new(None);
    assert_eq!(w.state, WorkerState::AwaitingCredential);
    assert!(w.credential.is_none());
    assert!(w.current_fetch().is_none());
}

#[test]
fn worker_starts_awaiting_with_empty_credential() {
    let w = WorkerCore::new(Some(String::new()));
    assert_eq!(w.state, WorkerState::AwaitingCredential);
    assert!(w.current_fetch().is_none());
}

#[test]
fn worker_starts_fetching_with_credential() {
    let w = WorkerCore::new(Some("K0".to_string()));
    assert_eq!(w.state, WorkerState::Fetching);
    assert_eq!(w.current_fetch().as_deref(), Some("K0"));
}

#[test]
fn credential_wakes_parked_worker_once() {
    // The deferred-fetch scenario: started without a credential, the worker
    // parks; one delivered credential triggers exactly one pass with it.
    let mut w = WorkerCore::new(None);
    assert_eq!(w.state, WorkerState::AwaitingCredential);
    w.on_command(WorkerCommand::SetCredential("K1".to_string()));
    assert_eq!(w.state, WorkerState::Fetching);
    assert_eq!(w.current_fetch().as_deref(), Some("K1"));
    w.on_fetch_complete();
    assert_eq!(w.state, WorkerState::Idle);
    assert!(w.current_fetch().is_none());
}

#[test]
fn empty_credential_is_ignored() {
    let mut w = WorkerCore::new(None);
    w.on_command(WorkerCommand::SetCredential(String::new()));
    assert_eq!(w.state, WorkerState::AwaitingCredential);
    assert!(w.current_fetch().is_none());
}

#[test]
fn credential_while_idle_replaces_the_previous_one() {
    let mut w = WorkerCore::new(Some("K1".to_string()));
    w.on_fetch_complete();
    assert_eq!(w.state, WorkerState::Idle);
    w.on_command(WorkerCommand::SetCredential("K2".to_string()));
    assert_eq!(w.state, WorkerState::Fetching);
    assert_eq!(w.current_fetch().as_deref(), Some("K2"));
    w.on_fetch_complete();
    assert_eq!(w.state, WorkerState::Idle);
}

#[test]
fn refresh_while_idle_reuses_last_credential() {
    let mut w = WorkerCore::new(Some("K1".to_string()));
    w.on_fetch_complete();
    w.on_command(WorkerCommand::Refresh);
    assert_eq!(w.state, WorkerState::Fetching);
    assert_eq!(w.current_fetch().as_deref(), Some("K1"));
}

#[test]
fn refresh_while_awaiting_does_nothing() {
    let mut w = WorkerCore::new(None);
    w.on_command(WorkerCommand::Refresh);
    assert_eq!(w.state, WorkerState::AwaitingCredential);
    assert!(w.current_fetch().is_none());
}

#[test]
fn double_refresh_while_fetching_coalesces() {
    // Two refreshes in quick succession while a pass runs: only one
    // additional pass follows once the running pass completes.
    let mut w = WorkerCore::new(Some("K1".to_string()));
    assert_eq!(w.state, WorkerState::Fetching);
    w.on_command(WorkerCommand::Refresh);
    w.on_command(WorkerCommand::Refresh);
    assert_eq!(w.state, WorkerState::Fetching);
    assert_eq!(w.current_fetch().as_deref(), Some("K1"));
    w.on_fetch_complete();
    assert_eq!(w.state, WorkerState::Fetching);
    w.on_fetch_complete();
    assert_eq!(w.state, WorkerState::Idle);
}

#[test]
fn credential_while_fetching_waits_for_the_pass() {
    let mut w = WorkerCore::new(Some("K1".to_string()));
    w.on_command(WorkerCommand::SetCredential("K2".to_string()));
    assert_eq!(w.state, WorkerState::Fetching);
    w.on_fetch_complete();
    assert_eq!(w.state, WorkerState::Fetching);
    assert_eq!(w.current_fetch().as_deref(), Some("K2"));
    w.on_fetch_complete();
    assert_eq!(w.state, WorkerState::Idle);
}

#[test]
fn failed_pass_still_leaves_the_worker_idle() {
    // A rejected fetch attempt emits nothing and is not fatal: the pass
    // completes like any other and the worker parks, ready for a refresh.
    let mut w = WorkerCore::new(Some("K1".to_string()));
    assert_eq!(w.state, WorkerState::Fetching);
    let env = NewsAPIResponse::new(
        "error".to_string(),
        vec![],
        Some("apiKeyDisabled".to_string()),
    );
    let err = process_envelope(env).expect_err("non-ok envelope");
    assert_eq!(err, NewsApiError::Rejected("API key disabled".to_string()));
    w.on_fetch_complete();
    assert_eq!(w.state, WorkerState::Idle);
    w.on_command(WorkerCommand::Refresh);
    assert_eq!(w.state, WorkerState::Fetching);
}

#[test]
fn try_receive_is_none_on_an_empty_channel() {
    let (cmd_tx, _cmd_rx) = mpsc::channel();
    let (_card_tx, card_rx) = mpsc::channel::<NewsCardData>();
    let mut handle = WorkerHandle::new(cmd_tx, card_rx);
    assert!(handle.try_receive().is_none());
    assert!(handle.try_receive().is_none());
}

#[test]
fn try_receive_yields_cards_in_send_order() {
    let mut handle = handle_with_cards(&["one", "two"]);
    assert_eq!(handle.try_receive().unwrap().title, "one");
    assert_eq!(handle.try_receive().unwrap().title, "two");
    assert!(handle.try_receive().is_none());
}

#[test]
fn drain_into_appends_in_receipt_order() {
    let mut handle = handle_with_cards(&["one", "two", "three"]);
    let mut sink = vec![card("zero")];
    drain_into(&mut handle, &mut sink);
    let titles: Vec<&str> = sink.iter().map(|c| c.title.as_str()).collect();
    assert_eq!(titles, vec!["zero", "one", "two", "three"]);
}

#[test]
fn dispatch_cards_fails_without_a_receiver() {
    let (card_tx, card_rx) = mpsc::channel::<NewsCardData>();
    drop(card_rx);
    let err = dispatch_cards(&card_tx, vec![card("a")]).expect_err("receiver is gone");
    assert_eq!(err, NewsApiError::ChannelClosed);
}

#[test]
fn send_credential_reaches_the_worker_side() {
    let (cmd_tx, cmd_rx) = mpsc::channel();
    let (_card_tx, card_rx) = mpsc::channel();
    let handle = WorkerHandle::new(cmd_tx, card_rx);
    handle.send_credential("K9".to_string()).expect("worker is alive");
    match cmd_rx.try_recv().expect("command arrived") {
        WorkerCommand::SetCredential(k) => assert_eq!(k, "K9"),
        WorkerCommand::Refresh => panic!("wrong command"),
    }
}

#[test]
fn request_refresh_reaches_the_worker_side() {
    let (cmd_tx, cmd_rx) = mpsc::channel();
    let (_card_tx, card_rx) = mpsc::channel();
    let handle = WorkerHandle::new(cmd_tx, card_rx);
    handle.request_refresh().expect("worker is alive");
    match cmd_rx.try_recv().expect("command arrived") {
        WorkerCommand::Refresh => {}
        WorkerCommand::SetCredential(_) => panic!("wrong command"),
    }
}

#[test]
fn commands_fail_with_channel_closed_after_the_worker_exits() {
    let (cmd_tx, cmd_rx) = mpsc::channel();
    let (_card_tx, card_rx) = mpsc::channel();
    let handle = WorkerHandle::new(cmd_tx, card_rx);
    drop(cmd_rx);
    assert_eq!(
        handle.send_credential("K1".to_string()).expect_err("worker gone"),
        NewsApiError::ChannelClosed
    );
    assert_eq!(
        handle.request_refresh().expect_err("worker gone"),
        NewsApiError::ChannelClosed
    );
}

#[test]
fn config_default_is_light_and_keyless() {
    let c = HeadlinesConfig::default();
    assert!(!c.dark_mode);
    assert!(c.api_key.is_empty());
}

#[test]
fn headlines_new_marks_key_presence() {
    let without = Headlines::new(HeadlinesConfig::default());
    assert!(!without.is_api_key_initialized);
    assert!(without.articles().is_empty());
    assert!(without.worker.is_none());

    let with = Headlines::new(HeadlinesConfig {
        dark_mode: true,
        api_key: "K1".to_string(),
    });
    assert!(with.is_api_key_initialized);
    assert!(with.config.dark_mode);
}

#[test]
fn preload_articles_drains_the_worker() {
    let mut h = Headlines::new(HeadlinesConfig::default());
    h.preload_articles();
    assert!(h.articles().is_empty());

    h.worker = Some(handle_with_cards(&["one", "two"]));
    h.preload_articles();
    let titles: Vec<&str> = h.articles().iter().map(|c| c.title.as_str()).collect();
    assert_eq!(titles, vec!["one", "two"]);

    h.preload_articles();
    assert_eq!(h.articles().len(), 2);
}
