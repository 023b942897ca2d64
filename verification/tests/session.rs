use autoplay::clock::Timestamp;
use autoplay::config::Config;
use autoplay::message::ChatMessage;
use autoplay::model::Phase;
use autoplay::protocol::{say_play, Action, Event, Reply};
use autoplay::session::Session;
use twitchchat::UserConfig;

fn line(sender: &str, channel: &str, text: &str) -> Event {
    Event::Message(ChatMessage {
        sender: sender.to_string(),
        channel: channel.to_string(),
        text: text.to_string(),
    })
}

fn login() -> UserConfig {
    UserConfig { name: "autoplay".to_string(), token: String::new(), capabilities: Vec::new() }
}

fn config(channels: &[&str], wait_seconds: u64) -> Config {
    Config::new(login(), channels.iter().map(|name| name.to_string()).collect(), wait_seconds)
}

fn play(channel: &str) -> Action {
    Action::Send(Reply { channel: channel.to_string(), text: "!play".to_string() })
}

fn at(secs: u64) -> Timestamp {
    Timestamp::from_secs(secs)
}

/// A session for `autoplay` that has joined `alice` and `bob` by second 10.
fn running(wait_seconds: u64) -> Session {
    let mut session = Session::new(config(&["alice", "bob"], wait_seconds));
    assert_eq!(
        session.step_at(&Event::Connected("autoplay".to_string()), at(8)),
        Action::Join("alice".to_string())
    );
    assert_eq!(session.step_at(&Event::Joined, at(9)), Action::Join("bob".to_string()));
    assert_eq!(session.step_at(&Event::Joined, at(10)), Action::Receive);
    session
}

#[test]
fn a_new_session_is_about_to_connect() {
    let session = Session::new(config(&["alice", "bob"], 30));
    assert_eq!(session.phase(), Phase::Connecting);
    assert_eq!(session.joined(), 0);
    assert_eq!(session.username(), "");
    assert_eq!(session.next_allowed(), 0);
    assert_eq!(session.config().channels, vec!["alice".to_string(), "bob".to_string()]);
    assert_eq!(session.config().wait_seconds, 30);
    assert_eq!(session.config().user_config, login());
}

#[test]
fn the_login_is_carried_through_untouched() {
    let anonymous = UserConfig::builder().anonymous().build().unwrap();
    let mut session = Session::new(Config::new(anonymous.clone(), vec!["alice".to_string()], 5));
    assert_eq!(session.config().user_config, anonymous);
    session.step_at(&Event::Connected("justinfan1234".to_string()), at(1));
    session.step_at(&Event::Joined, at(2));
    session.step_at(&line("carol", "alice", "!play"), at(3));
    assert_eq!(session.config().user_config, anonymous);
    assert_eq!(session.config().channels, vec!["alice".to_string()]);
    assert_eq!(session.config().wait_seconds, 5);
    session.step_at(&Event::Failed, at(4));
    assert_eq!(session.config().user_config, anonymous);
}

#[test]
fn config_keeps_the_list_as_given() {
    let config = config(&["bob", "alice", "bob"], 7);
    assert_eq!(config.channels, vec!["bob".to_string(), "alice".to_string(), "bob".to_string()]);
    assert_eq!(config.wait_seconds, 7);
    assert_eq!(config.user_config, login());
}

#[test]
fn say_play_answers_in_the_same_channel() {
    assert_eq!(say_play("alice"), Reply { channel: "alice".to_string(), text: "!play".to_string() });
    assert_eq!(say_play("#bob"), Reply { channel: "#bob".to_string(), text: "!play".to_string() });
    assert_eq!(say_play(""), Reply { channel: String::new(), text: "!play".to_string() });
}

#[test]
fn end_to_end() {
    let wait = 30;
    let mut session = Session::new(config(&["alice", "bob"], wait));
    assert_eq!(
        session.step_at(&Event::Connected("autoplay".to_string()), at(8)),
        Action::Join("alice".to_string())
    );
    assert_eq!(session.step_at(&Event::Joined, at(9)), Action::Join("bob".to_string()));
    assert_eq!(session.step_at(&Event::Joined, at(10)), Action::Receive);
    assert_eq!(session.phase(), Phase::Running);

    // the trigger is answered once, in the channel it came from
    assert_eq!(session.step_at(&line("carol", "alice", "!play"), at(100)), play("alice"));
    // the same trigger within the waiting time is passed over
    assert_eq!(session.step_at(&line("carol", "alice", "!play"), at(101)), Action::Receive);
    assert_eq!(
        session.step_at(&line("carol", "alice", "!play"), Timestamp::new(129, 999_999_999)),
        Action::Receive
    );
    // after the waiting time it is answered once more
    assert_eq!(session.step_at(&line("carol", "alice", "!play"), at(130)), play("alice"));
    assert_eq!(session.step_at(&line("carol", "alice", "!play"), at(130)), Action::Receive);
    assert_eq!(session.phase(), Phase::Running);
}

#[test]
fn channels_are_joined_in_list_order() {
    let mut session = Session::new(config(&["c", "a", "b", "a"], 1));
    assert_eq!(
        session.step_at(&Event::Connected("me".to_string()), at(0)),
        Action::Join("c".to_string())
    );
    assert_eq!(session.phase(), Phase::Joining);
    assert_eq!(session.joined(), 0);
    assert_eq!(session.username(), "me");
    assert_eq!(session.step_at(&Event::Joined, at(1)), Action::Join("a".to_string()));
    assert_eq!(session.joined(), 1);
    assert_eq!(session.step_at(&Event::Joined, at(2)), Action::Join("b".to_string()));
    assert_eq!(session.joined(), 2);
    assert_eq!(session.step_at(&Event::Joined, at(3)), Action::Join("a".to_string()));
    assert_eq!(session.joined(), 3);
    assert_eq!(session.phase(), Phase::Joining);
    assert_eq!(session.step_at(&Event::Joined, at(4)), Action::Receive);
    assert_eq!(session.joined(), 4);
    assert_eq!(session.phase(), Phase::Running);
    assert_eq!(session.next_allowed(), 4_000_000_000);
}

#[test]
fn a_session_without_channels_runs_once_connected() {
    let mut session = Session::new(config(&[], 30));
    assert_eq!(session.step_at(&Event::Connected("me".to_string()), at(3)), Action::Receive);
    assert_eq!(session.phase(), Phase::Running);
    assert_eq!(session.joined(), 0);
    assert_eq!(session.next_allowed(), 3_000_000_000);
    assert_eq!(session.step_at(&line("carol", "alice", "!play"), at(3)), play("alice"));
}

#[test]
fn the_first_trigger_after_the_start_is_allowed() {
    let mut session = running(3600);
    assert_eq!(session.next_allowed(), 10_000_000_000);
    assert_eq!(session.step_at(&line("carol", "bob", "!play"), at(10)), play("bob"));
    assert_eq!(session.next_allowed(), 3_610_000_000_000);
}

#[test]
fn a_failed_connect_is_fatal() {
    let mut session = Session::new(config(&["alice", "bob"], 30));
    assert_eq!(session.step_at(&Event::Failed, at(1)), Action::Abort);
    assert_eq!(session.phase(), Phase::Failed);
    assert_eq!(session.joined(), 0);
    assert_eq!(session.step_at(&Event::Connected("me".to_string()), at(2)), Action::Abort);
    assert_eq!(session.phase(), Phase::Failed);
}

#[test]
fn a_failed_join_is_fatal() {
    let mut session = Session::new(config(&["alice", "bob"], 30));
    assert_eq!(
        session.step_at(&Event::Connected("me".to_string()), at(1)),
        Action::Join("alice".to_string())
    );
    assert_eq!(session.step_at(&Event::Joined, at(2)), Action::Join("bob".to_string()));
    assert_eq!(session.step_at(&Event::Failed, at(3)), Action::Abort);
    assert_eq!(session.phase(), Phase::Failed);
    assert_eq!(session.joined(), 1);
    // no run with a part of the channels
    assert_eq!(session.step_at(&Event::Joined, at(4)), Action::Abort);
    assert_eq!(session.step_at(&line("carol", "alice", "!play"), at(5)), Action::Abort);
    assert_eq!(session.phase(), Phase::Failed);
}

#[test]
fn a_transport_error_ends_the_loop_for_good() {
    let mut session = running(30);
    assert_eq!(session.step_at(&line("carol", "alice", "hello"), at(20)), Action::Receive);
    assert_eq!(session.step_at(&Event::Failed, at(21)), Action::Abort);
    assert_eq!(session.phase(), Phase::Failed);
    let before = session.next_allowed();
    assert_eq!(session.step_at(&line("carol", "alice", "!play"), at(22)), Action::Abort);
    assert_eq!(session.step_at(&line("dave", "bob", "!play"), at(500)), Action::Abort);
    assert_eq!(session.step_at(&Event::Other, at(501)), Action::Abort);
    assert_eq!(session.step_at(&Event::Closed, at(502)), Action::Abort);
    assert_eq!(session.step_at(&Event::Joined, at(503)), Action::Abort);
    assert_eq!(session.step_at(&Event::Failed, at(504)), Action::Abort);
    assert_eq!(session.phase(), Phase::Failed);
    assert_eq!(session.next_allowed(), before);
}

#[test]
fn a_failed_send_is_fatal() {
    let mut session = running(30);
    assert_eq!(session.step_at(&line("carol", "alice", "!play"), at(20)), play("alice"));
    assert_eq!(session.step_at(&Event::Failed, at(20)), Action::Abort);
    assert_eq!(session.phase(), Phase::Failed);
}

#[test]
fn the_end_of_the_session_stops_the_loop() {
    let mut session = running(30);
    assert_eq!(session.step_at(&Event::Closed, at(20)), Action::Stop);
    assert_eq!(session.phase(), Phase::Ended);
    assert_eq!(session.joined(), 2);
    assert_eq!(session.step_at(&line("carol", "alice", "!play"), at(21)), Action::Stop);
    assert_eq!(session.step_at(&Event::Failed, at(22)), Action::Stop);
    assert_eq!(session.step_at(&Event::Other, at(23)), Action::Stop);
    assert_eq!(session.phase(), Phase::Ended);
}

#[test]
fn what_is_no_chat_line_is_passed_over() {
    let mut session = running(30);
    assert_eq!(session.step_at(&Event::Other, at(20)), Action::Receive);
    assert_eq!(session.phase(), Phase::Running);
    assert_eq!(session.next_allowed(), 10_000_000_000);
    assert_eq!(session.step_at(&line("carol", "alice", "!play"), at(21)), play("alice"));
}

#[test]
fn lines_that_are_no_trigger_leave_the_gate_alone() {
    let mut session = running(30);
    assert_eq!(session.step_at(&line("carol", "alice", "hello"), at(20)), Action::Receive);
    assert_eq!(session.step_at(&line("carol", "alice", "!play now"), at(21)), Action::Receive);
    assert_eq!(session.step_at(&line("autoplay", "alice", "!play"), at(22)), Action::Receive);
    assert_eq!(session.step_at(&line("nightbot", "alice", "!play"), at(23)), Action::Receive);
    assert_eq!(session.next_allowed(), 10_000_000_000);
    assert_eq!(session.step_at(&line("carol", "alice", "  !PLAY  "), at(24)), play("alice"));
    assert_eq!(session.next_allowed(), 54_000_000_000);
}

#[test]
fn the_cooldown_is_shared_by_all_channels_and_users() {
    let mut session = running(30);
    assert_eq!(session.step_at(&line("carol", "alice", "!play"), at(100)), play("alice"));
    assert_eq!(session.step_at(&line("dave", "bob", "!play"), at(110)), Action::Receive);
    assert_eq!(session.step_at(&line("erin", "alice", "!Play"), at(129)), Action::Receive);
    assert_eq!(session.next_allowed(), 130_000_000_000);
    assert_eq!(session.step_at(&line("dave", "bob", "!play"), at(131)), play("bob"));
    assert_eq!(session.next_allowed(), 161_000_000_000);
    assert_eq!(session.step_at(&line("carol", "alice", "!play"), at(160)), Action::Receive);
}

#[test]
fn the_name_is_the_one_the_network_reports() {
    let mut session = Session::new(config(&[], 0));
    assert_eq!(
        session.step_at(&Event::Connected("justinfan1234".to_string()), at(0)),
        Action::Receive
    );
    assert_eq!(session.username(), "justinfan1234");
    assert_eq!(session.step_at(&line("justinfan1234", "alice", "!play"), at(1)), Action::Receive);
    assert_eq!(session.step_at(&line("autoplay", "alice", "!play"), at(2)), play("alice"));
}

#[test]
fn the_reply_goes_where_the_line_came_from() {
    let mut session = running(0);
    assert_eq!(session.step_at(&line("carol", "#alice", "!play"), at(20)), play("#alice"));
    assert_eq!(session.step_at(&line("carol", "elsewhere", "!play"), at(20)), play("elsewhere"));
    assert_eq!(session.step_at(&line("carol", "", "!play"), at(20)), play(""));
}

#[test]
fn an_event_nobody_asked_for_is_a_failure() {
    let mut session = Session::new(config(&["alice"], 30));
    assert_eq!(session.step_at(&Event::Joined, at(1)), Action::Abort);
    assert_eq!(session.phase(), Phase::Failed);

    let mut session = Session::new(config(&["alice"], 30));
    assert_eq!(session.step_at(&line("carol", "alice", "!play"), at(1)), Action::Abort);

    let mut session = Session::new(config(&["alice"], 30));
    assert_eq!(session.step_at(&Event::Closed, at(1)), Action::Abort);

    let mut session = Session::new(config(&["alice"], 30));
    session.step_at(&Event::Connected("me".to_string()), at(1));
    assert_eq!(session.step_at(&Event::Connected("me".to_string()), at(2)), Action::Abort);

    let mut session = Session::new(config(&["alice"], 30));
    session.step_at(&Event::Connected("me".to_string()), at(1));
    assert_eq!(session.step_at(&Event::Other, at(2)), Action::Abort);

    let mut session = running(30);
    assert_eq!(session.step_at(&Event::Joined, at(20)), Action::Abort);
    assert_eq!(session.phase(), Phase::Failed);

    let mut session = running(30);
    assert_eq!(session.step_at(&Event::Connected("me".to_string()), at(20)), Action::Abort);
    assert_eq!(session.phase(), Phase::Failed);
}

#[test]
fn the_parts_of_the_reply_path() {
    let mut session = running(30);
    let trigger = ChatMessage {
        sender: "carol".to_string(),
        channel: "alice".to_string(),
        text: "!play".to_string(),
    };
    let own = ChatMessage {
        sender: "autoplay".to_string(),
        channel: "alice".to_string(),
        text: "!play".to_string(),
    };
    assert!(session.is_interesting(&trigger));
    assert!(!session.is_interesting(&own));

    assert_eq!(session.handle(&own, at(10)), None);
    assert_eq!(session.next_allowed(), 10_000_000_000);
    assert_eq!(
        session.handle(&trigger, at(10)),
        Some(Reply { channel: "alice".to_string(), text: "!play".to_string() })
    );
    assert_eq!(session.next_allowed(), 40_000_000_000);
    assert_eq!(session.handle(&trigger, at(39)), None);
    assert_eq!(session.next_allowed(), 40_000_000_000);

    assert!(session.dont_spam(at(39)));
    assert!(!session.dont_spam(at(40)));
    assert_eq!(session.next_allowed(), 70_000_000_000);
    assert!(session.dont_spam(Timestamp::new(69, 999_999_999)));
    assert_eq!(session.phase(), Phase::Running);
}

#[test]
fn the_session_clock_stamps_the_events() {
    let mut session = Session::new(config(&["alice"], 3600));
    assert_eq!(
        session.step(&Event::Connected("autoplay".to_string())),
        Action::Join("alice".to_string())
    );
    assert_eq!(session.step(&Event::Joined), Action::Receive);
    assert_eq!(session.phase(), Phase::Running);
    let start = session.next_allowed();
    // the first trigger after the start is allowed, the next one is not
    assert_eq!(session.step(&line("carol", "alice", "!play")), play("alice"));
    assert!(session.next_allowed() >= start + 3_600_000_000_000);
    let closed_until = session.next_allowed();
    assert_eq!(session.step(&line("carol", "alice", "!play")), Action::Receive);
    assert_eq!(session.next_allowed(), closed_until);
    assert_eq!(session.step(&Event::Failed), Action::Abort);
    assert_eq!(session.step(&line("carol", "alice", "!play")), Action::Abort);
}

#[test]
fn without_a_waiting_time_the_session_clock_never_blocks() {
    let mut session = Session::new(config(&[], 0));
    assert_eq!(session.step(&Event::Connected("autoplay".to_string())), Action::Receive);
    assert_eq!(session.step(&line("carol", "alice", "!play")), play("alice"));
    assert_eq!(session.step(&line("carol", "alice", "!play")), play("alice"));
    assert_eq!(session.step(&Event::Closed), Action::Stop);
}
