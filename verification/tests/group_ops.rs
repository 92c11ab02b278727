use channel_model::context::IdentityContext;
use channel_model::error::Error;
use channel_model::group::Group;
use channel_model::id::{ChannelId, MessageId, UserId};
use channel_model::request::{Action, RemoteRequest};
use channel_model::user::User;

fn user(id: u64, name: &str) -> User {
    User { id: UserId(id), name: name.to_string(), bot: false }
}

fn group_with(recipients: Vec<User>) -> Group {
    Group {
        channel_id: ChannelId(555),
        icon: None,
        name: None,
        recipients,
        owner_id: UserId(1),
    }
}

/// A remote-service stand-in that only counts how often it is called.
struct CountingService {
    calls: usize,
    last: Option<RemoteRequest>,
}

impl CountingService {
    fn new() -> Self {
        CountingService { calls: 0, last: None }
    }

    fn run(&mut self, action: Action) {
        if let Action::Remote(req) = action {
            self.calls += 1;
            self.last = Some(req);
        }
    }
}

#[test]
fn name_of_empty_group_is_the_fallback() {
    let g = group_with(Vec::new());
    assert_eq!(g.name(), "Empty Group");
}

#[test]
fn name_joins_recipients_in_insertion_order() {
    let g = group_with(vec![user(1, "Alice"), user(2, "Bob"), user(3, "Carol")]);
    assert_eq!(g.name(), "Alice, Bob, Carol");
}

#[test]
fn name_of_single_recipient_has_no_separator() {
    let g = group_with(vec![user(1, "Alice")]);
    assert_eq!(g.name(), "Alice");
}

#[test]
fn explicit_name_wins_over_recipients() {
    let mut g = group_with(vec![user(1, "Alice"), user(2, "Bob")]);
    g.set_name(Some("book club".to_string()));
    assert_eq!(g.name(), "book club");
    let mut empty = group_with(Vec::new());
    empty.set_name(Some("ghost town".to_string()));
    assert_eq!(empty.name(), "ghost town");
}

#[test]
fn add_recipient_already_present_issues_no_remote_call() {
    let g = group_with(vec![user(4, "Dan"), user(5, "Eve")]);
    let mut svc = CountingService::new();
    let action = g.add_recipient(UserId(5));
    assert_eq!(action, Action::Done);
    svc.run(action);
    assert_eq!(svc.calls, 0);
}

#[test]
fn add_recipient_absent_delegates_once() {
    let g = group_with(vec![user(4, "Dan")]);
    let mut svc = CountingService::new();
    svc.run(g.add_recipient(UserId(9)));
    assert_eq!(svc.calls, 1);
    assert_eq!(
        svc.last,
        Some(RemoteRequest::AddGroupRecipient { channel: ChannelId(555), user: UserId(9) })
    );
}

#[test]
fn remove_recipient_absent_issues_no_remote_call() {
    let g = group_with(vec![user(4, "Dan")]);
    let mut svc = CountingService::new();
    let action = g.remove_recipient(UserId(9));
    assert_eq!(action, Action::Done);
    svc.run(action);
    assert_eq!(svc.calls, 0);
}

#[test]
fn remove_recipient_present_delegates_once() {
    let g = group_with(vec![user(4, "Dan")]);
    let mut svc = CountingService::new();
    svc.run(g.remove_recipient(UserId(4)));
    assert_eq!(svc.calls, 1);
    assert_eq!(
        svc.last,
        Some(RemoteRequest::RemoveGroupRecipient { channel: ChannelId(555), user: UserId(4) })
    );
}

#[test]
fn icon_url_is_none_without_icon() {
    let g = group_with(Vec::new());
    assert_eq!(g.icon_url(), None);
}

#[test]
fn icon_url_formats_the_cdn_path() {
    let mut g = group_with(Vec::new());
    g.icon = Some("a1b2c3".to_string());
    assert_eq!(
        g.icon_url(),
        Some("https://cdn.discordapp.com/channel-icons/555/a1b2c3.webp".to_string())
    );
}

#[test]
fn ack_is_refused_for_a_known_bot_account() {
    let g = group_with(Vec::new());
    let ctx = IdentityContext::with_identity(true);
    assert_eq!(g.ack(&ctx, MessageId(10)), Err(Error::InvalidOperationAsBot));
}

#[test]
fn ack_goes_remote_for_a_user_account_or_without_a_cache() {
    let g = group_with(Vec::new());
    let expected = RemoteRequest::AckMessage { channel: ChannelId(555), message: MessageId(10) };
    let user_ctx = IdentityContext::with_identity(false);
    assert_eq!(g.ack(&user_ctx, MessageId(10)), Ok(expected.clone()));
    let detached = IdentityContext::detached();
    assert_eq!(g.ack(&detached, MessageId(10)), Ok(expected));
}

#[test]
fn search_is_refused_for_a_known_bot_account() {
    let g = group_with(Vec::new());
    let ctx = IdentityContext::with_identity(true);
    let filter = channel_model::request::SearchFilter { content: None, limit: None };
    assert_eq!(g.search(&ctx, filter), Err(Error::InvalidOperationAsBot));
}

#[test]
fn search_goes_remote_for_a_user_account() {
    let g = group_with(Vec::new());
    let ctx = IdentityContext::with_identity(false);
    let filter = channel_model::request::SearchFilter {
        content: Some("agenda".to_string()),
        limit: Some(25),
    };
    assert_eq!(
        g.search(&ctx, filter.clone()),
        Ok(RemoteRequest::SearchMessages { channel: ChannelId(555), query: filter })
    );
}

#[test]
fn get_messages_carries_the_filter_through() {
    let g = group_with(Vec::new());
    let filter = channel_model::request::MessageFilter {
        after: Some(MessageId(81)),
        before: None,
        limit: Some(100),
    };
    assert_eq!(
        g.get_messages(filter.clone()),
        RemoteRequest::GetMessages { channel: ChannelId(555), filter }
    );
}

#[test]
fn leave_asks_the_remote_side_to_leave_this_group() {
    let g = group_with(Vec::new());
    assert_eq!(g.leave(), RemoteRequest::LeaveGroup { channel: ChannelId(555) });
}

#[test]
fn group_forwards_are_scoped_to_its_identifier() {
    let g = group_with(Vec::new());
    assert_eq!(
        g.unpin(MessageId(3)),
        RemoteRequest::Unpin { channel: ChannelId(555), message: MessageId(3) }
    );
    assert_eq!(
        g.pins(),
        RemoteRequest::GetPins { channel: ChannelId(555) }
    );
    assert_eq!(
        g.broadcast_typing(),
        RemoteRequest::BroadcastTyping { channel: ChannelId(555) }
    );
    match g.say("hello there") {
        RemoteRequest::SendMessage { channel, message_data } => {
            assert_eq!(channel, ChannelId(555));
            assert_eq!(message_data.content, "hello there");
            assert!(!message_data.tts);
        },
        other => panic!("unexpected request: {:?}", other),
    }
}

#[test]
fn applied_recipient_events_update_membership() {
    let mut g = group_with(vec![user(1, "Alice")]);
    g.apply_recipient_add(user(2, "Bob"));
    assert!(g.contains_recipient(UserId(2)));
    assert_eq!(g.name(), "Alice, Bob");
    g.apply_recipient_add(user(1, "Alicia"));
    assert_eq!(g.name(), "Alicia, Bob");
    g.apply_recipient_remove(UserId(1));
    assert!(!g.contains_recipient(UserId(1)));
    assert_eq!(g.name(), "Bob");
    g.apply_recipient_remove(UserId(42));
    assert_eq!(g.name(), "Bob");
}
