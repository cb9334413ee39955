use doodle_game::{Action, Context, CrossChainMessage, DoodleGameContract, Invitation, Operation, Rejection};

fn chain(n: u8) -> String {
    format!("{:064x}", n)
}

fn ctx(n: u8, now: u64) -> Context {
    Context { chain_id: chain(n), now_micros: now }
}

fn invited(created: &str) -> DoodleGameContract {
    let mut replica = DoodleGameContract::new();
    replica
        .execute_message(
            &ctx(2, 0),
            CrossChainMessage::RoomInvitation { host_chain_id: chain(1), timestamp: created.to_string() },
        )
        .unwrap();
    replica
}

fn accept(host: u8) -> Operation {
    Operation::AcceptInvite { host_chain_id: chain(host), player_name: "B".to_string(), avatar_json: "av".to_string() }
}

fn join_request() -> Vec<Action> {
    vec![Action::SendMessage {
        target: chain(1),
        message: CrossChainMessage::JoinRequest {
            player_chain_id: chain(2),
            player_name: "B".to_string(),
            avatar_json: "av".to_string(),
        },
    }]
}

#[test]
fn friend_request_is_sent_once() {
    let mut replica = DoodleGameContract::new();
    let first = replica.execute_operation(&ctx(1, 5), Operation::RequestFriend { target_chain_id: chain(2) }).unwrap();
    assert_eq!(
        first,
        vec![Action::SendMessage {
            target: chain(2),
            message: CrossChainMessage::FriendRequest { requester_chain_id: chain(1) },
        }]
    );
    assert_eq!(replica.state.friend_requests_sent, vec![chain(2)]);
    let second =
        replica.execute_operation(&ctx(1, 6), Operation::RequestFriend { target_chain_id: chain(2) }).unwrap();
    assert_eq!(second, vec![]);
    assert_eq!(replica.state.friend_requests_sent.len(), 1);
    assert_eq!(
        replica.execute_operation(&ctx(1, 7), Operation::RequestFriend { target_chain_id: "bob".to_string() }),
        Err(Rejection::InvalidChainId)
    );
}

#[test]
fn friend_request_is_received_once() {
    let mut replica = DoodleGameContract::new();
    let request = CrossChainMessage::FriendRequest { requester_chain_id: chain(1) };
    replica.execute_message(&ctx(2, 5), request.clone()).unwrap();
    replica.execute_message(&ctx(2, 6), request).unwrap();
    assert_eq!(replica.state.friend_requests_received, vec![chain(1)]);
}

#[test]
fn accepting_a_request_makes_a_friend_and_says_so() {
    let mut replica = DoodleGameContract::new();
    replica.state.friend_requests_received = vec![chain(3), chain(1)];
    let actions =
        replica.execute_operation(&ctx(2, 5), Operation::AcceptFriend { requester_chain_id: chain(1) }).unwrap();
    assert_eq!(
        actions,
        vec![Action::SendMessage {
            target: chain(1),
            message: CrossChainMessage::FriendAccepted { target_chain_id: chain(2) },
        }]
    );
    assert_eq!(replica.state.friends, vec![chain(1)]);
    assert_eq!(replica.state.friend_requests_received, vec![chain(3)]);
    let again =
        replica.execute_operation(&ctx(2, 6), Operation::AcceptFriend { requester_chain_id: chain(1) }).unwrap();
    assert_eq!(again, vec![]);
    assert_eq!(replica.state.friends.len(), 1);
}

#[test]
fn accepting_a_request_of_a_friend_only_removes_it() {
    let mut replica = DoodleGameContract::new();
    replica.state.friend_requests_received = vec![chain(1)];
    replica.state.friends = vec![chain(1)];
    let actions =
        replica.execute_operation(&ctx(2, 5), Operation::AcceptFriend { requester_chain_id: chain(1) }).unwrap();
    assert_eq!(actions, vec![]);
    assert!(replica.state.friend_requests_received.is_empty());
    assert_eq!(replica.state.friends, vec![chain(1)]);
}

#[test]
fn accepting_an_unreadable_requester_changes_nothing() {
    let mut replica = DoodleGameContract::new();
    replica.state.friend_requests_received = vec!["bob".to_string()];
    let before = replica.state.clone();
    assert_eq!(
        replica.execute_operation(&ctx(2, 5), Operation::AcceptFriend { requester_chain_id: "bob".to_string() }),
        Err(Rejection::InvalidChainId)
    );
    assert_eq!(replica.state, before);
}

#[test]
fn declining_a_request_removes_it() {
    let mut replica = DoodleGameContract::new();
    replica.state.friend_requests_received = vec![chain(1), chain(3), chain(1)];
    replica.execute_operation(&ctx(2, 5), Operation::DeclineFriend { requester_chain_id: chain(1) }).unwrap();
    assert_eq!(replica.state.friend_requests_received, vec![chain(3), chain(1)]);
    replica.execute_operation(&ctx(2, 5), Operation::DeclineFriend { requester_chain_id: chain(9) }).unwrap();
    assert_eq!(replica.state.friend_requests_received.len(), 2);
}

#[test]
fn friend_accepted_adds_the_friend_and_clears_the_request() {
    let mut replica = DoodleGameContract::new();
    replica.state.friend_requests_sent = vec![chain(2), chain(3)];
    let accepted = CrossChainMessage::FriendAccepted { target_chain_id: chain(2) };
    replica.execute_message(&ctx(1, 5), accepted.clone()).unwrap();
    replica.execute_message(&ctx(1, 6), accepted).unwrap();
    assert_eq!(replica.state.friends, vec![chain(2)]);
    assert_eq!(replica.state.friend_requests_sent, vec![chain(3)]);
}

#[test]
fn only_friends_are_invited_and_only_once() {
    let mut replica = DoodleGameContract::new();
    let invite = |n: u8| Operation::InviteFriend { friend_chain_id: chain(n) };
    assert_eq!(replica.execute_operation(&ctx(1, 5), invite(2)), Ok(vec![]));
    assert!(replica.state.sent_invitations.is_empty());
    replica.state.friends = vec![chain(2)];
    let actions = replica.execute_operation(&ctx(1, 123456), invite(2)).unwrap();
    assert_eq!(
        actions,
        vec![Action::SendMessage {
            target: chain(2),
            message: CrossChainMessage::RoomInvitation { host_chain_id: chain(1), timestamp: "123456".to_string() },
        }]
    );
    assert_eq!(replica.state.sent_invitations, vec![chain(2)]);
    assert_eq!(replica.execute_operation(&ctx(1, 123457), invite(2)), Ok(vec![]));
    assert_eq!(replica.state.sent_invitations.len(), 1);
}

#[test]
fn invitation_is_kept_once_per_host() {
    let mut replica = invited("100");
    replica
        .execute_message(
            &ctx(2, 0),
            CrossChainMessage::RoomInvitation { host_chain_id: chain(1), timestamp: "200".to_string() },
        )
        .unwrap();
    assert_eq!(
        replica.state.room_invitations,
        vec![Invitation { host_chain_id: chain(1), timestamp: "100".to_string() }]
    );
}

#[test]
fn invitation_accepted_in_time_asks_to_join() {
    let mut replica = invited("1000000");
    assert_eq!(replica.execute_operation(&ctx(2, 1000000 + 300_000_000), accept(1)), Ok(join_request()));
    assert!(replica.state.room_invitations.is_empty());
}

#[test]
fn invitation_accepted_a_microsecond_late_is_dropped() {
    let mut replica = invited("1000000");
    assert_eq!(replica.execute_operation(&ctx(2, 1000000 + 300_000_001), accept(1)), Ok(vec![]));
    assert!(replica.state.room_invitations.is_empty());
    assert_eq!(replica.state.room, None);
}

#[test]
fn invitation_accepted_at_once_is_valid() {
    let mut replica = invited("1000000");
    assert_eq!(replica.execute_operation(&ctx(2, 1000000), accept(1)), Ok(join_request()));
    let mut early = invited("+1000000");
    assert_eq!(early.execute_operation(&ctx(2, 999_999), accept(1)), Ok(join_request()));
}

#[test]
fn invitation_with_an_unreadable_time_counts_from_zero() {
    for stamp in ["", "soon", "12a", "-5", " 7", "18446744073709551616"] {
        let mut replica = invited(stamp);
        assert_eq!(replica.execute_operation(&ctx(2, 300_000_001), accept(1)), Ok(vec![]));
        assert!(replica.state.room_invitations.is_empty());
        let mut fresh = invited(stamp);
        assert_eq!(fresh.execute_operation(&ctx(2, 300_000_000), accept(1)), Ok(join_request()));
    }
    let mut largest = invited("18446744073709551615");
    assert_eq!(largest.execute_operation(&ctx(2, u64::MAX), accept(1)), Ok(join_request()));
}

#[test]
fn accepting_without_an_invitation_does_nothing() {
    let mut replica = invited("1000000");
    let before = replica.state.clone();
    assert_eq!(replica.execute_operation(&ctx(2, 1000001), accept(7)), Ok(vec![]));
    assert_eq!(replica.state, before);
}

#[test]
fn declined_and_cancelled_invitations_are_removed() {
    let mut replica = invited("1000000");
    replica.execute_operation(&ctx(2, 5), Operation::DeclineInvite { host_chain_id: chain(1) }).unwrap();
    assert!(replica.state.room_invitations.is_empty());
    let mut other = invited("1000000");
    other
        .execute_message(&ctx(2, 5), CrossChainMessage::RoomInvitationCancelled { host_chain_id: chain(3) })
        .unwrap();
    assert_eq!(other.state.room_invitations.len(), 1);
    other
        .execute_message(&ctx(2, 6), CrossChainMessage::RoomInvitationCancelled { host_chain_id: chain(1) })
        .unwrap();
    assert!(other.state.room_invitations.is_empty());
}
