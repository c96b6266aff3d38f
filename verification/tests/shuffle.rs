use discord_announcer::commands::options::{CommandOption, Interaction, OptionValue};
use discord_announcer::commands::shuffle::{
    deal, partition, plan_moves, run, team_size, AfterCreate, ChannelInfo, Move, Step,
};
use discord_announcer::Handler;

const CATEGORY: u64 = 88;
const LOBBY: u64 = 99;

fn handler() -> Handler {
    Handler::new(1, 42, 77, CATEGORY, LOBBY).unwrap()
}

fn shuffle(n_teams: i64) -> Interaction {
    Interaction {
        name: "shuffle".to_string(),
        user_id: 7,
        options: vec![CommandOption {
            name: "n_teams".to_string(),
            value: OptionValue::Integer(n_teams),
        }],
    }
}

fn channel(id: u64, parent_id: Option<u64>) -> ChannelInfo {
    ChannelInfo { id, parent_id }
}

fn reply(step: Step) -> String {
    match step {
        Step::Reply { message } => message,
        other => panic!("expected a reply, got {:?}", other),
    }
}

fn sizes(groups: &Vec<Vec<u64>>) -> Vec<usize> {
    groups.iter().map(|group| group.len()).collect()
}

/// Runs the interaction to the point where the first team channel is asked for.
fn to_first_creation(n_teams: i64, roster: Vec<u64>) -> AfterCreate {
    let handler = handler();
    let then = match run(&shuffle(n_teams), &handler) {
        Step::ListChannels { then } => then,
        other => panic!("expected the listing, got {:?}", other),
    };
    let then = match then.resume(&handler, vec![channel(LOBBY, Some(CATEGORY))]) {
        Step::ReadLobby { channel, then } => {
            assert_eq!(channel, LOBBY);
            then
        }
        other => panic!("expected the lobby to be read, got {:?}", other),
    };
    match then.resume(&handler, Ok(roster)) {
        Step::CreateChannel { name, category, then } => {
            assert_eq!(name, "team 1");
            assert_eq!(category, CATEGORY);
            then
        }
        other => panic!("expected the first team channel, got {:?}", other),
    }
}

#[test]
fn ten_members_in_three_teams() {
    let roster: Vec<u64> = (1..=10).collect();
    let groups = partition(&roster, 3);
    assert_eq!(sizes(&groups), vec![4, 4, 2]);
    assert_eq!(groups, vec![vec![1, 2, 3, 4], vec![5, 6, 7, 8], vec![9, 10]]);
}

#[test]
fn teams_are_the_roster_in_order() {
    for members in 0..25u64 {
        for teams in 1..12usize {
            let roster: Vec<u64> = (0..members).map(|i| 1000 + i).collect();
            let groups = partition(&roster, teams);
            assert_eq!(groups.len(), teams);
            assert_eq!(groups.concat(), roster);
            let size = team_size(roster.len(), teams);
            let mut left = roster.len();
            for group in &groups {
                assert_eq!(group.len(), left.min(size));
                left -= group.len();
            }
            assert_eq!(left, 0);
        }
    }
}

#[test]
fn teams_after_the_roster_ends_are_empty() {
    let groups = partition(&vec![1, 2, 3, 4], 3);
    assert_eq!(groups, vec![vec![1, 2], vec![3, 4], vec![]]);
    let groups = partition(&vec![1, 2], 10);
    assert_eq!(sizes(&groups), vec![1, 1, 0, 0, 0, 0, 0, 0, 0, 0]);
}

#[test]
fn empty_roster_gives_empty_teams() {
    assert_eq!(partition(&vec![], 2), vec![Vec::<u64>::new(), vec![]]);
    assert_eq!(partition(&vec![1, 2, 3], 0), Vec::<Vec<u64>>::new());
}

#[test]
fn team_size_is_the_quotient_rounded_up() {
    assert_eq!(team_size(10, 3), 4);
    assert_eq!(team_size(9, 3), 3);
    assert_eq!(team_size(1, 10), 1);
    assert_eq!(team_size(0, 2), 0);
    assert_eq!(team_size(7, 2), 4);
    assert_eq!(team_size(5, 0), 0);
    assert_eq!(team_size(usize::MAX, 1), usize::MAX);
    assert_eq!(team_size(usize::MAX, 2), usize::MAX / 2 + 1);
}

#[test]
fn moves_follow_the_teams() {
    let roster: Vec<u64> = (1..=10).collect();
    let teams = vec![100, 200, 300];
    let moves = plan_moves(&roster, &teams);
    let groups = partition(&roster, teams.len());
    let mut expected = Vec::new();
    for (team, group) in groups.iter().enumerate() {
        for member in group {
            expected.push(Move { member: *member, channel: teams[team] });
        }
    }
    assert_eq!(moves, expected);
    assert_eq!(moves[3], Move { member: 4, channel: 100 });
    assert_eq!(moves[4], Move { member: 5, channel: 200 });
    assert_eq!(moves[9], Move { member: 10, channel: 300 });
    assert_eq!(plan_moves(&roster, &vec![]), vec![]);
    assert_eq!(plan_moves(&vec![], &teams), vec![]);
}

#[test]
fn empty_lobby_makes_no_channel() {
    let handler = handler();
    let then = match run(&shuffle(3), &handler) {
        Step::ListChannels { then } => then,
        other => panic!("expected the listing, got {:?}", other),
    };
    let then = match then.resume(&handler, vec![channel(LOBBY, Some(CATEGORY))]) {
        Step::ReadLobby { then, .. } => then,
        other => panic!("expected the lobby to be read, got {:?}", other),
    };
    assert_eq!(reply(then.resume(&handler, Ok(vec![]))), "There is nobody in the lobby");
}

#[test]
fn lobby_outside_the_category_counts_as_empty() {
    let handler = handler();
    for channels in [vec![], vec![channel(LOBBY, None)], vec![channel(LOBBY, Some(5))]] {
        let then = match run(&shuffle(3), &handler) {
            Step::ListChannels { then } => then,
            other => panic!("expected the listing, got {:?}", other),
        };
        assert_eq!(reply(then.resume(&handler, channels)), "There is nobody in the lobby");
    }
}

#[test]
fn failed_lobby_read_is_replied() {
    let handler = handler();
    let then = match run(&shuffle(3), &handler) {
        Step::ListChannels { then } => then,
        other => panic!("expected the listing, got {:?}", other),
    };
    match then.resume(&handler, vec![channel(LOBBY, Some(CATEGORY))]) {
        Step::ReadLobby { then, .. } => {
            assert_eq!(reply(then.resume(&handler, Err("no cache".to_string()))), "no cache");
        }
        other => panic!("expected the lobby to be read, got {:?}", other),
    }
}

#[test]
fn missing_or_unusable_team_count_is_rejected() {
    let handler = handler();
    let none = Interaction { name: "shuffle".to_string(), user_id: 7, options: vec![] };
    assert_eq!(reply(run(&none, &handler)), "Please provide a valid ID");
    let text = Interaction {
        name: "shuffle".to_string(),
        user_id: 7,
        options: vec![CommandOption {
            name: "n_teams".to_string(),
            value: OptionValue::Text("3".to_string()),
        }],
    };
    assert_eq!(reply(run(&text, &handler)), "Please provide a valid ID");
    assert_eq!(reply(run(&shuffle(0), &handler)), "Please provide a valid ID");
    assert_eq!(reply(run(&shuffle(-2), &handler)), "Please provide a valid ID");
}

#[test]
fn stale_team_channels_are_deleted_in_order() {
    let handler = handler();
    let then = match run(&shuffle(2), &handler) {
        Step::ListChannels { then } => {
            assert_eq!(then.n_teams, 2);
            then
        }
        other => panic!("expected the listing, got {:?}", other),
    };
    let channels = vec![
        channel(10, None),
        channel(11, Some(CATEGORY)),
        channel(12, Some(5)),
        channel(LOBBY, Some(CATEGORY)),
        channel(13, Some(CATEGORY)),
        channel(CATEGORY, None),
    ];
    let then = match then.resume(&handler, channels) {
        Step::DeleteChannel { channel, then } => {
            assert_eq!(channel, 11);
            then
        }
        other => panic!("expected a deletion, got {:?}", other),
    };
    let then = match then.resume(&handler, Ok(())) {
        Step::DeleteChannel { channel, then } => {
            assert_eq!(channel, 13);
            then
        }
        other => panic!("expected a deletion, got {:?}", other),
    };
    match then.resume(&handler, Ok(())) {
        Step::ReadLobby { channel, .. } => assert_eq!(channel, LOBBY),
        other => panic!("expected the lobby to be read, got {:?}", other),
    }
}

#[test]
fn failed_deletion_ends_the_interaction() {
    let handler = handler();
    let then = match run(&shuffle(2), &handler) {
        Step::ListChannels { then } => then,
        other => panic!("expected the listing, got {:?}", other),
    };
    let channels =
        vec![channel(11, Some(CATEGORY)), channel(LOBBY, Some(CATEGORY)), channel(13, Some(CATEGORY))];
    match then.resume(&handler, channels) {
        Step::DeleteChannel { then, .. } => {
            assert_eq!(
                reply(then.resume(&handler, Err("Missing Access".to_string()))),
                "Missing Access"
            );
        }
        other => panic!("expected a deletion, got {:?}", other),
    }
}

#[test]
fn team_channels_are_made_in_order() {
    let handler = handler();
    let then = to_first_creation(3, vec![1, 2, 3, 4, 5]);
    let then = match then.resume(&handler, Ok(501)) {
        Step::CreateChannel { name, category, then } => {
            assert_eq!(name, "team 2");
            assert_eq!(category, CATEGORY);
            then
        }
        other => panic!("expected the second team channel, got {:?}", other),
    };
    let then = match then.resume(&handler, Ok(502)) {
        Step::CreateChannel { name, then, .. } => {
            assert_eq!(name, "team 3");
            assert_eq!(then.teams, vec![501, 502]);
            then
        }
        other => panic!("expected the third team channel, got {:?}", other),
    };
    match then.resume(&handler, Ok(503)) {
        Step::MoveMember { channel, .. } => assert_eq!(channel, 501),
        other => panic!("expected a move, got {:?}", other),
    }
}

#[test]
fn failed_creation_ends_the_interaction() {
    let handler = handler();
    let then = to_first_creation(3, vec![1, 2, 3, 4, 5]);
    let then = match then.resume(&handler, Ok(501)) {
        Step::CreateChannel { then, .. } => then,
        other => panic!("expected the second team channel, got {:?}", other),
    };
    assert_eq!(
        reply(then.resume(&handler, Err("Maximum number of channels".to_string()))),
        "Maximum number of channels"
    );
}

#[test]
fn everyone_is_moved_once_and_failures_are_passed_over() {
    let handler = handler();
    let roster: Vec<u64> = (1..=10).collect();
    let then = to_first_creation(3, roster.clone());
    let then = match then.resume(&handler, Ok(501)) {
        Step::CreateChannel { then, .. } => then,
        other => panic!("expected the second team channel, got {:?}", other),
    };
    let then = match then.resume(&handler, Ok(502)) {
        Step::CreateChannel { then, .. } => then,
        other => panic!("expected the third team channel, got {:?}", other),
    };
    let mut step = then.resume(&handler, Ok(503));
    let mut moved = Vec::new();
    let mut count = 0;
    let message = loop {
        match step {
            Step::MoveMember { member, channel, then } => {
                moved.push((member, channel));
                count += 1;
                step = if count % 2 == 0 {
                    then.resume(Err("Target user is not connected to voice.".to_string()))
                } else {
                    then.resume(Ok(()))
                };
            }
            Step::Reply { message } => break message,
            other => panic!("expected a move or the reply, got {:?}", other),
        }
    };
    assert_eq!(message, "Shuffling into 3 teams");
    assert_eq!(moved.len(), 10);
    let mut members: Vec<u64> = moved.iter().map(|(member, _)| *member).collect();
    members.sort();
    assert_eq!(members, roster);
    let channels: Vec<u64> = moved.iter().map(|(_, channel)| *channel).collect();
    assert_eq!(channels, vec![501, 501, 501, 501, 502, 502, 502, 502, 503, 503]);
}

#[test]
fn roster_is_shuffled_before_it_is_dealt() {
    let handler = handler();
    let roster: Vec<u64> = (1..=40).collect();
    let then = to_first_creation(1, roster.clone());
    let mut step = then.resume(&handler, Ok(501));
    let mut order = Vec::new();
    loop {
        match step {
            Step::MoveMember { member, channel, then } => {
                assert_eq!(channel, 501);
                order.push(member);
                step = then.resume(Ok(()));
            }
            Step::Reply { message } => {
                assert_eq!(message, "Shuffling into 1 teams");
                break;
            }
            other => panic!("expected a move or the reply, got {:?}", other),
        }
    }
    assert_ne!(order, roster);
    order.sort();
    assert_eq!(order, roster);
}

#[test]
fn dealing_a_given_order() {
    let roster = vec![5, 3, 9, 1];
    let teams = vec![70, 80];
    let mut step = deal(&roster, &teams, 2);
    let mut moved = Vec::new();
    loop {
        match step {
            Step::MoveMember { member, channel, then } => {
                moved.push((member, channel));
                step = then.resume(Ok(()));
            }
            Step::Reply { message } => {
                assert_eq!(message, "Shuffling into 2 teams");
                break;
            }
            other => panic!("expected a move or the reply, got {:?}", other),
        }
    }
    assert_eq!(moved, vec![(5, 70), (3, 70), (9, 80), (1, 80)]);
}
