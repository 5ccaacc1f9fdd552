use tictactoe::board::{check_winner, Mark};
use tictactoe::contract::{
    allocate_id, check_wf, create_game, execute, instantiate, join_game, new_open_game, resign,
    submit_move,
};
use tictactoe::fairness::assign_first_mover;
use tictactoe::msg::{
    CreateGameMsg, ExecuteMsg, Game, GameStatus, InstantiateMsg, JoinGameMsg, Reply, ResignMsg,
    State, SubmitMoveMsg,
};
use tictactoe::ContractError;

fn fresh_pair(creator: &str, joiner: &str) -> (Vec<Game>, State) {
    let mut games: Vec<Game> = Vec::new();
    let mut state = State { latest_game_id: 0 };
    create_game(&mut games, &mut state, String::from(creator), CreateGameMsg {}).unwrap();
    join_game(&mut games, String::from(joiner), JoinGameMsg { game_id: 0 }).unwrap();
    (games, state)
}

#[test]
fn instantiation_with_explicit_owner() {
    let (config, state) = instantiate(
        String::from("someone"),
        InstantiateMsg {
            owner: Some(String::from("the_owner")),
        },
    );
    assert_eq!(config.owner, "the_owner");
    assert_eq!(state.latest_game_id, 0);
}

#[test]
fn allocator_hands_out_consecutive_ids() {
    let mut state = State { latest_game_id: 0 };
    assert_eq!(allocate_id(&mut state), 0);
    assert_eq!(allocate_id(&mut state), 1);
    assert_eq!(state.latest_game_id, 2);
}

#[test]
fn first_mover_assignment_is_deterministic() {
    let a = String::from("player_1");
    let b = String::from("player_2");
    let first = assign_first_mover(&a, &b);
    for _ in 0..5 {
        assert_eq!(assign_first_mover(&a, &b), first);
    }
    // the same pairing always fixes the same player order
    let (games1, _) = fresh_pair("player_1", "player_2");
    let (games2, _) = fresh_pair("player_1", "player_2");
    assert_eq!(games1[0].players, games2[0].players);
    assert_eq!(games1[0].next_turn, games2[0].next_turn);
}

#[test]
fn swapping_roles_changes_the_decision() {
    // For this unordered pair the digest of (alice, bob) assigns the
    // creator the first move, while the digest of (bob, alice) assigns
    // it to the joiner: the decision depends on the ordered pair, not on
    // the creator alone. Either way alice ends up holding "X".
    let (games_ab, _) = fresh_pair("alice", "bob");
    assert_eq!(games_ab[0].players[0], String::from("alice"));
    assert_eq!(games_ab[0].players[1], String::from("bob"));

    let (games_ba, _) = fresh_pair("bob", "alice");
    assert_eq!(games_ba[0].players[0], String::from("alice"));
    assert_eq!(games_ba[0].players[1], String::from("bob"));

    // and for this pair the joiner wins the toss instead
    let (games_p, _) = fresh_pair("player_1", "player_2");
    assert_eq!(games_p[0].players[0], String::from("player_2"));
}

#[test]
fn each_winning_line_is_detected() {
    let lines: [[usize; 3]; 8] = [
        [0, 1, 2],
        [3, 4, 5],
        [6, 7, 8],
        [0, 3, 6],
        [1, 4, 7],
        [2, 5, 8],
        [0, 4, 8],
        [2, 4, 6],
    ];
    for line in lines {
        for mk in [Mark::X, Mark::O] {
            let mut board = vec![Mark::Empty; 9];
            for i in line {
                board[i] = mk;
            }
            assert_eq!(check_winner(&board), Some(mk));
        }
    }
}

#[test]
fn full_board_without_a_line_is_a_draw() {
    // X X O / O O X / X X O : no line of three
    let board = vec![
        Mark::X,
        Mark::X,
        Mark::O,
        Mark::O,
        Mark::O,
        Mark::X,
        Mark::X,
        Mark::X,
        Mark::O,
    ];
    assert_eq!(check_winner(&board), None);
    let empty = vec![Mark::Empty; 9];
    assert_eq!(check_winner(&empty), None);
}

#[test]
fn move_rejections_leave_the_game_unchanged() {
    let (mut games, _state) = fresh_pair("alice", "bob");
    let snapshot = games[0].clone();
    // alice holds "X" and moves first for this pair
    let next = String::from("alice");
    assert_eq!(games[0].next_turn, Some(next));

    // out-of-range positions
    for position in [0u8, 10, 200] {
        let res = submit_move(
            &mut games,
            String::from("alice"),
            SubmitMoveMsg { game_id: 0, position },
        );
        assert_eq!(res.unwrap_err(), ContractError::InvalidPosition { position });
    }
    // not the caller's turn
    let res = submit_move(
        &mut games,
        String::from("bob"),
        SubmitMoveMsg { game_id: 0, position: 1 },
    );
    assert_eq!(res.unwrap_err(), ContractError::NotYourTurn {});
    // a stranger is never on turn
    let res = submit_move(
        &mut games,
        String::from("mallory"),
        SubmitMoveMsg { game_id: 0, position: 1 },
    );
    assert_eq!(res.unwrap_err(), ContractError::NotYourTurn {});
    // unknown game id
    let res = submit_move(
        &mut games,
        String::from("alice"),
        SubmitMoveMsg { game_id: 3, position: 1 },
    );
    assert_eq!(res.unwrap_err(), ContractError::NotFound {});
    assert_eq!(games[0], snapshot);

    // an occupied cell is rejected after an accepted move
    submit_move(
        &mut games,
        String::from("alice"),
        SubmitMoveMsg { game_id: 0, position: 5 },
    )
    .unwrap();
    let res = submit_move(
        &mut games,
        String::from("bob"),
        SubmitMoveMsg { game_id: 0, position: 5 },
    );
    assert_eq!(res.unwrap_err(), ContractError::PositionTaken {});
}

#[test]
fn moves_against_an_open_game_are_rejected() {
    let mut games: Vec<Game> = Vec::new();
    let mut state = State { latest_game_id: 0 };
    create_game(&mut games, &mut state, String::from("alice"), CreateGameMsg {}).unwrap();
    let res = submit_move(
        &mut games,
        String::from("alice"),
        SubmitMoveMsg { game_id: 0, position: 1 },
    );
    assert_eq!(res.unwrap_err(), ContractError::GameNotInProgress {});
    assert_eq!(games[0].status, GameStatus::Open);
}

#[test]
fn joining_twice_or_self_is_rejected() {
    let mut games: Vec<Game> = Vec::new();
    let mut state = State { latest_game_id: 0 };
    create_game(&mut games, &mut state, String::from("alice"), CreateGameMsg {}).unwrap();

    // the creator cannot take the second seat of their own game
    let res = join_game(&mut games, String::from("alice"), JoinGameMsg { game_id: 0 });
    assert_eq!(res.unwrap_err(), ContractError::Unauthorized {});
    assert_eq!(games[0].status, GameStatus::Open);

    join_game(&mut games, String::from("bob"), JoinGameMsg { game_id: 0 }).unwrap();
    // only the first committed join wins; later joins are rejected
    let res = join_game(&mut games, String::from("carol"), JoinGameMsg { game_id: 0 });
    assert_eq!(res.unwrap_err(), ContractError::CantJoinGame {});
    // unknown game id
    let res = join_game(&mut games, String::from("carol"), JoinGameMsg { game_id: 9 });
    assert_eq!(res.unwrap_err(), ContractError::NotFound {});
}

#[test]
fn resignation_completes_in_progress_games_only() {
    // resigning an open game is rejected
    let mut games: Vec<Game> = Vec::new();
    let mut state = State { latest_game_id: 0 };
    create_game(&mut games, &mut state, String::from("alice"), CreateGameMsg {}).unwrap();
    let res = resign(&mut games, String::from("alice"), ResignMsg { game_id: 0 });
    assert_eq!(res.unwrap_err(), ContractError::GameNotInProgress {});

    // resigning in progress completes the game for the opponent,
    // whichever participant resigns
    let (mut games, _) = fresh_pair("alice", "bob");
    let res = resign(&mut games, String::from("bob"), ResignMsg { game_id: 0 }).unwrap();
    assert_eq!(
        res,
        Reply::Resigned {
            game_id: 0,
            winner: String::from("alice"),
        }
    );
    assert_eq!(games[0].status, GameStatus::Completed);
    assert_eq!(games[0].winner, Some(String::from("alice")));

    // a second resignation is rejected
    let res = resign(&mut games, String::from("alice"), ResignMsg { game_id: 0 });
    assert_eq!(res.unwrap_err(), ContractError::GameNotInProgress {});
    // an unknown id is not found
    let res = resign(&mut games, String::from("alice"), ResignMsg { game_id: 5 });
    assert_eq!(res.unwrap_err(), ContractError::NotFound {});
}

#[test]
fn scenario_winning_row_through_execute() {
    // create game as alice; the game is Open with id 0
    let mut games: Vec<Game> = Vec::new();
    let (_config, mut state) = instantiate(String::from("alice"), InstantiateMsg { owner: None });
    let res = execute(
        &mut games,
        &mut state,
        String::from("alice"),
        ExecuteMsg::CreateGame(CreateGameMsg {}),
    )
    .unwrap();
    assert_eq!(
        res,
        Reply::Created {
            game_id: 0,
            player: String::from("alice"),
        }
    );
    assert_eq!(games[0].status, GameStatus::Open);
    assert_eq!(games[0].id, 0);

    // bob joins game 0: the game starts and the order is fixed; for this
    // pair the digest hands alice the first move
    execute(
        &mut games,
        &mut state,
        String::from("bob"),
        ExecuteMsg::JoinGame(JoinGameMsg { game_id: 0 }),
    )
    .unwrap();
    assert_eq!(games[0].status, GameStatus::InProgress);
    assert_eq!(games[0].next_turn, Some(String::from("alice")));

    // the first mover takes position 5; the cell records "X" and the
    // turn flips
    let res = execute(
        &mut games,
        &mut state,
        String::from("alice"),
        ExecuteMsg::SubmitMove(SubmitMoveMsg { game_id: 0, position: 5 }),
    )
    .unwrap();
    assert_eq!(
        res,
        Reply::Moved {
            game_id: 0,
            position: 5,
            role: Mark::X,
        }
    );
    assert_eq!(games[0].moves[4], Mark::X);
    assert_eq!(games[0].next_turn, Some(String::from("bob")));

    // the players complete the middle row for alice
    for (player, position) in [("bob", 1), ("alice", 4), ("bob", 2), ("alice", 6)] {
        execute(
            &mut games,
            &mut state,
            String::from(player),
            ExecuteMsg::SubmitMove(SubmitMoveMsg { game_id: 0, position }),
        )
        .unwrap();
    }
    assert_eq!(games[0].status, GameStatus::Completed);
    assert_eq!(games[0].winner, Some(String::from("alice")));

    // any further move is rejected for the wrong lifecycle state
    let res = execute(
        &mut games,
        &mut state,
        String::from("bob"),
        ExecuteMsg::SubmitMove(SubmitMoveMsg { game_id: 0, position: 9 }),
    );
    assert_eq!(res.unwrap_err(), ContractError::GameNotInProgress {});
}

#[test]
fn turn_alternates_after_every_accepted_move() {
    let (mut games, _) = fresh_pair("alice", "bob");
    let mut mover = String::from("alice");
    let mut other = String::from("bob");
    for position in [5u8, 1, 4, 2] {
        submit_move(
            &mut games,
            mover.clone(),
            SubmitMoveMsg { game_id: 0, position },
        )
        .unwrap();
        assert_eq!(games[0].next_turn, Some(other.clone()));
        std::mem::swap(&mut mover, &mut other);
    }
}

#[test]
fn a_win_can_arrive_before_the_board_is_full() {
    let (mut games, _) = fresh_pair("alice", "bob");
    // alice: 1, 2, 3 (top row); bob: 4, 5
    for (player, position) in [("alice", 1), ("bob", 4), ("alice", 2), ("bob", 5), ("alice", 3)] {
        submit_move(
            &mut games,
            String::from(player),
            SubmitMoveMsg { game_id: 0, position },
        )
        .unwrap();
    }
    assert_eq!(games[0].status, GameStatus::Completed);
    assert_eq!(games[0].winner, Some(String::from("alice")));
    assert_eq!(games[0].moves[8], Mark::Empty);
}

#[test]
fn new_games_are_well_formed_and_corrupt_records_are_not() {
    let game = new_open_game(3, String::from("alice"));
    assert!(check_wf(&game));
    assert_eq!(game.id, 3);
    assert_eq!(game.status, GameStatus::Open);
    assert_eq!(game.players, vec![String::from("alice")]);
    assert_eq!(game.moves, vec![Mark::Empty; 9]);

    // a record claiming progress with a single player is rejected
    let mut broken = new_open_game(0, String::from("alice"));
    broken.status = GameStatus::InProgress;
    assert!(!check_wf(&broken));

    // a record whose board is short is rejected
    let mut short = new_open_game(0, String::from("alice"));
    short.moves.pop();
    assert!(!check_wf(&short));
}
