use pong::game::arena::ArenaDirection;
use pong::game::event::{GameDataUpdated, PointMarked};
use pong::game::player::{Player, PlayerAI, PlayerSide, PlayerType, SecondPlayerType};
use pong::game::resource::{GameActiveData, GameScore, SecondPlayer};
use pong::game::system::{register_score_point, reset_game_data};
use pong::settings::input::{GamepadButton, GamepadInputSettings, KeyCode, KeyboardInputSettings};

#[test]
fn players_defend_their_halves() {
    assert_eq!(PlayerType::Main.arena_direction(), ArenaDirection::Left);
    assert_eq!(PlayerType::Second.arena_direction(), ArenaDirection::Right);
    assert_eq!(PlayerType::AI.arena_direction(), ArenaDirection::Right);
    assert_eq!(PlayerSide::Main.arena_direction(), ArenaDirection::Left);
    assert_eq!(PlayerSide::Other.arena_direction(), ArenaDirection::Right);
}

#[test]
fn player_names() {
    assert_eq!(PlayerType::Main.as_str(), "main");
    assert_eq!(PlayerType::Second.as_str(), "second");
    assert_eq!(PlayerType::AI.as_str(), "AI");
}

#[test]
fn defaults_of_the_player_types() {
    assert_eq!(PlayerType::default(), PlayerType::Main);
    assert_eq!(PlayerSide::default(), PlayerSide::Main);
    assert_eq!(SecondPlayerType::default(), SecondPlayerType::Player);
    assert_eq!(SecondPlayer::default().opponent, SecondPlayerType::Player);
    assert_eq!(Player::default().get_side(), PlayerSide::Main);
    assert_eq!(PlayerAI, PlayerAI);
}

#[test]
fn the_seat_and_the_opponent_give_the_player() {
    assert_eq!(PlayerSide::Main.to_player_type(SecondPlayerType::Player), PlayerType::Main);
    assert_eq!(PlayerSide::Main.to_player_type(SecondPlayerType::AI), PlayerType::Main);
    assert_eq!(PlayerSide::Other.to_player_type(SecondPlayerType::Player), PlayerType::Second);
    assert_eq!(PlayerSide::Other.to_player_type(SecondPlayerType::AI), PlayerType::AI);
}

#[test]
fn opponent_changes_back_and_forth() {
    assert_eq!(SecondPlayerType::Player.change_opponent(), SecondPlayerType::AI);
    assert_eq!(SecondPlayerType::AI.change_opponent(), SecondPlayerType::Player);
    assert!(SecondPlayerType::Player.is_player());
    assert!(!SecondPlayerType::Player.is_ai());
    assert!(SecondPlayerType::AI.is_ai());
    assert!(!SecondPlayerType::AI.is_player());
}

#[test]
fn players_and_their_bindings() {
    let main = Player::new_main();
    let second = Player::new_second();
    assert_eq!(main.get_side(), PlayerSide::Main);
    assert_eq!(second.get_side(), PlayerSide::Other);
    assert_eq!(main.keyboard_input(), KeyboardInputSettings::new_main_settings());
    assert_eq!(second.keyboard_input(), KeyboardInputSettings::new_second_settings());
    assert_eq!(main.keyboard_input().paddle_up, KeyCode::KeyW);
    assert_eq!(main.keyboard_input().paddle_down, KeyCode::KeyS);
    assert_eq!(second.keyboard_input().paddle_up, KeyCode::ArrowUp);
    assert_eq!(second.keyboard_input().paddle_down, KeyCode::ArrowDown);
    assert_eq!(main.gamepad_input(), GamepadInputSettings::default());
    assert_eq!(second.gamepad_input().paddle_up, GamepadButton::DPadUp);
    assert_eq!(second.gamepad_input().paddle_down, GamepadButton::DPadDown);
    assert_eq!(GamepadInputSettings::default_settings(), GamepadInputSettings::default());
}

#[test]
fn a_match_begins_without_points() {
    let data = GameActiveData::default();
    assert_eq!(data.last_winner(), None);
    assert_eq!(data.score().player1(), 0);
    assert_eq!(data.score().player2(), 0);
    assert_eq!(data.score().winning_player(), None);
    assert_eq!(GameScore::default().player1(), 0);
    assert_eq!(GameScore::default().player2(), 0);
}

#[test]
fn a_point_is_counted_for_the_seat_of_the_player() {
    let mut data = GameActiveData::default();
    data.register_point(PlayerType::Main);
    assert_eq!(data.last_winner(), Some(PlayerType::Main));
    assert_eq!((data.score().player1(), data.score().player2()), (1, 0));
    assert_eq!(data.score().winning_player(), Some(PlayerSide::Main));
    data.register_point(PlayerType::Second);
    assert_eq!(data.last_winner(), Some(PlayerType::Second));
    assert_eq!((data.score().player1(), data.score().player2()), (1, 1));
    assert_eq!(data.score().winning_player(), None);
    data.register_point(PlayerType::AI);
    assert_eq!(data.last_winner(), Some(PlayerType::AI));
    assert_eq!((data.score().player1(), data.score().player2()), (1, 2));
    assert_eq!(data.score().winning_player(), Some(PlayerSide::Other));
}

#[test]
fn the_counter_reaches_its_last_number() {
    let mut data = GameActiveData::default();
    for _ in 0..255 {
        data.register_point(PlayerType::AI);
    }
    assert_eq!(data.score().player2(), 255);
    assert_eq!(data.score().player1(), 0);
}

#[test]
fn point_events_are_counted_in_their_order() {
    let mut data = GameActiveData::default();
    let second_player = SecondPlayer { opponent: SecondPlayerType::AI };
    let events = vec![
        PointMarked::new(PlayerSide::Main),
        PointMarked::new(PlayerSide::Other),
        PointMarked::new(PlayerSide::Other),
    ];
    let updates = register_score_point(&second_player, &mut data, &events);
    assert_eq!(updates, vec![GameDataUpdated, GameDataUpdated, GameDataUpdated]);
    assert_eq!((data.score().player1(), data.score().player2()), (1, 2));
    assert_eq!(data.last_winner(), Some(PlayerType::AI));

    let second_player = SecondPlayer { opponent: SecondPlayerType::Player };
    let updates = register_score_point(&second_player, &mut data, &vec![PointMarked::new(PlayerSide::Other)]);
    assert_eq!(updates.len(), 1);
    assert_eq!((data.score().player1(), data.score().player2()), (1, 3));
    assert_eq!(data.last_winner(), Some(PlayerType::Second));

    let updates = register_score_point(&second_player, &mut data, &Vec::new());
    assert!(updates.is_empty());
    assert_eq!((data.score().player1(), data.score().player2()), (1, 3));
    assert_eq!(data.last_winner(), Some(PlayerType::Second));
}

#[test]
fn reset_forgets_score_and_winner() {
    let mut data = GameActiveData::default();
    data.register_point(PlayerType::Main);
    data.register_point(PlayerType::AI);
    reset_game_data(&mut data);
    assert_eq!(data, GameActiveData::default());
    assert_eq!(data.last_winner(), None);
    assert_eq!((data.score().player1(), data.score().player2()), (0, 0));
}
