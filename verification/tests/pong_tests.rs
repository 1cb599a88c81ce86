use pong_lib::codec::{decode, encode};
use pong_lib::engine::{GameState, InputSymbol, Side};
use pong_lib::entities::{PongBall, Player};
use pong_lib::geom::Rect;
use pong_lib::session::{
    decode_wire_byte, follower_apply_payload, follower_tick_byte, host_tick, local_tick,
    session_next, SessionState, TerminalOutput, WIRE_DOWN, WIRE_NOOP, WIRE_UP,
};
use pong_lib::snapshot::GameDataJSON;

fn arena_80x40() -> Rect {
    Rect { x: 0, y: 0, width: 80, height: 40 }
}

fn mid_state(ball_x: u16, ball_y: u16, vx: i16, vy: i16) -> GameState {
    GameState {
        player: Player { score: 0, x: 1, y: 18 },
        opponent: Player { score: 0, x: 77, y: 18 },
        pong_ball: PongBall { x: ball_x, y: ball_y, vx, vy },
        dimensions: arena_80x40(),
    }
}

#[test]
fn tick_center_moves_diagonally() {
    // Ball at the arena center moving (+1, +1): no wall, paddle or score
    // event, so it steps to center + (1, 1) with velocity unchanged.
    let mut term = TerminalOutput::new(80, 40);
    assert_eq!(term.game_state.pong_ball.x, 40);
    assert_eq!(term.game_state.pong_ball.y, 20);
    assert_eq!(term.game_state.pong_ball.vx, 1);
    assert_eq!(term.game_state.pong_ball.vy, 1);
    term.game_state.advance_tick();
    assert_eq!(term.game_state.pong_ball.x, 41);
    assert_eq!(term.game_state.pong_ball.y, 21);
    assert_eq!(term.game_state.pong_ball.vx, 1);
    assert_eq!(term.game_state.pong_ball.vy, 1);
    assert_eq!(term.game_state.player.score, 0);
    assert_eq!(term.game_state.opponent.score, 0);
}

#[test]
fn tick_keeps_unit_velocity_and_unit_steps() {
    // Across many ticks each velocity component stays in {-1, +1}, and on
    // every tick without a score event the position moves by exactly one
    // cell on each axis.
    let mut state = TerminalOutput::new(80, 40).game_state;
    for _ in 0..1000 {
        let before = state;
        state.advance_tick();
        assert!(state.pong_ball.vx == 1 || state.pong_ball.vx == -1);
        assert!(state.pong_ball.vy == 1 || state.pong_ball.vy == -1);
        let scored = state.player.score != before.player.score
            || state.opponent.score != before.opponent.score;
        if !scored {
            let dx = state.pong_ball.x as i32 - before.pong_ball.x as i32;
            let dy = state.pong_ball.y as i32 - before.pong_ball.y as i32;
            assert_eq!(dx.abs(), 1);
            assert_eq!(dy.abs(), 1);
        }
    }
}

#[test]
fn tick_top_border_bounces() {
    // Ball on the top border row moving (+1, -1): the vertical velocity
    // flips to +1 and the ball leaves the border downward.
    let mut state = mid_state(40, 0, 1, -1);
    state.advance_tick();
    assert_eq!(state.pong_ball.vy, 1);
    assert_eq!(state.pong_ball.y, 1);
    assert_eq!(state.pong_ball.x, 41);
    assert_eq!(state.pong_ball.vx, 1);
}

#[test]
fn tick_bottom_border_bounces() {
    let mut state = mid_state(40, 40, 1, 1);
    state.advance_tick();
    assert_eq!(state.pong_ball.vy, -1);
    assert_eq!(state.pong_ball.y, 39);
}

#[test]
fn tick_left_edge_scores_and_resets() {
    // Ball at the left edge: the away side scores exactly one point and the
    // ball returns to the arena center, stepping out with the flipped
    // horizontal velocity.
    let mut state = mid_state(0, 20, -1, 1);
    state.advance_tick();
    assert_eq!(state.opponent.score, 1);
    assert_eq!(state.player.score, 0);
    assert_eq!(state.pong_ball.x, 41);
    assert_eq!(state.pong_ball.y, 21);
    assert_eq!(state.pong_ball.vx, 1);
    assert_eq!(state.pong_ball.vy, 1);
}

#[test]
fn tick_right_edge_scores_for_home() {
    let mut state = mid_state(79, 20, 1, 1);
    state.advance_tick();
    assert_eq!(state.player.score, 1);
    assert_eq!(state.opponent.score, 0);
    assert_eq!(state.pong_ball.x, 39);
    assert_eq!(state.pong_ball.y, 21);
    assert_eq!(state.pong_ball.vx, -1);
}

#[test]
fn tick_home_paddle_reflects_ball() {
    // Ball touching the home paddle's right edge within its span: only the
    // horizontal velocity flips.
    let mut state = mid_state(3, 20, -1, 1);
    state.advance_tick();
    assert_eq!(state.pong_ball.vx, 1);
    assert_eq!(state.pong_ball.vy, 1);
    assert_eq!(state.pong_ball.x, 4);
    assert_eq!(state.pong_ball.y, 21);
}

#[test]
fn apply_input_clamps_at_top() {
    // However often move-up arrives, the paddle's top stays strictly below
    // the top border.
    let mut state = TerminalOutput::new(80, 40).game_state;
    for _ in 0..100 {
        state.apply_input(Side::Home, InputSymbol::MoveUp);
        assert!(state.player.y >= 1);
    }
    assert_eq!(state.player.y, 1);
}

#[test]
fn apply_input_clamps_at_bottom() {
    // However often move-down arrives, the paddle's bottom edge stays
    // strictly above the bottom border.
    let mut state = TerminalOutput::new(80, 40).game_state;
    for _ in 0..100 {
        state.apply_input(Side::Away, InputSymbol::MoveDown);
        assert!(state.opponent.y + 4 <= 39);
    }
    assert_eq!(state.opponent.y, 35);
}

#[test]
fn apply_input_noop_and_disconnect_move_nothing() {
    let mut state = TerminalOutput::new(80, 40).game_state;
    let before = state;
    state.apply_input(Side::Home, InputSymbol::Noop);
    state.apply_input(Side::Away, InputSymbol::Disconnect);
    assert_eq!(state, before);
}

#[test]
fn codec_round_trip() {
    // decode(encode(s)) == s, with ordinary and extreme field values.
    let snaps = [
        GameDataJSON {
            player_one_x: 1,
            player_one_y: 18,
            player_two_x: 77,
            player_two_y: 18,
            pong_x: 40,
            pong_y: 20,
            player_one_score: 0,
            player_two_score: 0,
        },
        GameDataJSON {
            player_one_x: 65535,
            player_one_y: 0,
            player_two_x: 9,
            player_two_y: 10000,
            pong_x: 123,
            pong_y: 4567,
            player_one_score: 65535,
            player_two_score: 1,
        },
    ];
    for s in snaps {
        let bytes = encode(&s);
        let back = decode(&bytes).expect("round trip must decode");
        assert_eq!(back, s);
    }
}

#[test]
fn encode_exact_text() {
    let term = TerminalOutput::new(80, 40);
    let bytes = encode(&term.get_game_data());
    let expected = "{\"player_one_pos\":[1,18],\"player_two_pos\":[77,18],\"pong_pos\":[40,20],\"player_one_score\":0,\"player_two_score\":0}";
    assert_eq!(bytes, expected.as_bytes().to_vec());
}

#[test]
fn decode_exact_text() {
    let text = "{\"player_one_pos\":[3,7],\"player_two_pos\":[70,21],\"pong_pos\":[12,34],\"player_one_score\":2,\"player_two_score\":5}";
    let d = decode(&text.as_bytes().to_vec()).expect("well-formed text must decode");
    assert_eq!(d.player_one_x, 3);
    assert_eq!(d.player_one_y, 7);
    assert_eq!(d.player_two_x, 70);
    assert_eq!(d.player_two_y, 21);
    assert_eq!(d.pong_x, 12);
    assert_eq!(d.pong_y, 34);
    assert_eq!(d.player_one_score, 2);
    assert_eq!(d.player_two_score, 5);
}

#[test]
fn decode_tolerates_null_padding() {
    // Valid text followed by NUL fill decodes, and to the same snapshot as
    // the text alone.
    let term = TerminalOutput::new(80, 40);
    let snap = term.get_game_data();
    let mut padded = encode(&snap);
    let plain = padded.clone();
    for _ in 0..900 {
        padded.push(0);
    }
    let from_padded = decode(&padded).expect("padded payload must decode");
    let from_plain = decode(&plain).expect("plain payload must decode");
    assert_eq!(from_padded, from_plain);
    assert_eq!(from_padded, snap);
}

#[test]
fn decode_tolerates_trailing_whitespace() {
    let snap = TerminalOutput::new(160, 40).get_game_data();
    let mut padded = encode(&snap);
    for b in [32u8, 9, 13, 10, 0, 32] {
        padded.push(b);
    }
    assert_eq!(decode(&padded).expect("padded payload must decode"), snap);
}

#[test]
fn decode_rejects_malformed_payloads() {
    let cases = [
        "",
        "{",
        "garbage",
        "{\"player_one_pos\":[1,18]}",
        "{\"player_one_pos\":[1,18],\"player_two_pos\":[77,18],\"pong_pos\":[40,20],\"player_one_score\":0,\"player_two_score\":}",
        "{\"player_one_pos\":[x,18],\"player_two_pos\":[77,18],\"pong_pos\":[40,20],\"player_one_score\":0,\"player_two_score\":0}",
        "{\"player_one_pos\":[1,18],\"player_two_pos\":[77,18],\"pong_pos\":[40,20],\"player_one_score\":0,\"player_two_score\":0}x",
        "{\"player_one_pos\":[70000,18],\"player_two_pos\":[77,18],\"pong_pos\":[40,20],\"player_one_score\":0,\"player_two_score\":0}",
    ];
    for text in cases {
        assert!(decode(&text.as_bytes().to_vec()).is_err(), "must reject: {text:?}");
    }
}

#[test]
fn load_snapshot_is_identity() {
    // Re-importing the engine's own snapshot leaves every field unchanged.
    let mut state = TerminalOutput::new(80, 40).game_state;
    for _ in 0..37 {
        state.advance_tick();
        state.apply_input(Side::Home, InputSymbol::MoveDown);
    }
    let before = state;
    let snap = state.snapshot();
    state.load(&snap);
    assert_eq!(state, before);
}

#[test]
fn host_applies_away_byte_to_away_paddle_only() {
    // A follower's 'w' for the away side moves the away paddle up by one;
    // the home paddle stays where it was.
    let mut state = mid_state(40, 10, 1, 1);
    let home_y = state.player.y;
    let away_y = state.opponent.y;
    host_tick(&mut state, WIRE_NOOP, WIRE_UP);
    assert_eq!(state.opponent.y, away_y - 1);
    assert_eq!(state.player.y, home_y);
}

#[test]
fn host_tick_broadcasts_its_own_snapshot() {
    let mut state = mid_state(40, 10, 1, 1);
    let payload = host_tick(&mut state, WIRE_DOWN, WIRE_NOOP);
    let decoded = decode(&payload).expect("host payload must decode");
    assert_eq!(decoded, state.snapshot());
}

#[test]
fn local_tick_applies_both_sides() {
    let mut state = TerminalOutput::new(80, 40).game_state;
    local_tick(&mut state, InputSymbol::MoveUp, InputSymbol::MoveDown);
    assert_eq!(state.player.y, 17);
    assert_eq!(state.opponent.y, 19);
    assert_eq!(state.pong_ball.x, 41);
}

#[test]
fn follower_applies_host_payload() {
    let mut host = mid_state(40, 10, 1, 1);
    let payload = host_tick(&mut host, WIRE_UP, WIRE_DOWN);
    let mut follower = TerminalOutput::new(80, 40).game_state;
    follower_apply_payload(&mut follower, &payload).expect("payload must apply");
    assert_eq!(follower.snapshot(), host.snapshot());
}

#[test]
fn follower_rejects_malformed_payload_unchanged() {
    let mut follower = TerminalOutput::new(80, 40).game_state;
    let before = follower;
    let junk = "not a snapshot".as_bytes().to_vec();
    assert!(follower_apply_payload(&mut follower, &junk).is_err());
    assert_eq!(follower, before);
}

#[test]
fn wire_bytes_round_trip() {
    // Every symbol a follower sends decodes back to itself on the host.
    let symbols = [InputSymbol::MoveUp, InputSymbol::MoveDown, InputSymbol::Noop];
    for sym in symbols {
        let byte = follower_tick_byte(sym).expect("a non-disconnect symbol sends one byte");
        assert_eq!(decode_wire_byte(byte), sym);
    }
    assert_eq!(follower_tick_byte(InputSymbol::Disconnect), None);
    assert_eq!(follower_tick_byte(InputSymbol::MoveUp), Some(WIRE_UP));
    assert_eq!(follower_tick_byte(InputSymbol::MoveDown), Some(WIRE_DOWN));
    assert_eq!(decode_wire_byte(b'x'), InputSymbol::Noop);
}

#[test]
fn session_transitions() {
    // Each running state survives an uneventful tick.
    assert_eq!(session_next(SessionState::Local, false, false, false), SessionState::Local);
    assert_eq!(session_next(SessionState::Hosting, false, false, false), SessionState::Hosting);
    assert_eq!(session_next(SessionState::Following, false, false, false), SessionState::Following);
    // A local disconnect request ends any session.
    assert_eq!(session_next(SessionState::Local, true, false, false), SessionState::Terminated);
    assert_eq!(session_next(SessionState::Hosting, true, false, false), SessionState::Terminated);
    assert_eq!(session_next(SessionState::Following, true, false, false), SessionState::Terminated);
    // A closed peer ends a networked session, not a local one.
    assert_eq!(session_next(SessionState::Local, false, true, false), SessionState::Local);
    assert_eq!(session_next(SessionState::Hosting, false, true, false), SessionState::Terminated);
    assert_eq!(session_next(SessionState::Following, false, true, false), SessionState::Terminated);
    // A decode failure ends only a following session.
    assert_eq!(session_next(SessionState::Local, false, false, true), SessionState::Local);
    assert_eq!(session_next(SessionState::Hosting, false, false, true), SessionState::Hosting);
    assert_eq!(session_next(SessionState::Following, false, false, true), SessionState::Terminated);
    // SessionState::Terminated is final.
    assert_eq!(session_next(SessionState::Terminated, false, false, false), SessionState::Terminated);
    assert_eq!(session_next(SessionState::Terminated, true, true, true), SessionState::Terminated);
}

#[test]
fn snapshot_carries_all_mutable_state() {
    let mut term = TerminalOutput::new(80, 40);
    term.game_state.apply_input(Side::Home, InputSymbol::MoveUp);
    term.game_state.advance_tick();
    let snap = term.get_game_data();
    assert_eq!(snap.player_one_x, term.game_state.player.x);
    assert_eq!(snap.player_one_y, term.game_state.player.y);
    assert_eq!(snap.player_two_x, term.game_state.opponent.x);
    assert_eq!(snap.player_two_y, term.game_state.opponent.y);
    assert_eq!(snap.pong_x, term.game_state.pong_ball.x);
    assert_eq!(snap.pong_y, term.game_state.pong_ball.y);
    let mut other = TerminalOutput::new(80, 40);
    other.set_game_data(&snap);
    assert_eq!(other.get_game_data(), snap);
}
