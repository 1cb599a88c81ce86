use vstd::prelude::*;

use crate::codec::{decode, encode, spec_decode, spec_encode, MalformedSnapshot};
use crate::engine::{GameState, InputSymbol, Side};
use crate::geom::{Rect, MIN_ARENA_HEIGHT, MIN_ARENA_WIDTH};
use crate::snapshot::GameDataJSON;

verus! {

/// Protocol byte for move-up: ASCII `w`.
pub const WIRE_UP: u8 = 119;

/// Protocol byte for move-down: ASCII `s`.
pub const WIRE_DOWN: u8 = 115;

/// Protocol byte for an idle tick: ASCII `0`. A follower sends it when it
/// has no input, so the host's blocking read still gets its one byte.
pub const WIRE_NOOP: u8 = 48;

/// The symbol a received protocol byte stands for. Any byte outside the
/// protocol counts as a no-op, so a stray byte never moves a paddle.
pub open spec fn wire_symbol(b: u8) -> InputSymbol {
    if b == WIRE_UP {
        InputSymbol::MoveUp
    } else if b == WIRE_DOWN {
        InputSymbol::MoveDown
    } else {
        InputSymbol::Noop
    }
}

pub fn decode_wire_byte(b: u8) -> (r: InputSymbol)
    ensures
        r == wire_symbol(b),
{
    if b == WIRE_UP {
        InputSymbol::MoveUp
    } else if b == WIRE_DOWN {
        InputSymbol::MoveDown
    } else {
        InputSymbol::Noop
    }
}

/// The byte a follower sends for one tick's input: exactly one protocol
/// byte per tick, and nothing at all once it requests to disconnect.
pub open spec fn wire_byte_of(symbol: InputSymbol) -> Option<u8> {
    match symbol {
        InputSymbol::MoveUp => Some(WIRE_UP),
        InputSymbol::MoveDown => Some(WIRE_DOWN),
        InputSymbol::Noop => Some(WIRE_NOOP),
        InputSymbol::Disconnect => None,
    }
}

/// What a follower puts on the wire this tick: its input's protocol byte,
/// or nothing on a disconnect request, which instead ends the session.
pub fn follower_tick_byte(symbol: InputSymbol) -> (r: Option<u8>)
    ensures
        r == wire_byte_of(symbol),
{
    match symbol {
        InputSymbol::MoveUp => Some(WIRE_UP),
        InputSymbol::MoveDown => Some(WIRE_DOWN),
        InputSymbol::Noop => Some(WIRE_NOOP),
        InputSymbol::Disconnect => None,
    }
}

/// A follower's intent survives the wire: every symbol it sends decodes
/// back to that same symbol on the host.
pub proof fn lemma_wire_round_trip(symbol: InputSymbol)
    requires
        symbol != InputSymbol::Disconnect,
    ensures
        match wire_byte_of(symbol) {
            Some(b) => wire_symbol(b) == symbol,
            None => false,
        },
{
}

/// The session driver's states: a single-process match, the authoritative
/// host, the remote follower, and the terminal state in which the transport
/// and the display are released.
#[derive(Clone, Copy, Debug, PartialEq, Eq, Structural)]
pub enum SessionState {
    Local,
    Hosting,
    Following,
    Terminated,
}

/// Where one tick's events drive the session: a local disconnect request
/// ends any session; a closed peer connection or an undecodable snapshot
/// ends a networked one; `Terminated` is final. There is no retry and no
/// reconnection.
pub open spec fn session_step(
    state: SessionState,
    local_disconnect: bool,
    peer_closed: bool,
    decode_failed: bool,
) -> SessionState {
    match state {
        SessionState::Local => if local_disconnect {
            SessionState::Terminated
        } else {
            SessionState::Local
        },
        SessionState::Hosting => if local_disconnect || peer_closed {
            SessionState::Terminated
        } else {
            SessionState::Hosting
        },
        SessionState::Following => if local_disconnect || peer_closed || decode_failed {
            SessionState::Terminated
        } else {
            SessionState::Following
        },
        SessionState::Terminated => SessionState::Terminated,
    }
}

pub fn session_next(
    state: SessionState,
    local_disconnect: bool,
    peer_closed: bool,
    decode_failed: bool,
) -> (r: SessionState)
    ensures
        r == session_step(state, local_disconnect, peer_closed, decode_failed),
{
    match state {
        SessionState::Local => if local_disconnect {
            SessionState::Terminated
        } else {
            SessionState::Local
        },
        SessionState::Hosting => if local_disconnect || peer_closed {
            SessionState::Terminated
        } else {
            SessionState::Hosting
        },
        SessionState::Following => if local_disconnect || peer_closed || decode_failed {
            SessionState::Terminated
        } else {
            SessionState::Following
        },
        SessionState::Terminated => SessionState::Terminated,
    }
}

/// The whole state change of one local tick: both sides' decoded inputs are
/// applied, then the simulation advances once.
pub open spec fn local_tick_spec(s: GameState, home: InputSymbol, away: InputSymbol) -> GameState {
    s.apply_input_spec(Side::Home, home).apply_input_spec(Side::Away, away).advance_spec()
}

/// One local tick: input for both sides from the local key mapping, then
/// one physics step. The caller renders the resulting state.
pub fn local_tick(state: &mut GameState, home: InputSymbol, away: InputSymbol)
    requires
        old(state).wf(),
        old(state).player.score < u16::MAX,
        old(state).opponent.score < u16::MAX,
    ensures
        *final(state) == local_tick_spec(*old(state), home, away),
        final(state).wf(),
{
    state.apply_input(Side::Home, home);
    state.apply_input(Side::Away, away);
    state.advance_tick();
}

/// The whole state change of one hosting tick: each follower's protocol
/// byte acts on its own side only, then the simulation advances once.
pub open spec fn host_tick_spec(s: GameState, home_byte: u8, away_byte: u8) -> GameState {
    local_tick_spec(s, wire_symbol(home_byte), wire_symbol(away_byte))
}

/// One authoritative hosting tick, entered only after the lockstep barrier:
/// one byte arrived from each follower. Returns the encoded snapshot the
/// host broadcasts to both connections.
pub fn host_tick(state: &mut GameState, home_byte: u8, away_byte: u8) -> (r: Vec<u8>)
    requires
        old(state).wf(),
        old(state).player.score < u16::MAX,
        old(state).opponent.score < u16::MAX,
    ensures
        *final(state) == host_tick_spec(*old(state), home_byte, away_byte),
        final(state).wf(),
        r@ == spec_encode(final(state).snapshot_spec()),
{
    let home = decode_wire_byte(home_byte);
    let away = decode_wire_byte(away_byte);
    local_tick(state, home, away);
    let snap = state.snapshot();
    encode(&snap)
}

/// One following tick's receive half: decode the padded payload and import
/// it wholesale. On a malformed payload nothing changes and the caller ends
/// the session. The follower never advances the simulation itself.
pub fn follower_apply_payload(state: &mut GameState, buf: &Vec<u8>) -> (r: Result<
    (),
    MalformedSnapshot,
>)
    ensures
        match r {
            Ok(_) => match spec_decode(buf@) {
                Some(d) => *final(state) == old(state).load_spec(d),
                None => false,
            },
            Err(_) => spec_decode(buf@) is None && *final(state) == *old(state),
        },
{
    match decode(buf) {
        Ok(d) => {
            state.load(&d);
            Ok(())
        },
        Err(e) => Err(e),
    }
}

/// The session driver's engine-facing half: it owns the match state, and
/// the presentation layer reads a snapshot of it each tick. The terminal
/// and socket plumbing around it lives outside the library and hands in
/// plain bytes and symbols.
pub struct TerminalOutput {
    pub game_state: GameState,
}

impl TerminalOutput {
    /// A fresh match in an arena of the given size with its origin at the
    /// top-left corner of the display.
    pub fn new(width: u16, height: u16) -> (r: TerminalOutput)
        requires
            MIN_ARENA_WIDTH <= width,
            MIN_ARENA_HEIGHT <= height,
        ensures
            r.game_state == GameState::init_spec(Rect { x: 0, y: 0, width, height }),
            r.game_state.wf(),
    {
        TerminalOutput { game_state: GameState::new(Rect::new(0, 0, width, height)) }
    }

    /// The snapshot the authoritative side broadcasts, and the presentation
    /// layer draws, each tick.
    pub fn get_game_data(&self) -> (r: GameDataJSON)
        ensures
            r == self.game_state.snapshot_spec(),
    {
        self.game_state.snapshot()
    }

    /// Import a received snapshot wholesale; used by the follower.
    pub fn set_game_data(&mut self, game_data: &GameDataJSON)
        ensures
            final(self).game_state == old(self).game_state.load_spec(*game_data),
    {
        self.game_state.load(game_data);
    }
}

} // verus!
