//! The turn state machine: whose turn it is, the active phase and the roll.
use vstd::prelude::*;
use crate::board::PIECES_PER_PLAYER;
use crate::dice::{roll_dice, DIE_FACES};
use crate::player::{after_move, any_eligible, first_eligible, Player, PlayerColor};

verus! {

/// Number of players; the roster has exactly this many.
pub const MAX_PLAYERS: usize = 4;

/// The phase of the active player's turn.
#[derive(Debug, Clone, Copy, PartialEq, Eq, Structural)]
pub enum Phase {
    Rolling,
    Moving,
    Waiting,
}

/// Whose turn it is, the phase of that turn, and the last roll.
#[derive(Debug, Clone, Copy, PartialEq, Eq, Structural)]
pub struct GameState {
    pub player_index: usize,
    pub phase: Phase,
    pub dice_roll: i32,
}

/// What one step of the machine did, for the output sink.
#[derive(Debug, Clone, Copy, PartialEq, Eq, Structural)]
pub enum StepEvent {
    /// The player's turn began.
    TurnStarted { color: PlayerColor },
    /// The player rolled `roll`; `can_move` tells whether a move follows.
    Rolled { color: PlayerColor, roll: i32, can_move: bool },
    /// The player moved a piece; `piece_finished` tells whether it reached
    /// the end.
    Moved { color: PlayerColor, piece_finished: bool },
    /// No piece could be moved in the moving phase.
    NotMoved { color: PlayerColor },
    /// The player moved its last piece to the end and won: the game is over.
    Won { color: PlayerColor },
}

impl StepEvent {
    /// Whether the game ended with this step.
    pub fn is_terminal(&self) -> (r: bool)
        ensures
            r == (*self is Won),
    {
        match self {
            StepEvent::Won { .. } => true,
            _ => false,
        }
    }
}

/// The state after turn-advance: the next player, waiting, with no roll.
pub open spec fn advanced(s: GameState) -> GameState {
    GameState {
        player_index: ((s.player_index + 1) % (MAX_PLAYERS as int)) as usize,
        phase: Phase::Waiting,
        dice_roll: 0,
    }
}

/// The state a game starts in: the first player, waiting, with no roll.
pub open spec fn initial_state() -> GameState {
    GameState { player_index: 0, phase: Phase::Waiting, dice_roll: 0 }
}

/// The roster's colors, in turn order.
pub open spec fn color_at(i: int) -> PlayerColor {
    if i == 0 {
        PlayerColor::Red
    } else if i == 1 {
        PlayerColor::Green
    } else if i == 2 {
        PlayerColor::Yellow
    } else {
        PlayerColor::Blue
    }
}

/// Every player of the roster is well formed.
pub open spec fn roster_wf(players: Seq<Player>) -> bool {
    forall|i: int| 0 <= i < players.len() ==> (#[trigger] players[i]).wf()
}

/// One transition of the machine from state `s` on roster `players`, where
/// `roll` is the die value drawn if `s` is in the rolling phase: the new
/// state, the new roster and the event.
pub open spec fn step_result(s: GameState, players: Seq<Player>, roll: int) -> (GameState, Seq<Player>, StepEvent) {
    let p = players[s.player_index as int];
    match s.phase {
        Phase::Waiting => (
            GameState { player_index: s.player_index, phase: Phase::Rolling, dice_roll: 0 },
            players,
            StepEvent::TurnStarted { color: p.color },
        ),
        Phase::Rolling => {
            let can = any_eligible(p.pieces@, roll);
            (
                if can {
                    GameState { player_index: s.player_index, phase: Phase::Moving, dice_roll: roll as i32 }
                } else {
                    advanced(s)
                },
                players,
                StepEvent::Rolled { color: p.color, roll: roll as i32, can_move: can },
            )
        },
        Phase::Moving => {
            let q = after_move(p, s.dice_roll as int);
            let new_players = players.update(s.player_index as int, q);
            if !any_eligible(p.pieces@, s.dice_roll as int) {
                (advanced(s), new_players, StepEvent::NotMoved { color: p.color })
            } else if q.won() {
                (s, new_players, StepEvent::Won { color: p.color })
            } else {
                let finished = q.pieces@[first_eligible(p.pieces@, s.dice_roll as int)].at_end;
                (advanced(s), new_players, StepEvent::Moved { color: p.color, piece_finished: finished })
            }
        },
    }
}

/// A move that does not win always passes the turn to the next player,
/// whatever the roll was: a six earns no extra turn.
pub proof fn lemma_move_passes_turn(s: GameState, players: Seq<Player>, roll: int)
    requires
        s.wf(),
        players.len() == MAX_PLAYERS,
        s.phase == Phase::Moving,
        !after_move(players[s.player_index as int], s.dice_roll as int).won(),
    ensures
        step_result(s, players, roll).0 == advanced(s),
        step_result(s, players, roll).0.player_index == (s.player_index + 1) % (MAX_PLAYERS as int),
{
}

impl GameState {
    /// The player index names a roster slot, and the roll is 0 outside the
    /// moving phase and a die value in it.
    pub open spec fn wf(self) -> bool {
        &&& self.player_index < MAX_PLAYERS
        &&& match self.phase {
            Phase::Moving => 1 <= self.dice_roll <= DIE_FACES,
            _ => self.dice_roll == 0,
        }
    }

    /// The initial state: the first player, waiting, with no roll.
    pub fn new() -> (r: Self)
        ensures
            r == initial_state(),
            r.wf(),
    {
        GameState { player_index: 0, phase: Phase::Waiting, dice_roll: 0 }
    }

    /// Performs one transition of the machine with the die value `roll`,
    /// which is read only in the rolling phase.
    pub fn step_with_roll(&mut self, players: &mut [Player; MAX_PLAYERS], roll: i32) -> (ev: StepEvent)
        requires
            old(self).wf(),
            roster_wf(old(players)@),
            old(self).phase == Phase::Rolling ==> 1 <= roll <= DIE_FACES,
        ensures
            (*final(self), final(players)@, ev) == step_result(*old(self), old(players)@, roll as int),
            final(self).wf(),
            roster_wf(final(players)@),
    {
        let idx = self.player_index;
        let color = players[idx].color;
        match self.phase {
            Phase::Waiting => {
                self.dice_roll = 0;
                self.phase = Phase::Rolling;
                StepEvent::TurnStarted { color }
            },
            Phase::Rolling => {
                self.dice_roll = roll;
                let can = players[idx].can_move(roll);
                if can {
                    self.phase = Phase::Moving;
                } else {
                    next_turn(self);
                }
                StepEvent::Rolled { color, roll, can_move: can }
            },
            Phase::Moving => {
                let mut p = players[idx];
                let first = p.first_movable(self.dice_roll);
                let did_move = p.move_piece(self.dice_roll);
                players[idx] = p;
                if did_move {
                    if p.has_won() {
                        return StepEvent::Won { color };
                    }
                    let finished = match first {
                        Some(k) => p.pieces[k].at_end,
                        None => false,
                    };
                    next_turn(self);
                    StepEvent::Moved { color, piece_finished: finished }
                } else {
                    next_turn(self);
                    StepEvent::NotMoved { color }
                }
            },
        }
    }

    /// Performs one transition of the machine, rolling the die when the
    /// active player is in the rolling phase.
    pub fn step(&mut self, players: &mut [Player; MAX_PLAYERS]) -> (ev: StepEvent)
        requires
            old(self).wf(),
            roster_wf(old(players)@),
        ensures
            old(self).phase == Phase::Rolling ==> exists|roll: int|
                1 <= roll <= DIE_FACES && (*final(self), final(players)@, ev) == #[trigger] step_result(
                    *old(self),
                    old(players)@,
                    roll,
                ),
            old(self).phase != Phase::Rolling ==> (*final(self), final(players)@, ev) == step_result(
                *old(self),
                old(players)@,
                0,
            ),
            final(self).wf(),
            roster_wf(final(players)@),
    {
        let roll: i32 = if self.phase == Phase::Rolling {
            roll_dice()
        } else {
            0
        };
        self.step_with_roll(players, roll)
    }
}

/// Passes the turn to the next player: the index advances modulo the roster
/// size, the phase becomes waiting and the roll is cleared, whatever the
/// phase was.
pub fn next_turn(game_state: &mut GameState)
    requires
        old(game_state).player_index < MAX_PLAYERS,
    ensures
        *final(game_state) == advanced(*old(game_state)),
        final(game_state).player_index == (old(game_state).player_index + 1) % (MAX_PLAYERS as int),
        final(game_state).phase == Phase::Waiting,
        final(game_state).dice_roll == 0,
        final(game_state).wf(),
{
    game_state.player_index = (game_state.player_index + 1) % MAX_PLAYERS;
    game_state.phase = Phase::Waiting;
    game_state.dice_roll = 0;
}

/// The roster of four players in turn order, every piece at home, and the
/// initial state.
pub fn initialize() -> (r: (GameState, [Player; MAX_PLAYERS]))
    ensures
        r.0 == initial_state(),
        r.1@.len() == MAX_PLAYERS,
        forall|i: int| 0 <= i < MAX_PLAYERS ==> (#[trigger] r.1@[i]).color == color_at(i),
        forall|i: int, j: int|
            0 <= i < MAX_PLAYERS && 0 <= j < PIECES_PER_PLAYER ==> (#[trigger] r.1@[i].pieces@[j])
                == crate::board::home_piece(),
        roster_wf(r.1@),
{
    let players = [
        Player::new(PlayerColor::Red),
        Player::new(PlayerColor::Green),
        Player::new(PlayerColor::Yellow),
        Player::new(PlayerColor::Blue),
    ];
    (GameState::new(), players)
}

} // verus!
