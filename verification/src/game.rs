use vstd::prelude::*;

verus! {

/// The mark a player places: the first player plays crosses, the second
/// noughts.
#[derive(Clone, Copy, Debug, PartialEq, Eq, Structural)]
pub enum Sign {
    X,
    O,
}

/// Where a game stands: still running, drawn, or won by one identity.
#[derive(Clone, Copy, Debug, PartialEq, Eq, Structural)]
pub enum GameState {
    Active,
    Tie,
    Won { winner: u64 },
}

/// One cell of the three-by-three board, addressed by row and column.
#[derive(Clone, Copy, Debug, PartialEq, Eq, Structural)]
pub struct Tile {
    pub row: u8,
    pub column: u8,
}

/// Rejections raised by the board-game state machine.
#[derive(Clone, Copy, Debug, PartialEq, Eq, Structural)]
pub enum TicTacToeError {
    TileOutOfBounds,
    TileAlreadySet,
    GameAlreadyStarted,
    GameAlreadyOver,
    NotPlayersTurn,
}

/// A trio of cells all carrying the given sign.
pub open spec fn trio_is(board: Seq<Option<Sign>>, a: int, b: int, c: int, s: Sign) -> bool {
    board[a] == Some(s) && board[b] == Some(s) && board[c] == Some(s)
}

/// The given sign owns one of the eight lines of the board: a row, a
/// column or a diagonal. Cells are stored row-major.
pub open spec fn sign_wins(board: Seq<Option<Sign>>, s: Sign) -> bool {
    ||| trio_is(board, 0, 1, 2, s)
    ||| trio_is(board, 3, 4, 5, s)
    ||| trio_is(board, 6, 7, 8, s)
    ||| trio_is(board, 0, 3, 6, s)
    ||| trio_is(board, 1, 4, 7, s)
    ||| trio_is(board, 2, 5, 8, s)
    ||| trio_is(board, 0, 4, 8, s)
    ||| trio_is(board, 2, 4, 6, s)
}

/// A two-player turn-taking board game: strict alternation, no move on
/// an occupied cell, no move after the game has ended.
#[derive(Clone, Debug)]
pub struct Game {
    /// The two players' identities; the first moves first.
    pub players: [u64; 2],
    /// Zero before the game starts, then the number of the move being
    /// made, starting at one.
    pub turn: u8,
    /// The nine cells, row-major.
    pub board: Vec<Option<Sign>>,
    pub state: GameState,
}

impl Game {
    /// Structural soundness: nine cells, and the move counter never
    /// passes the board's capacity.
    pub open spec fn wf(self) -> bool {
        &&& self.board@.len() == 9
        &&& self.turn <= 9
    }

    /// The game has been started and may accept moves.
    pub open spec fn spec_started(self) -> bool {
        self.turn >= 1
    }

    /// Whose move it is: the first player on odd turns, the second on
    /// even ones.
    pub open spec fn spec_current_player_index(self) -> int {
        (self.turn - 1) % 2
    }

    pub open spec fn spec_current_player(self) -> u64 {
        if self.spec_current_player_index() == 0 {
            self.players@[0]
        } else {
            self.players@[1]
        }
    }

    /// The sign the mover of this turn places.
    pub open spec fn spec_current_sign(self) -> Sign {
        if self.spec_current_player_index() == 0 {
            Sign::X
        } else {
            Sign::O
        }
    }

    /// A fresh, unstarted game: empty board, both players unset.
    pub fn new() -> (g: Game)
        ensures
            g.wf(),
            !g.spec_started(),
            g.turn == 0,
            g.state is Active,
            forall|i: int| 0 <= i < 9 ==> g.board@[i] is None,
            g.players@[0] == 0 && g.players@[1] == 0,
    {
        let mut board: Vec<Option<Sign>> = Vec::new();
        let mut i: usize = 0;
        while i < 9
            invariant
                i <= 9,
                board@.len() == i,
                forall|j: int| 0 <= j < i ==> board@[j] is None,
            decreases 9 - i,
        {
            board.push(None);
            i = i + 1;
        }
        Game { players: [0, 0], turn: 0, board: board, state: GameState::Active }
    }

    /// Record the two players' identities; everything else stands.
    pub fn set_players(&mut self, players: [u64; 2])
        ensures
            final(self).players@ == players@,
            final(self).turn == old(self).turn,
            final(self).board == old(self).board,
            final(self).state == old(self).state,
    {
        self.players = players;
    }

    /// Start the game by moving the turn counter to one; a game that has
    /// already started is rejected unchanged.
    pub fn start(&mut self) -> (r: Result<(), TicTacToeError>)
        ensures
            old(self).turn != 0 ==> r == Err::<(), TicTacToeError>(
                TicTacToeError::GameAlreadyStarted,
            ) && *final(self) == *old(self),
            old(self).turn == 0 ==> {
                &&& r is Ok
                &&& final(self).turn == 1
                &&& final(self).players@ == old(self).players@
                &&& final(self).board == old(self).board
                &&& final(self).state == old(self).state
            },
    {
        if self.turn != 0 {
            return Err(TicTacToeError::GameAlreadyStarted);
        }
        self.turn = 1;
        Ok(())
    }

    pub fn is_active(&self) -> (r: bool)
        ensures
            r == (self.state is Active),
    {
        match self.state {
            GameState::Active => true,
            _ => false,
        }
    }

    pub fn current_player_index(&self) -> (i: usize)
        requires
            self.spec_started(),
        ensures
            i == self.spec_current_player_index(),
    {
        ((self.turn - 1) % 2) as usize
    }

    pub fn current_player(&self) -> (p: u64)
        requires
            self.spec_started(),
        ensures
            p == self.spec_current_player(),
    {
        if self.current_player_index() == 0 {
            self.players[0]
        } else {
            self.players[1]
        }
    }

    /// Whether cell `i` carries the sign `s`.
    fn cell_is(&self, i: usize, s: Sign) -> (r: bool)
        requires
            self.wf(),
            i < 9,
        ensures
            r == (self.board@[i as int] == Some(s)),
    {
        match self.board[i] {
            Some(x) => x == s,
            None => false,
        }
    }

    fn has_trio(&self, a: usize, b: usize, c: usize, s: Sign) -> (r: bool)
        requires
            self.wf(),
            a < 9,
            b < 9,
            c < 9,
        ensures
            r == trio_is(self.board@, a as int, b as int, c as int, s),
    {
        self.cell_is(a, s) && self.cell_is(b, s) && self.cell_is(c, s)
    }

    fn check_winner(&self, s: Sign) -> (r: bool)
        requires
            self.wf(),
        ensures
            r == sign_wins(self.board@, s),
    {
        self.has_trio(0, 1, 2, s) || self.has_trio(3, 4, 5, s) || self.has_trio(6, 7, 8, s)
            || self.has_trio(0, 3, 6, s) || self.has_trio(1, 4, 7, s) || self.has_trio(2, 5, 8, s)
            || self.has_trio(0, 4, 8, s) || self.has_trio(2, 4, 6, s)
    }

    /// Make the current player's move on `tile`.
    ///
    /// A finished game, a cell off the board and an occupied cell are
    /// each rejected unchanged. A legal move places the mover's sign;
    /// if it completes a line the mover has won, if it is the ninth move
    /// without a line the game is drawn, and otherwise the turn passes
    /// to the other player.
    pub fn play(&mut self, tile: &Tile) -> (r: Result<(), TicTacToeError>)
        requires
            old(self).wf(),
            old(self).spec_started(),
        ensures
            !(old(self).state is Active) ==> r == Err::<(), TicTacToeError>(
                TicTacToeError::GameAlreadyOver,
            ),
            old(self).state is Active && (tile.row > 2 || tile.column > 2) ==> r == Err::<
                (),
                TicTacToeError,
            >(TicTacToeError::TileOutOfBounds),
            old(self).state is Active && tile.row <= 2 && tile.column <= 2 && old(self).board@[
                tile.row * 3 + tile.column
            ] is Some ==> r == Err::<(), TicTacToeError>(TicTacToeError::TileAlreadySet),
            old(self).state is Active && tile.row <= 2 && tile.column <= 2 && old(self).board@[
                tile.row * 3 + tile.column
            ] is None ==> {
                &&& r is Ok
                &&& final(self).board@ == old(self).board@.update(
                    tile.row * 3 + tile.column,
                    Some(old(self).spec_current_sign()),
                )
                &&& final(self).state == (if sign_wins(final(self).board@, old(self).spec_current_sign()) {
                    (GameState::Won { winner: old(self).spec_current_player() })
                } else if old(self).turn == 9 {
                    GameState::Tie
                } else {
                    GameState::Active
                })
                &&& final(self).turn == (if final(self).state is Active {
                    old(self).turn + 1
                } else {
                    old(self).turn as int
                })
            },
            r is Err ==> *final(self) == *old(self),
            final(self).players@ == old(self).players@,
            final(self).wf(),
            final(self).spec_started(),
    {
        if !self.is_active() {
            return Err(TicTacToeError::GameAlreadyOver);
        }
        if tile.row > 2 || tile.column > 2 {
            return Err(TicTacToeError::TileOutOfBounds);
        }
        let idx: usize = (tile.row as usize) * 3 + (tile.column as usize);
        match self.board[idx] {
            Some(_) => {
                return Err(TicTacToeError::TileAlreadySet);
            },
            None => {},
        }
        let sign = if self.current_player_index() == 0 {
            Sign::X
        } else {
            Sign::O
        };
        self.board[idx] = Some(sign);
        if self.check_winner(sign) {
            let winner = self.current_player();
            self.state = GameState::Won { winner };
        } else if self.turn == 9 {
            self.state = GameState::Tie;
        } else {
            self.turn = self.turn + 1;
        }
        Ok(())
    }
}

/// The accounts game creation touches: the fresh game record and the
/// first player, already authenticated by the caller.
#[derive(Clone, Debug)]
pub struct SetupGame {
    pub game: Game,
    pub player_one: u64,
}

/// The accounts one move touches: the game record and the mover,
/// already authenticated by the caller.
#[derive(Clone, Debug)]
pub struct Play {
    pub game: Game,
    pub player: u64,
}

/// Record both players and start the game; a game already under way is
/// rejected unchanged.
pub fn setup_game(accounts: &mut SetupGame, player_two: u64) -> (r: Result<(), TicTacToeError>)
    ensures
        old(accounts).game.turn != 0 ==> r == Err::<(), TicTacToeError>(
            TicTacToeError::GameAlreadyStarted,
        ) && *final(accounts) == *old(accounts),
        old(accounts).game.turn == 0 ==> {
            &&& r is Ok
            &&& final(accounts).game.players@[0] == old(accounts).player_one
            &&& final(accounts).game.players@[1] == player_two
            &&& final(accounts).game.turn == 1
            &&& final(accounts).game.board == old(accounts).game.board
            &&& final(accounts).game.state == old(accounts).game.state
        },
        final(accounts).player_one == old(accounts).player_one,
{
    if accounts.game.turn != 0 {
        return Err(TicTacToeError::GameAlreadyStarted);
    }
    let player_one = accounts.player_one;
    accounts.game.set_players([player_one, player_two]);
    match accounts.game.start() {
        Ok(()) => {},
        Err(e) => {
            return Err(e);
        },
    }
    Ok(())
}

/// Make a move as the signed-in player: a caller who is not the player
/// whose turn it is is turned away before the board is consulted.
pub fn play(accounts: &mut Play, tile: Tile) -> (r: Result<(), TicTacToeError>)
    requires
        old(accounts).game.wf(),
        old(accounts).game.spec_started(),
    ensures
        old(accounts).player != old(accounts).game.spec_current_player() ==> r == Err::<
            (),
            TicTacToeError,
        >(TicTacToeError::NotPlayersTurn),
        old(accounts).player == old(accounts).game.spec_current_player() && !(old(
            accounts,
        ).game.state is Active) ==> r == Err::<(), TicTacToeError>(TicTacToeError::GameAlreadyOver),
        old(accounts).player == old(accounts).game.spec_current_player() && old(
            accounts,
        ).game.state is Active && (tile.row > 2 || tile.column > 2) ==> r == Err::<
            (),
            TicTacToeError,
        >(TicTacToeError::TileOutOfBounds),
        old(accounts).player == old(accounts).game.spec_current_player() && old(
            accounts,
        ).game.state is Active && tile.row <= 2 && tile.column <= 2 && old(accounts).game.board@[
            tile.row * 3 + tile.column
        ] is Some ==> r == Err::<(), TicTacToeError>(TicTacToeError::TileAlreadySet),
        old(accounts).player == old(accounts).game.spec_current_player() && old(
            accounts,
        ).game.state is Active && tile.row <= 2 && tile.column <= 2 && old(accounts).game.board@[
            tile.row * 3 + tile.column
        ] is None ==> {
            &&& r is Ok
            &&& final(accounts).game.board@ == old(accounts).game.board@.update(
                tile.row * 3 + tile.column,
                Some(old(accounts).game.spec_current_sign()),
            )
            &&& final(accounts).game.state == (if sign_wins(
                final(accounts).game.board@,
                old(accounts).game.spec_current_sign(),
            ) {
                (GameState::Won { winner: old(accounts).game.spec_current_player() })
            } else if old(accounts).game.turn == 9 {
                GameState::Tie
            } else {
                GameState::Active
            })
            &&& final(accounts).game.turn == (if final(accounts).game.state is Active {
                old(accounts).game.turn + 1
            } else {
                old(accounts).game.turn as int
            })
        },
        r is Err ==> *final(accounts) == *old(accounts),
        final(accounts).player == old(accounts).player,
        final(accounts).game.players@ == old(accounts).game.players@,
        final(accounts).game.wf(),
{
    let current = accounts.game.current_player();
    if accounts.player != current {
        return Err(TicTacToeError::NotPlayersTurn);
    }
    accounts.game.play(&tile)
}

} // verus!
