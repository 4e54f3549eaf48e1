//! An in-memory model of the board-control daemon: the enumerated boards
//! of one connection, each with per-layer brightness and one color.
//!
//! Every operation is addressed by a board handle obtained from `boards`;
//! a stale or unknown handle fails with `UnknownBoard`, and a brightness
//! value or layer index outside a board's bounds fails with `InvalidRange`
//! and leaves every board untouched. The board list is a snapshot: it is
//! replaced wholesale by a new connection, never mutated incrementally.

use vstd::prelude::*;

use crate::Error;

verus! {

/// One RGB color per board.
#[derive(Clone, Copy, PartialEq, Eq, Structural, Debug)]
pub struct Color {
    pub red: u8,
    pub green: u8,
    pub blue: u8,
}

/// One physical keyboard: its model name, its device-specific brightness
/// ceiling, one brightness value per layer, and one overall color.
pub struct Board {
    pub model: String,
    pub max_brightness: i32,
    pub brightness: Vec<i32>,
    pub color: Color,
}

impl Board {
    /// Every brightness value lies within the board's ceiling.
    pub open spec fn wf(self) -> bool {
        &&& self.max_brightness >= 0
        &&& forall|i: int|
            0 <= i < self.brightness@.len() ==> 0 <= #[trigger] self.brightness@[i]
                <= self.max_brightness
    }

    /// A board with the given layer count, every layer dark and the
    /// backlight black.
    pub fn new(model: String, layer_count: usize, max_brightness: i32) -> (r: Board)
        requires
            max_brightness >= 0,
        ensures
            r.wf(),
            r.model@ == model@,
            r.max_brightness == max_brightness,
            r.brightness@.len() == layer_count,
            forall|i: int| 0 <= i < layer_count ==> #[trigger] r.brightness@[i] == 0,
            r.color == (Color { red: 0, green: 0, blue: 0 }),
    {
        let mut brightness: Vec<i32> = Vec::new();
        let mut i: usize = 0;
        while i < layer_count
            invariant
                i <= layer_count,
                brightness@.len() == i,
                forall|j: int| 0 <= j < i ==> #[trigger] brightness@[j] == 0,
            decreases layer_count - i,
        {
            brightness.push(0);
            i = i + 1;
        }
        Board { model, max_brightness, brightness, color: Color { red: 0, green: 0, blue: 0 } }
    }

    /// How many layers this board has.
    pub fn layer_count(&self) -> (r: usize)
        ensures
            r == self.brightness@.len(),
    {
        self.brightness.len()
    }
}

/// One connection to the board-control daemon, holding the session's
/// board-list snapshot. A board handle is the board's index in the
/// snapshot.
pub struct Daemon {
    pub boards: Vec<Board>,
}

impl Daemon {
    pub open spec fn wf(self) -> bool {
        forall|i: int| 0 <= i < self.boards@.len() ==> (#[trigger] self.boards@[i]).wf()
    }

    /// Establish a connection from a discovery result: `None` stands for
    /// no control channel and fails with `DaemonUnavailable`; a discovered
    /// board list, even an empty one, connects.
    pub fn connect(discovered: Option<Vec<Board>>) -> (r: Result<Daemon, Error>)
        requires
            discovered matches Some(bs) ==> forall|i: int|
                0 <= i < bs@.len() ==> (#[trigger] bs@[i]).wf(),
        ensures
            match discovered {
                Some(bs) => r matches Ok(d) && d.boards == bs && d.wf(),
                None => r == Err::<Daemon, Error>(Error::DaemonUnavailable),
            },
    {
        match discovered {
            Some(boards) => Ok(Daemon { boards }),
            None => Err(Error::DaemonUnavailable),
        }
    }

    /// Enumerate the attached boards. On an established connection the
    /// enumeration always succeeds: zero boards is an empty handle list,
    /// not an error.
    pub fn boards(&self) -> (r: Result<Vec<usize>, Error>)
        ensures
            r matches Ok(hs) && hs@.len() == self.boards@.len() && forall|i: int|
                0 <= i < hs@.len() ==> #[trigger] hs@[i] == i,
    {
        let mut handles: Vec<usize> = Vec::new();
        let mut i: usize = 0;
        let n = self.boards.len();
        while i < n
            invariant
                i <= n,
                handles@.len() == i,
                forall|j: int| 0 <= j < i ==> #[trigger] handles@[j] == j,
            decreases n - i,
        {
            handles.push(i);
            i = i + 1;
        }
        Ok(handles)
    }

    /// The model name of the addressed board.
    pub fn board_model(&self, board: usize) -> (r: Result<&String, Error>)
        ensures
            match r {
                Ok(m) => board < self.boards@.len() && m@ == self.boards@[board as int].model@,
                Err(e) => board >= self.boards@.len() && e == Error::UnknownBoard,
            },
    {
        if board < self.boards.len() {
            Ok(&self.boards[board].model)
        } else {
            Err(Error::UnknownBoard)
        }
    }

    /// The brightness ceiling of the addressed board.
    pub fn max_brightness(&self, board: usize) -> (r: Result<i32, Error>)
        ensures
            match r {
                Ok(v) => board < self.boards@.len() && v == self.boards@[
                    board as int
                ].max_brightness,
                Err(e) => board >= self.boards@.len() && e == Error::UnknownBoard,
            },
    {
        if board < self.boards.len() {
            Ok(self.boards[board].max_brightness)
        } else {
            Err(Error::UnknownBoard)
        }
    }

    /// The current brightness of one layer of the addressed board.
    pub fn brightness(&self, board: usize, layer: usize) -> (r: Result<i32, Error>)
        ensures
            match r {
                Ok(v) => board < self.boards@.len() && layer < self.boards@[
                    board as int
                ].brightness@.len() && v == self.boards@[board as int].brightness@[layer as int],
                Err(e) => if board >= self.boards@.len() {
                    e == Error::UnknownBoard
                } else {
                    layer >= self.boards@[board as int].brightness@.len() && e
                        == Error::InvalidRange
                },
            },
    {
        if board >= self.boards.len() {
            Err(Error::UnknownBoard)
        } else if layer >= self.boards[board].brightness.len() {
            Err(Error::InvalidRange)
        } else {
            Ok(self.boards[board].brightness[layer])
        }
    }

    /// Set the brightness of one layer of the addressed board. A value
    /// outside `[0, max_brightness]`, like a layer outside the board,
    /// fails with `InvalidRange` and leaves every board's reported state
    /// unchanged.
    pub fn set_brightness(&mut self, board: usize, layer: usize, value: i32) -> (r: Result<
        (),
        Error,
    >)
        requires
            old(self).wf(),
        ensures
            final(self).wf(),
            final(self).boards@.len() == old(self).boards@.len(),
            match r {
                Ok(_) => {
                    &&& board < old(self).boards@.len()
                    &&& layer < old(self).boards@[board as int].brightness@.len()
                    &&& 0 <= value <= old(self).boards@[board as int].max_brightness
                    &&& final(self).boards@[board as int].brightness@ == old(self).boards@[
                        board as int
                    ].brightness@.update(layer as int, value)
                    &&& final(self).boards@[board as int].model == old(self).boards@[
                        board as int
                    ].model
                    &&& final(self).boards@[board as int].max_brightness == old(self).boards@[
                        board as int
                    ].max_brightness
                    &&& final(self).boards@[board as int].color == old(self).boards@[
                        board as int
                    ].color
                    &&& forall|i: int|
                        0 <= i < old(self).boards@.len() && i != board ==> final(self).boards@[i]
                            == old(self).boards@[i]
                },
                Err(e) => {
                    &&& *final(self) == *old(self)
                    &&& if board >= old(self).boards@.len() {
                        e == Error::UnknownBoard
                    } else {
                        (layer >= old(self).boards@[board as int].brightness@.len() || value < 0
                            || value > old(self).boards@[board as int].max_brightness) && e
                            == Error::InvalidRange
                    }
                },
            },
    {
        if board >= self.boards.len() {
            Err(Error::UnknownBoard)
        } else if layer >= self.boards[board].brightness.len() {
            Err(Error::InvalidRange)
        } else if value < 0 || value > self.boards[board].max_brightness {
            Err(Error::InvalidRange)
        } else {
            self.boards[board].brightness[layer] = value;
            Ok(())
        }
    }

    /// The current color of the addressed board.
    pub fn color(&self, board: usize) -> (r: Result<Color, Error>)
        ensures
            match r {
                Ok(c) => board < self.boards@.len() && c == self.boards@[board as int].color,
                Err(e) => board >= self.boards@.len() && e == Error::UnknownBoard,
            },
    {
        if board < self.boards.len() {
            Ok(self.boards[board].color)
        } else {
            Err(Error::UnknownBoard)
        }
    }

    /// Set the color of the addressed board, leaving every other board
    /// untouched.
    pub fn set_color(&mut self, board: usize, color: Color) -> (r: Result<(), Error>)
        requires
            old(self).wf(),
        ensures
            final(self).wf(),
            final(self).boards@.len() == old(self).boards@.len(),
            match r {
                Ok(_) => {
                    &&& board < old(self).boards@.len()
                    &&& final(self).boards@[board as int].color == color
                    &&& final(self).boards@[board as int].model == old(self).boards@[
                        board as int
                    ].model
                    &&& final(self).boards@[board as int].max_brightness == old(self).boards@[
                        board as int
                    ].max_brightness
                    &&& final(self).boards@[board as int].brightness == old(self).boards@[
                        board as int
                    ].brightness
                    &&& forall|i: int|
                        0 <= i < old(self).boards@.len() && i != board ==> final(self).boards@[i]
                            == old(self).boards@[i]
                },
                Err(e) => *final(self) == *old(self) && board >= old(self).boards@.len() && e
                    == Error::UnknownBoard,
            },
    {
        if board >= self.boards.len() {
            Err(Error::UnknownBoard)
        } else {
            self.boards[board].color = color;
            Ok(())
        }
    }
}

} // verus!
