use vstd::prelude::*;
use crate::cell::{CellInstance, CellState};
use crate::generation::Generation;
use crate::grid::{Grid, GridError};
use crate::gui::{
    clamped, MAX_OFFSET, MAX_SCALE_FACTOR, MIN_OFFSET, MIN_SCALE_FACTOR,
};
use crate::input::{InputEvent, Key, MouseButton};
use crate::mapper::{cell_index_from_position, cell_under};
use crate::pattern;
use crate::pattern::Preset;

verus! {

/// The number of columns of the simulation's grid.
pub const GRID_LINE_SIZE: usize = 100;

/// The number of rows of the simulation's grid.
pub const GRID_COLUMN_SIZE: usize = 100;

/// The number of cells of the simulation's grid.
pub const GRID_CELL_COUNT: usize = 10_000;

/// How many generations a running simulation passes through in a second, at
/// most.
pub const TICK_PER_SEC: u32 = 12;

/// The time from one generation to the next, in nanoseconds: 83 milliseconds.
pub open spec fn tick_interval_nanos() -> u64 {
    83_000_000
}

/// The simulation as a mathematical value: the board, where the pointer was
/// last seen, which buttons are held, and what the controls say.
pub struct Simulation {
    pub board: Generation,
    pub pointer: (i64, i64),
    pub left_pressed: bool,
    pub right_pressed: bool,
    pub controls: crate::gui::State,
}

impl Simulation {
    /// The place of the cell under the pointer, if there is one.
    pub open spec fn pointed(self) -> Option<int> {
        cell_under(
            self.pointer.0 as int,
            self.pointer.1 as int,
            self.controls.cell_scale_factor as int,
            self.controls.cell_offset as int,
            self.board.width as int,
            self.board.height as int,
        )
    }

    /// The board, with the cell under the pointer set alive or dead where
    /// there is one.
    pub open spec fn with_pointed(self, alive: bool) -> Simulation {
        match self.pointed() {
            Some(i) => Simulation { board: self.board.with_state(i, alive), ..self },
            None => self,
        }
    }

    /// Painting while a button is held: the left button sets the cell under
    /// the pointer alive while the simulation is paused; otherwise the right
    /// button sets it dead, running or not.
    pub open spec fn painted(self) -> Simulation {
        if self.left_pressed && !self.controls.running {
            self.with_pointed(true)
        } else if self.right_pressed {
            self.with_pointed(false)
        } else {
            self
        }
    }

    /// What one event changes: a move of the pointer its last position, a
    /// button whether it is held, `R` clears the board, `S` starts and `P`
    /// pauses the simulation.
    pub open spec fn dispatched(self, event: InputEvent) -> Simulation {
        match event {
            InputEvent::CursorMoved { x, y } => Simulation { pointer: (x, y), ..self },
            InputEvent::MouseInput { button: MouseButton::Left, pressed } => Simulation {
                left_pressed: pressed,
                ..self
            },
            InputEvent::MouseInput { button: MouseButton::Right, pressed } => Simulation {
                right_pressed: pressed,
                ..self
            },
            InputEvent::KeyPressed { key: Key::R } => Simulation {
                board: Generation::dead(self.board.width, self.board.height),
                ..self
            },
            InputEvent::KeyPressed { key: Key::S } => Simulation {
                controls: crate::gui::State { running: true, ..self.controls },
                ..self
            },
            InputEvent::KeyPressed { key: Key::P } => Simulation {
                controls: crate::gui::State { running: false, ..self.controls },
                ..self
            },
            _ => self,
        }
    }

    /// The simulation after one event: as before where the controls took the
    /// event for themselves, and painted, then changed by the event,
    /// otherwise.
    pub open spec fn after_input(self, consumed: bool, event: InputEvent) -> Simulation {
        if consumed {
            self
        } else {
            self.painted().dispatched(event)
        }
    }

    /// Whether `records` are the records of this simulation's cells: one for
    /// each cell in the board's order, drawn at the scale and spacing that
    /// the controls say.
    pub open spec fn shown_by(self, records: Seq<CellInstance>) -> bool {
        &&& records.len() == self.board.alive.len()
        &&& forall|i: int|
            0 <= i < records.len() ==> #[trigger] records[i] == CellInstance::of_cell(
                self.board.cell(i),
                self.controls.cell_scale_factor,
                self.controls.cell_offset,
            )
    }

    /// The simulation one frame on: a generation further while it runs, and
    /// as before while it is paused.
    pub open spec fn after_update(self) -> Simulation {
        if self.controls.running {
            Simulation { board: self.board.next(), ..self }
        } else {
            self
        }
    }
}

/// What one frame hands to the renderer: whether a generation passed, and
/// the records of the cells after it.
#[derive(Debug)]
pub struct Frame {
    pub ticked: bool,
    pub records: Vec<CellInstance>,
}

/// The simulation: a grid of `GRID_LINE_SIZE` columns and `GRID_COLUMN_SIZE`
/// rows, the pointer as last reported, and the controls.
#[derive(Debug)]
pub struct State {
    grid: Grid,
    mouse_pos: (i64, i64),
    mouse_left_pressed: bool,
    mouse_right_pressed: bool,
    gui_state: crate::gui::State,
}

impl View for State {
    type V = Simulation;

    closed spec fn view(&self) -> Simulation {
        Simulation {
            board: self.grid@,
            pointer: self.mouse_pos,
            left_pressed: self.mouse_left_pressed,
            right_pressed: self.mouse_right_pressed,
            controls: self.gui_state,
        }
    }
}

impl State {
    /// The grid keeps its invariant.
    pub closed spec fn grid_wf(&self) -> bool {
        self.grid.wf()
    }

    /// The simulation's invariant: its grid is well formed and has the fixed
    /// size.
    pub open spec fn wf(&self) -> bool {
        &&& self.grid_wf()
        &&& self@.board.wf()
        &&& self@.board.width == GRID_LINE_SIZE
        &&& self@.board.height == GRID_COLUMN_SIZE
        &&& self@.board.alive.len() == GRID_CELL_COUNT
    }

    /// The simulation at start-up: every cell dead, the pointer at the
    /// origin, no button held, paused, with the initial scale and spacing.
    pub fn new() -> (state: State)
        ensures
            state.wf(),
            state@ == (Simulation {
                board: Generation::dead(GRID_LINE_SIZE as nat, GRID_COLUMN_SIZE as nat),
                pointer: (0i64, 0i64),
                left_pressed: false,
                right_pressed: false,
                controls: crate::gui::State {
                    running: false,
                    cell_scale_factor: crate::gui::INITIAL_SCALE_FACTOR,
                    cell_offset: crate::gui::INITIAL_OFFSET,
                },
            }),
    {
        let grid = Grid::create(GRID_LINE_SIZE as u32, GRID_COLUMN_SIZE as u32).unwrap();
        State {
            grid,
            mouse_pos: (0, 0),
            mouse_left_pressed: false,
            mouse_right_pressed: false,
            gui_state: crate::gui::State::new(),
        }
    }

    /// The place of column `x`, row `y` in the simulation's grid.
    pub fn cell_idx(x: u32, y: u32) -> (place: usize)
        requires
            x < GRID_LINE_SIZE,
            y < GRID_COLUMN_SIZE,
        ensures
            place == x + y * GRID_LINE_SIZE,
            place < GRID_CELL_COUNT,
    {
        x as usize + y as usize * GRID_LINE_SIZE
    }

    /// The time from one generation to the next, in nanoseconds: the whole
    /// milliseconds of a second shared out among `TICK_PER_SEC` ticks.
    pub fn tick_interval() -> (nanos: u64)
        ensures
            nanos == tick_interval_nanos(),
    {
        1_000u64 / (TICK_PER_SEC as u64) * 1_000_000u64
    }

    /// How long to wait after a tick that took `elapsed` nanoseconds, so that
    /// ticks follow each other no faster than the interval allows: the rest
    /// of the interval, and nothing where the tick took longer.
    pub fn pacing_wait(elapsed: u64) -> (nanos: u64)
        ensures
            nanos == if elapsed < tick_interval_nanos() {
                tick_interval_nanos() - elapsed
            } else {
                0
            },
            elapsed + nanos >= tick_interval_nanos(),
    {
        let interval = State::tick_interval();
        if elapsed < interval {
            interval - elapsed
        } else {
            0
        }
    }

    /// Moves the grid on by one generation, running or paused.
    pub fn tick(&mut self)
        requires
            old(self).wf(),
        ensures
            final(self).wf(),
            final(self)@ == (Simulation { board: old(self)@.board.next(), ..old(self)@ }),
    {
        self.grid.step();
    }

    /// One frame: moves the grid on by one generation while the simulation
    /// runs, and then takes the records for the renderer, so that they show
    /// a whole generation: the new one after a tick, the old one without.
    pub fn update(&mut self) -> (frame: Frame)
        requires
            old(self).wf(),
        ensures
            final(self).wf(),
            final(self)@ == old(self)@.after_update(),
            frame.ticked == old(self)@.controls.running,
            final(self)@.shown_by(frame.records@),
    {
        let ticked = self.gui_state.running;
        if ticked {
            self.tick();
        }
        Frame { ticked, records: self.snapshot() }
    }

    /// Sets every cell dead. Whether the simulation runs stays as it is.
    pub fn reset(&mut self)
        requires
            old(self).wf(),
        ensures
            final(self).wf(),
            final(self)@ == (Simulation {
                board: Generation::dead(old(self)@.board.width, old(self)@.board.height),
                ..old(self)@
            }),
    {
        self.grid.reset_all_dead();
    }

    /// The place of the cell under a screen position in the simulation's
    /// grid, if there is one.
    pub fn cell_index_from_pos(
        pos_x: i64,
        pos_y: i64,
        scale_factor: u16,
        offset: u16,
    ) -> (place: Option<usize>)
        ensures
            match place {
                Some(i) => cell_under(
                    pos_x as int,
                    pos_y as int,
                    scale_factor as int,
                    offset as int,
                    GRID_LINE_SIZE as int,
                    GRID_COLUMN_SIZE as int,
                ) == Some(i as int) && i < GRID_CELL_COUNT,
                None => cell_under(
                    pos_x as int,
                    pos_y as int,
                    scale_factor as int,
                    offset as int,
                    GRID_LINE_SIZE as int,
                    GRID_COLUMN_SIZE as int,
                ) is None,
            },
    {
        cell_index_from_position(
            pos_x,
            pos_y,
            scale_factor,
            offset,
            GRID_LINE_SIZE as u32,
            GRID_COLUMN_SIZE as u32,
        )
    }

    /// Sets the cell under the pointer, where there is one.
    fn paint(&mut self, state: CellState)
        requires
            old(self).wf(),
        ensures
            final(self).wf(),
            final(self)@ == old(self)@.with_pointed(state.alive()),
    {
        let place = State::cell_index_from_pos(
            self.mouse_pos.0,
            self.mouse_pos.1,
            self.gui_state.cell_scale_factor,
            self.gui_state.cell_offset,
        );
        match place {
            Some(idx) => {
                let _ = self.grid.toggle_at(idx, state);
            },
            None => {},
        }
    }

    /// Takes one event from the window. `consumed` says that the controls
    /// took the event for themselves: then nothing changes. Otherwise a held
    /// button paints first, at the position known before the event: the left
    /// one sets the cell under the pointer alive while the simulation is
    /// paused, otherwise the right one sets it dead. Then the event is
    /// applied.
    pub fn input(&mut self, consumed: bool, event: &InputEvent)
        requires
            old(self).wf(),
        ensures
            final(self).wf(),
            final(self)@ == old(self)@.after_input(consumed, *event),
    {
        if consumed {
            return ;
        }
        if self.mouse_left_pressed && !self.gui_state.running {
            self.paint(CellState::Alive);
        } else if self.mouse_right_pressed {
            self.paint(CellState::Dead);
        }
        match event {
            InputEvent::CursorMoved { x, y } => {
                self.mouse_pos = (*x, *y);
            },
            InputEvent::MouseInput { button, pressed } => match button {
                MouseButton::Left => {
                    self.mouse_left_pressed = *pressed;
                },
                MouseButton::Right => {
                    self.mouse_right_pressed = *pressed;
                },
                MouseButton::Other => {},
            },
            InputEvent::KeyPressed { key } => match key {
                Key::R => {
                    self.reset();
                },
                Key::S => {
                    self.gui_state.start();
                },
                Key::P => {
                    self.gui_state.pause();
                },
                Key::Other => {},
            },
            InputEvent::Other => {},
        }
    }

    /// The records from which the renderer draws the grid, at the scale and
    /// spacing that the controls say.
    pub fn snapshot(&self) -> (records: Vec<CellInstance>)
        requires
            self.wf(),
        ensures
            self@.shown_by(records@),
    {
        self.grid.snapshot(self.gui_state.cell_scale_factor, self.gui_state.cell_offset)
    }

    /// Sets the cells of a preset alive; the others stay as they are. The
    /// grid has room for every preset.
    pub fn seed(&mut self, preset: Preset)
        requires
            old(self).wf(),
        ensures
            final(self).wf(),
            final(self)@ == (Simulation {
                board: old(self)@.board.stamped(pattern::preset_cells(preset)),
                ..old(self)@
            }),
            old(self)@.board.contains_all(pattern::preset_cells(preset)),
    {
        let done = self.grid.stamp(&pattern::cells(preset));
        assert(done is Ok);
    }

    /// Sets the cells of the Gosper glider gun alive; the others stay as
    /// they are.
    pub fn gosper_glider_gun(&mut self)
        requires
            old(self).wf(),
        ensures
            final(self).wf(),
            final(self)@ == (Simulation {
                board: old(self)@.board.stamped(pattern::gosper_glider_gun_cells()),
                ..old(self)@
            }),
    {
        self.seed(Preset::GosperGliderGun);
    }

    /// Sets the cells of the three crosses alive; the others stay as they
    /// are.
    pub fn blinkers(&mut self)
        requires
            old(self).wf(),
        ensures
            final(self).wf(),
            final(self)@ == (Simulation {
                board: old(self)@.board.stamped(pattern::blinkers_cells()),
                ..old(self)@
            }),
    {
        self.seed(Preset::Blinkers);
    }

    /// Sets the cells of the pulsar alive; the others stay as they are.
    pub fn pulsars(&mut self)
        requires
            old(self).wf(),
        ensures
            final(self).wf(),
            final(self)@ == (Simulation {
                board: old(self)@.board.stamped(pattern::pulsars_cells()),
                ..old(self)@
            }),
    {
        self.seed(Preset::Pulsars);
    }

    /// Sets alive every cell that `coords` lists by column and row, as
    /// `Grid::stamp` does.
    pub fn stamp(&mut self, coords: &Vec<(u32, u32)>) -> (done: Result<(), GridError>)
        requires
            old(self).wf(),
        ensures
            final(self).wf(),
            final(self)@ == (Simulation {
                board: old(self)@.board.stamped(coords@),
                ..old(self)@
            }),
            match done {
                Ok(_) => old(self)@.board.contains_all(coords@),
                Err(e) => !old(self)@.board.contains_all(coords@) && e == GridError::OutOfBounds,
            },
    {
        self.grid.stamp(coords)
    }

    /// Sets the state of the cell at place `index`, as `Grid::toggle_at`
    /// does: an index past the last cell is refused and nothing changes.
    pub fn toggle_at(&mut self, index: usize, new_state: CellState) -> (done: Result<(), GridError>)
        requires
            old(self).wf(),
        ensures
            final(self).wf(),
            match done {
                Ok(_) => index < old(self)@.board.alive.len() && final(self)@ == (Simulation {
                    board: old(self)@.board.with_state(index as int, new_state.alive()),
                    ..old(self)@
                }),
                Err(e) => index >= old(self)@.board.alive.len() && e == GridError::OutOfBounds
                    && final(self)@ == old(self)@,
            },
    {
        self.grid.toggle_at(index, new_state)
    }

    /// Starts the simulation. Nothing changes where it runs already.
    pub fn start(&mut self)
        requires
            old(self).wf(),
        ensures
            final(self).wf(),
            final(self)@ == (Simulation {
                controls: crate::gui::State { running: true, ..old(self)@.controls },
                ..old(self)@
            }),
    {
        self.gui_state.start();
    }

    /// Pauses the simulation. Nothing changes where it is paused already.
    pub fn pause(&mut self)
        requires
            old(self).wf(),
        ensures
            final(self).wf(),
            final(self)@ == (Simulation {
                controls: crate::gui::State { running: false, ..old(self)@.controls },
                ..old(self)@
            }),
    {
        self.gui_state.pause();
    }

    /// Sets the side of a cell, held to the range that the controls offer.
    pub fn set_cell_scale_factor(&mut self, value: u16)
        requires
            old(self).wf(),
        ensures
            final(self).wf(),
            final(self)@ == (Simulation {
                controls: crate::gui::State {
                    cell_scale_factor: clamped(value, MIN_SCALE_FACTOR, MAX_SCALE_FACTOR),
                    ..old(self)@.controls
                },
                ..old(self)@
            }),
    {
        self.gui_state.set_cell_scale_factor(value);
    }

    /// Sets the spacing between cells, held to the range that the controls
    /// offer.
    pub fn set_cell_offset(&mut self, value: u16)
        requires
            old(self).wf(),
        ensures
            final(self).wf(),
            final(self)@ == (Simulation {
                controls: crate::gui::State {
                    cell_offset: clamped(value, MIN_OFFSET, MAX_OFFSET),
                    ..old(self)@.controls
                },
                ..old(self)@
            }),
    {
        self.gui_state.set_cell_offset(value);
    }

    /// The grid.
    pub fn grid(&self) -> (grid: &Grid)
        requires
            self.wf(),
        ensures
            grid.wf(),
            grid@ == self@.board,
    {
        &self.grid
    }

    /// What the controls say.
    pub fn gui_state(&self) -> (controls: crate::gui::State)
        ensures
            controls == self@.controls,
    {
        self.gui_state
    }

    /// Whether the simulation runs.
    pub fn running(&self) -> (running: bool)
        ensures
            running == self@.controls.running,
    {
        self.gui_state.running
    }

    /// Where the pointer was last seen.
    pub fn mouse_pos(&self) -> (pos: (i64, i64))
        ensures
            pos == self@.pointer,
    {
        self.mouse_pos
    }

    /// Whether the left button is held.
    pub fn mouse_left_pressed(&self) -> (pressed: bool)
        ensures
            pressed == self@.left_pressed,
    {
        self.mouse_left_pressed
    }

    /// Whether the right button is held.
    pub fn mouse_right_pressed(&self) -> (pressed: bool)
        ensures
            pressed == self@.right_pressed,
    {
        self.mouse_right_pressed
    }
}

} // verus!
