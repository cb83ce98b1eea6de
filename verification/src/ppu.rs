use vstd::prelude::*;

use crate::bus::Bus;

verus! {

pub const CONTROLLER: usize = 0x2000;

pub const MASK: usize = 0x2001;

pub const STATUS: usize = 0x2002;

pub const OAM_ADDRESS: usize = 0x2003;

pub const OAM_DATA: usize = 0x2004;

pub const SCROLL: usize = 0x2005;

pub const ADDRESS: usize = 0x2006;

pub const DATA: usize = 0x2007;

pub const OAM_DMA: usize = 0x4014;

/// Width of the screen in pixels.
pub const SCREEN_WIDTH: usize = 256;

/// Height of the screen in pixels.
pub const SCREEN_HEIGHT: usize = 240;

/// The picture unit, as far as the processor sees it: registers on the bus.
pub struct PPU {}

impl PPU {
    pub fn new() -> PPU {
        PPU {  }
    }

    /// The control register.
    pub fn controller(&self, bus: &Bus) -> (value: u8)
        ensures
            value == bus@[CONTROLLER as int],
    {
        bus.read(CONTROLLER)
    }

    /// The mask register.
    pub fn mask(&self, bus: &Bus) -> (value: u8)
        ensures
            value == bus@[MASK as int],
    {
        bus.read(MASK)
    }

    /// The scroll register.
    pub fn scroll(&self, bus: &Bus) -> (value: u8)
        ensures
            value == bus@[SCROLL as int],
    {
        bus.read(SCROLL)
    }

    /// The status register.
    pub fn status(&self, bus: &Bus) -> (value: u8)
        ensures
            value == bus@[STATUS as int],
    {
        bus.read(STATUS)
    }

    /// The address register of the sprite memory.
    pub fn oam_address(&self, bus: &Bus) -> (value: u8)
        ensures
            value == bus@[OAM_ADDRESS as int],
    {
        bus.read(OAM_ADDRESS)
    }

    /// The data register of the sprite memory.
    pub fn oam_data(&self, bus: &Bus) -> (value: u8)
        ensures
            value == bus@[OAM_DATA as int],
    {
        bus.read(OAM_DATA)
    }
}

/// The pixels of one frame, column by column. The view is the grid:
/// `screen@[x][y]` is the colour at column `x` and row `y`.
pub struct Screen {
    grid: Vec<Vec<u8>>,
    width: usize,
    height: usize,
}

impl View for Screen {
    type V = Seq<Seq<u8>>;

    closed spec fn view(&self) -> Seq<Seq<u8>> {
        Seq::new(self.grid@.len(), |x: int| self.grid@[x]@)
    }
}

impl Screen {
    /// The number of columns.
    pub closed spec fn width(&self) -> usize {
        self.width
    }

    /// The number of rows.
    pub closed spec fn height(&self) -> usize {
        self.height
    }

    /// A screen of 256 columns and 240 rows whose every pixel is 0.
    pub fn new() -> (screen: Screen)
        ensures
            screen.width() == SCREEN_WIDTH,
            screen.height() == SCREEN_HEIGHT,
            screen@.len() == SCREEN_WIDTH,
            forall|x: int| 0 <= x < SCREEN_WIDTH ==> (#[trigger] screen@[x]).len() == SCREEN_HEIGHT,
            forall|x: int, y: int|
                0 <= x < SCREEN_WIDTH && 0 <= y < SCREEN_HEIGHT ==> #[trigger] screen@[x][y] == 0,
    {
        let mut grid: Vec<Vec<u8>> = Vec::new();
        let mut x: usize = 0;
        while x < SCREEN_WIDTH
            invariant
                x <= SCREEN_WIDTH,
                grid@.len() == x,
                forall|i: int| 0 <= i < x ==> (#[trigger] grid@[i])@.len() == SCREEN_HEIGHT,
                forall|i: int, y: int|
                    0 <= i < x && 0 <= y < SCREEN_HEIGHT ==> #[trigger] grid@[i]@[y] == 0,
            decreases SCREEN_WIDTH - x,
        {
            grid.push(vec![0u8; SCREEN_HEIGHT]);
            x = x + 1;
        }
        Screen { grid, width: SCREEN_WIDTH, height: SCREEN_HEIGHT }
    }
}

} // verus!
