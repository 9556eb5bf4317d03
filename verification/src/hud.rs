//! Heads-up-display arithmetic: bitmap-font digit layout driven by a
//! numeric value, and the integrity readout's threshold state machine.
//!
//! A counter is rendered from a fixed pool of digit sprites: digit `i` of
//! the value's decimal rendering gets a horizontal offset and a
//! sprite-sheet index, and leftover sprites are hidden.  Offsets are in
//! integer layout units; with tile sizes given in half-pixel units (as the
//! shipped art is) every offset is exact.

use vstd::prelude::*;

verus! {

/// Largest tile dimension (width, height, spacing) accepted, in layout
/// units.
pub const MAX_TILE_DIM: i64 = 1048576;

/// Largest sprite-sheet grid extent (columns, rows) accepted.
pub const MAX_FONT_GRID: usize = 4096;

/// Most digit sprites a single readout can hold.
pub const MAX_DIGIT_SLOTS: usize = 64;

/// Value the integrity readout starts at.
pub const SYSTEM_INTEGRITY_INITIAL_VALUE: u8 = 100;

/// Value the memory-cache readout starts at.
pub const MEMORY_CACHE_INITIAL_VALUE: u8 = 9;

/// Value the protection readout starts at.
pub const SYSTEM_PROTECTION_INITIAL_VALUE: u8 = 0;

/// Sprite-sheet geometry of a bitmap digit font: tile extent, grid
/// columns, which row of the sheet to draw from, and the horizontal gap
/// between digits.
#[derive(Clone, Copy, Debug, PartialEq, Eq, Structural)]
pub struct BitmapNumberConfig {
    pub tile_width: i64,
    pub tile_height: i64,
    pub columns: usize,
    pub row: usize,
    pub font_spacing: i64,
}

/// Width of a row of `count` digit tiles with their gaps.
pub open spec fn font_row_width(cfg: BitmapNumberConfig, count: int) -> int {
    count * cfg.tile_width + (count - 1) * cfg.font_spacing
}

/// Offset of digit `i` in a row of `count` digits centered about x = 0:
/// the row's left edge plus `i` tile steps.  The halving floors; with
/// even tile sizes (half-pixel units) it is exact.
pub open spec fn digit_translation_x(cfg: BitmapNumberConfig, count: int, i: int) -> int {
    i * (cfg.tile_width + cfg.font_spacing) - font_row_width(cfg, count) / 2
}

impl BitmapNumberConfig {
    pub open spec fn wf(self) -> bool {
        &&& 0 < self.tile_width <= MAX_TILE_DIM
        &&& 0 < self.tile_height <= MAX_TILE_DIM
        &&& 0 <= self.font_spacing <= MAX_TILE_DIM
        &&& 1 <= self.columns <= MAX_FONT_GRID
        &&& self.row < MAX_FONT_GRID
    }

    /// Width of a row of `count` digit tiles.
    pub fn width(&self, count: usize) -> (w: i64)
        requires
            self.wf(),
            1 <= count <= MAX_DIGIT_SLOTS,
        ensures
            w == font_row_width(*self, count as int),
            0 < w <= 134217728,
    {
        proof {
            assert(0 < count * self.tile_width + (count - 1) * self.font_spacing <= 134217728)
                by (nonlinear_arith)
                requires
                    1 <= count <= MAX_DIGIT_SLOTS,
                    0 < self.tile_width <= MAX_TILE_DIM,
                    0 <= self.font_spacing <= MAX_TILE_DIM,
            ;
        }
        let n = count as i64;
        n * self.tile_width + (n - 1) * self.font_spacing
    }

    /// Sprite-sheet index of `digit` in this font's row.
    pub fn sprite_index(&self, digit: u8) -> (idx: usize)
        requires
            self.wf(),
            digit < 10,
        ensures
            idx == self.row * self.columns + digit,
    {
        proof {
            assert(self.row * self.columns <= MAX_FONT_GRID * MAX_FONT_GRID) by (nonlinear_arith)
                requires
                    self.row < MAX_FONT_GRID,
                    1 <= self.columns <= MAX_FONT_GRID,
            ;
        }
        self.row * self.columns + (digit as usize)
    }

    /// Offset of digit `index` in a centered row of `count` digits.
    pub fn translation_x(&self, count: usize, index: usize) -> (x: i64)
        requires
            self.wf(),
            1 <= count <= MAX_DIGIT_SLOTS,
            index < count,
        ensures
            x == digit_translation_x(*self, count as int, index as int),
    {
        let w = self.width(count);
        let half = ((w as u64) / 2) as i64;
        proof {
            assert((index as int) * (self.tile_width + self.font_spacing) <= 134217728)
                by (nonlinear_arith)
                requires
                    0 <= index < MAX_DIGIT_SLOTS,
                    0 < self.tile_width <= MAX_TILE_DIM,
                    0 <= self.font_spacing <= MAX_TILE_DIM,
            ;
        }
        (index as i64) * (self.tile_width + self.font_spacing) - half
    }
}

/// The digit font the memory-cache readout uses: 12 by 23 pixel tiles
/// with 1 pixel of spacing, in half-pixel units, 10 digits per sheet row.
pub fn memory_cache_font() -> (cfg: BitmapNumberConfig)
    ensures
        cfg == (BitmapNumberConfig {
            tile_width: 24,
            tile_height: 46,
            columns: 10,
            row: 0,
            font_spacing: 2,
        }),
        cfg.wf(),
{
    BitmapNumberConfig { tile_width: 24, tile_height: 46, columns: 10, row: 0, font_spacing: 2 }
}

/// The digit font the protection readout uses: 12 by 18 pixel tiles with
/// 1 pixel of spacing, in half-pixel units, 10 digits per sheet row.
pub fn system_protection_font() -> (cfg: BitmapNumberConfig)
    ensures
        cfg == (BitmapNumberConfig {
            tile_width: 24,
            tile_height: 36,
            columns: 10,
            row: 0,
            font_spacing: 2,
        }),
        cfg.wf(),
{
    BitmapNumberConfig { tile_width: 24, tile_height: 36, columns: 10, row: 0, font_spacing: 2 }
}

/// A component whose numeric value a bitmap-font readout renders.
pub trait BitmapNumberValue {
    /// The value the readout shows.
    spec fn spec_value(&self) -> u8;

    fn get_value(&self) -> (v: u8)
        ensures
            v == self.spec_value(),
    ;
}

/// The memory-cache counter.
#[derive(Clone, Copy, Debug, PartialEq, Eq, Structural)]
pub struct MemoryCacheValue(pub u8);

impl BitmapNumberValue for MemoryCacheValue {
    open spec fn spec_value(&self) -> u8 {
        self.0
    }

    fn get_value(&self) -> (v: u8) {
        self.0
    }
}

/// The protection counter.
#[derive(Clone, Copy, Debug, PartialEq, Eq, Structural)]
pub struct SystemProtectionValue(pub u8);

impl BitmapNumberValue for SystemProtectionValue {
    open spec fn spec_value(&self) -> u8 {
        self.0
    }

    fn get_value(&self) -> (v: u8) {
        self.0
    }
}

/// The integrity counter.
#[derive(Clone, Copy, Debug, PartialEq, Eq, Structural)]
pub struct SystemIntegrityValue(pub u8);

/// How many decimal digits the readout shows for `v`: one to three.
pub open spec fn decimal_digit_count(v: u8) -> int {
    if v < 10 {
        1
    } else if v < 100 {
        2
    } else {
        3
    }
}

/// Digit `i` (from the left, 0-based) of `v`'s decimal rendering.
pub open spec fn decimal_digit(v: u8, i: int) -> int {
    let n = decimal_digit_count(v);
    if n - 1 - i == 0 {
        (v as int) % 10
    } else if n - 1 - i == 1 {
        ((v as int) / 10) % 10
    } else {
        ((v as int) / 100) % 10
    }
}

/// One rendered digit sprite: its horizontal offset, its sprite-sheet
/// index, and whether it is shown at all.
#[derive(Clone, Copy, Debug, PartialEq, Eq, Structural)]
pub struct DigitCell {
    pub translation_x: i64,
    pub sprite_index: usize,
    pub visible: bool,
}

/// Recompute a readout's digit sprites for `value` over a pool of
/// `slots` sprites: digit `i` of the decimal rendering becomes a visible
/// cell with its offset and sprite index; leftover sprites are hidden.
pub fn update_bitmap_number_digits(config: &BitmapNumberConfig, value: u8, slots: usize) -> (cells:
    Vec<DigitCell>)
    requires
        config.wf(),
        slots <= MAX_DIGIT_SLOTS,
    ensures
        cells@.len() == slots,
        forall|i: int|
            #![trigger cells@[i]]
            0 <= i < slots && i < decimal_digit_count(value) ==> {
                &&& cells@[i].visible
                &&& cells@[i].translation_x == digit_translation_x(
                    *config,
                    decimal_digit_count(value),
                    i,
                )
                &&& cells@[i].sprite_index == config.row * config.columns + decimal_digit(value, i)
            },
        forall|i: int|
            #![trigger cells@[i]]
            decimal_digit_count(value) <= i < slots ==> !cells@[i].visible,
{
    let mut digits: Vec<u8> = Vec::new();
    if value >= 100 {
        digits.push(value / 100);
    }
    if value >= 10 {
        digits.push((value / 10) % 10);
    }
    digits.push(value % 10);
    let count = digits.len();
    proof {
        assert(count == decimal_digit_count(value));
        assert(forall|i: int|
            #![trigger digits@[i]]
            0 <= i < count ==> digits@[i] < 10 && digits@[i] == decimal_digit(value, i));
    }
    let mut cells: Vec<DigitCell> = Vec::new();
    let mut i: usize = 0;
    while i < slots
        invariant
            config.wf(),
            slots <= MAX_DIGIT_SLOTS,
            1 <= count <= 3,
            count == decimal_digit_count(value),
            count == digits@.len(),
            forall|j: int|
                #![trigger digits@[j]]
                0 <= j < count ==> digits@[j] < 10 && digits@[j] == decimal_digit(value, j),
            i <= slots,
            cells@.len() == i,
            forall|j: int|
                #![trigger cells@[j]]
                0 <= j < i && j < count ==> {
                    &&& cells@[j].visible
                    &&& cells@[j].translation_x == digit_translation_x(*config, count as int, j)
                    &&& cells@[j].sprite_index == config.row * config.columns + decimal_digit(
                        value,
                        j,
                    )
                },
            forall|j: int| #![trigger cells@[j]] count <= j < i ==> !cells@[j].visible,
        decreases slots - i,
    {
        if i < count {
            let x = config.translation_x(count, i);
            let idx = config.sprite_index(digits[i]);
            cells.push(DigitCell { translation_x: x, sprite_index: idx, visible: true });
        } else {
            cells.push(DigitCell { translation_x: 0, sprite_index: 0, visible: false });
        }
        i += 1;
    }
    cells
}

/// The integrity readout's display bands.
#[derive(Clone, Copy, Debug, PartialEq, Eq, Hash, Structural)]
pub enum SystemIntegrityState {
    Absolute,
    Reliable,
    Vulnerable,
    Hacked,
}

impl Default for SystemIntegrityState {
    /// The readout starts in the top band.
    fn default() -> (s: SystemIntegrityState)
        ensures
            s == SystemIntegrityState::Absolute,
    {
        SystemIntegrityState::Absolute
    }
}

/// Threshold bands of the integrity readout: 51 to 100 is `Absolute`, 26
/// to 50 `Reliable`, 1 to 25 `Vulnerable`, 0 `Hacked`.  A value above 100
/// falls in no band and leaves the state as it is.
pub fn update_system_integrity_state(value: u8, current: SystemIntegrityState) -> (next:
    SystemIntegrityState)
    ensures
        51 <= value <= 100 ==> next == SystemIntegrityState::Absolute,
        26 <= value <= 50 ==> next == SystemIntegrityState::Reliable,
        1 <= value <= 25 ==> next == SystemIntegrityState::Vulnerable,
        value == 0 ==> next == SystemIntegrityState::Hacked,
        value > 100 ==> next == current,
{
    if value == 0 {
        SystemIntegrityState::Hacked
    } else if value <= 25 {
        SystemIntegrityState::Vulnerable
    } else if value <= 50 {
        SystemIntegrityState::Reliable
    } else if value <= 100 {
        SystemIntegrityState::Absolute
    } else {
        current
    }
}

/// Which sprite-sheet row the integrity digits draw from per band: the
/// two lowest bands share the warning row.
pub open spec fn integrity_font_row(state: SystemIntegrityState) -> usize {
    match state {
        SystemIntegrityState::Absolute => 0usize,
        SystemIntegrityState::Reliable => 1usize,
        SystemIntegrityState::Vulnerable => 2usize,
        SystemIntegrityState::Hacked => 2usize,
    }
}

/// The digit font the integrity readout uses: 6 by 11 pixel tiles with 1
/// pixel of spacing, in half-pixel units, 10 digits per sheet row.
pub open spec fn integrity_font_config(state: SystemIntegrityState) -> BitmapNumberConfig {
    BitmapNumberConfig {
        tile_width: 12,
        tile_height: 22,
        columns: 10,
        row: integrity_font_row(state),
        font_spacing: 2,
    }
}

/// Recompute the integrity readout's digit sprites: the band picks the
/// sheet row, the value picks the digits.
pub fn update_system_integrity_digits(value: u8, state: SystemIntegrityState, slots: usize) -> (cells:
    Vec<DigitCell>)
    requires
        slots <= MAX_DIGIT_SLOTS,
    ensures
        cells@.len() == slots,
        forall|i: int|
            #![trigger cells@[i]]
            0 <= i < slots && i < decimal_digit_count(value) ==> {
                &&& cells@[i].visible
                &&& cells@[i].translation_x == digit_translation_x(
                    integrity_font_config(state),
                    decimal_digit_count(value),
                    i,
                )
                &&& cells@[i].sprite_index == integrity_font_row(state) * 10 + decimal_digit(
                    value,
                    i,
                )
            },
        forall|i: int|
            #![trigger cells@[i]]
            decimal_digit_count(value) <= i < slots ==> !cells@[i].visible,
{
    let row: usize = match state {
        SystemIntegrityState::Absolute => 0,
        SystemIntegrityState::Reliable => 1,
        SystemIntegrityState::Vulnerable => 2,
        SystemIntegrityState::Hacked => 2,
    };
    let config = BitmapNumberConfig {
        tile_width: 12,
        tile_height: 22,
        columns: 10,
        row,
        font_spacing: 2,
    };
    update_bitmap_number_digits(&config, value, slots)
}

/// Which background sprite the integrity readout shows per band: the two
/// lowest bands share the warning background.
pub open spec fn integrity_background_index(state: SystemIntegrityState) -> int {
    match state {
        SystemIntegrityState::Absolute => 0,
        SystemIntegrityState::Reliable => 1,
        SystemIntegrityState::Vulnerable => 2,
        SystemIntegrityState::Hacked => 2,
    }
}

/// Pick the integrity background sprite for the current band.
pub fn update_system_integrity_background(state: SystemIntegrityState) -> (idx: usize)
    ensures
        idx == integrity_background_index(state),
{
    match state {
        SystemIntegrityState::Absolute => 0,
        SystemIntegrityState::Reliable => 1,
        SystemIntegrityState::Vulnerable => 2,
        SystemIntegrityState::Hacked => 2,
    }
}

/// First and last frame of a looping sprite animation.
#[derive(Clone, Copy, Debug, PartialEq, Eq, Structural)]
pub struct AnimationIndices {
    pub first: usize,
    pub last: usize,
}

/// The fan animation frames per band: the fan spins slower as integrity
/// drops, and stands still once the system is hacked.
pub open spec fn integrity_fan_indices(state: SystemIntegrityState) -> AnimationIndices {
    match state {
        SystemIntegrityState::Absolute => AnimationIndices { first: 0usize, last: 2usize },
        SystemIntegrityState::Reliable => AnimationIndices { first: 3usize, last: 5usize },
        SystemIntegrityState::Vulnerable => AnimationIndices { first: 6usize, last: 12usize },
        SystemIntegrityState::Hacked => AnimationIndices { first: 12usize, last: 12usize },
    }
}

/// Pick the fan's animation frame range for the current band.
pub fn update_system_integrity_fan(state: SystemIntegrityState) -> (a: AnimationIndices)
    ensures
        a == integrity_fan_indices(state),
        a.first <= a.last,
{
    match state {
        SystemIntegrityState::Absolute => AnimationIndices { first: 0, last: 2 },
        SystemIntegrityState::Reliable => AnimationIndices { first: 3, last: 5 },
        SystemIntegrityState::Vulnerable => AnimationIndices { first: 6, last: 12 },
        SystemIntegrityState::Hacked => AnimationIndices { first: 12, last: 12 },
    }
}

} // verus!
