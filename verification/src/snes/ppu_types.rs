use vstd::prelude::*;

use crate::snes::background::WindowMaskLogic;

verus! {

/// One OAM entry.
#[derive(Default, Debug, Clone, Copy)]
pub struct Sprite {
    pub x: usize,
    pub y: usize,
    pub tile_index: usize,
    /// 0 or 1, to select the nametable
    pub name_select: usize,
    pub flip_x: bool,
    pub flip_y: bool,
    pub priority: usize,
    pub palette_index: usize,
    pub size_select: usize,
    pub msb_x: bool,
}

/// The mode 7 matrix (a, b, c, d as 8.8 fixed point) and its center.
#[derive(Copy, Clone, Default)]
pub struct Matrix {
    pub a: u16,
    pub b: u16,
    pub c: u16,
    pub d: u16,
    pub center_x: i16,
    pub center_y: i16,
}

/// When the VRAM address moves on after an access.
#[derive(Debug, Copy, Clone)]
pub enum VramIncMode {
    /// Increment after reading the high byte or writing the low byte
    HighReadLowWrite,
    /// Increment after reading the low byte or writing the high byte
    LowReadHighWrite,
}

/// What mode 7 shows outside its 1024x1024 plane when it does not repeat.
#[derive(Copy, Clone, Debug)]
pub enum Mode7Fill {
    Transparent,
    Character,
}

/// The registers of one background layer.
#[derive(Clone, Copy)]
pub struct Background {
    /// 8 (8x8 tiles) or 16 (16x16 tiles)
    pub tile_size: u32,
    pub mosaic: bool,
    pub num_horz_tilemaps: u32,
    pub num_vert_tilemaps: u32,
    pub tilemap_addr: usize,
    pub chr_addr: usize,
    pub h_off: u32,
    pub v_off: u32,
    pub main_screen_enable: bool,
    pub sub_screen_enable: bool,
    pub window_mask_logic: WindowMaskLogic,
    pub windows_enabled_main: bool,
    pub windows_enabled_sub: bool,
    pub window_enabled: [bool; 4],
    pub window_invert: [bool; 4],
    pub color_math_enable: bool,
}

impl Background {
    /// A background after power-on.
    pub open spec fn default_spec() -> Background {
        Background {
            tile_size: 8,
            mosaic: false,
            num_horz_tilemaps: 1,
            num_vert_tilemaps: 1,
            tilemap_addr: 0,
            chr_addr: 0,
            h_off: 0,
            v_off: 0,
            main_screen_enable: false,
            sub_screen_enable: false,
            window_mask_logic: WindowMaskLogic::And,
            windows_enabled_main: false,
            windows_enabled_sub: false,
            window_enabled: [false, false, false, false],
            window_invert: [false, false, false, false],
            color_math_enable: false,
        }
    }

    pub fn default() -> (r: Background)
        ensures
            r == Self::default_spec(),
    {
        Background {
            tile_size: 8,
            mosaic: false,
            num_horz_tilemaps: 1,
            num_vert_tilemaps: 1,
            tilemap_addr: 0,
            chr_addr: 0,
            h_off: 0,
            v_off: 0,
            main_screen_enable: false,
            sub_screen_enable: false,
            window_mask_logic: WindowMaskLogic::And,
            windows_enabled_main: false,
            windows_enabled_sub: false,
            window_enabled: [false, false, false, false],
            window_invert: [false, false, false, false],
            color_math_enable: false,
        }
    }
}

} // verus!
