pub mod utils;
pub mod math;
pub mod dma;
pub mod background;
pub mod input_port;
pub mod window;
pub mod color_math;
pub mod timer;
pub mod cartridge;
pub mod ppu_types;
pub mod ppu;
pub mod ppu_oam;
pub mod ppu_bg_regs;
pub mod ppu_regs;
pub mod ppu_io;
pub mod console;
pub mod ppu_timing;
pub mod cpu;
pub mod machine;
pub mod voice;
pub mod ppu_render;
pub mod ppu_compose;
pub mod ppu_sprites;
pub mod brr;
pub mod ppu_line;
