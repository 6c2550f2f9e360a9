//! VI: the video interface. Tracks the framebuffer description the guest
//! programs (format, origin, width) plus line timing registers.

use vstd::prelude::*;

verus! {

#[derive(Debug, Clone, Copy, PartialEq, Eq, Structural)]
pub enum FramebufferFormat {
    Blank,
    RGBA32Bit,
    RGBA16Bit,
}

#[derive(Debug, Clone, Copy, PartialEq, Eq, Structural)]
pub struct FramebufferDescription {
    pub format: FramebufferFormat,
    pub origin: u32,
    pub width: u32,
    pub height: u32,
}

#[derive(Debug, Clone, Copy, PartialEq, Eq, Structural)]
pub struct RegTiming {
    pub burst_start: u16,
    pub vsync_width: u8,
    pub burst_width: u8,
    pub hsync_width: u8,
}

impl Default for RegTiming {
    fn default() -> (r: RegTiming)
        ensures
            r == (RegTiming { burst_start: 0, vsync_width: 0, burst_width: 0, hsync_width: 0 }),
    {
        RegTiming { burst_start: 0, vsync_width: 0, burst_width: 0, hsync_width: 0 }
    }
}

/// The packed timing register split into its fields.
pub open spec fn spec_timing_from(value: u32) -> RegTiming {
    RegTiming {
        burst_start: ((value >> 20) & 0x3ff) as u16,
        vsync_width: ((value >> 16) & 0xf) as u8,
        burst_width: ((value >> 8) & 0xff) as u8,
        hsync_width: (value & 0xff) as u8,
    }
}

impl RegTiming {
    pub fn from_u32(value: u32) -> (r: RegTiming)
        ensures
            r == spec_timing_from(value),
    {
        RegTiming {
            burst_start: ((value >> 20) & 0x3ff) as u16,
            vsync_width: ((value >> 16) & 0xf) as u8,
            burst_width: ((value >> 8) & 0xff) as u8,
            hsync_width: (value & 0xff) as u8,
        }
    }
}

#[derive(Debug, Clone, Copy, PartialEq, Eq, Structural)]
pub struct VideoInterface {
    pub framebuffer: FramebufferDescription,
    pub current_line: u32,
    pub tick_counter: u32,

    pub interrupt_half_line: u32,
    pub timing_reg: RegTiming,

    /// [9:0] lines per field.
    pub v_sync_reg: u32,
    /// [20:16] 5-bit PAL pattern, [11:0] line duration in quarter pixels.
    pub h_sync_reg: u32,

    pub active_video_start: u32,
    pub active_video_end: u32,
}

/// The framebuffer description the scan-out uses: present exactly when a
/// width has been programmed and the format is not blank.
pub open spec fn spec_framebuffer_description(vi: VideoInterface) -> Option<
    FramebufferDescription,
> {
    if vi.framebuffer.width == 0 {
        None
    } else if vi.framebuffer.format is Blank {
        None
    } else {
        Some(vi.framebuffer)
    }
}

/// One line-timing tick: after 548 ticks the line counter advances, wrapping
/// at the programmed lines-per-field count; the result says whether this tick
/// completed the second-to-last line of a field (the scan-out point).
pub open spec fn spec_vi_step(vi: VideoInterface) -> (VideoInterface, bool) {
    let ticks = (vi.tick_counter + 1) as u32;
    if ticks == 548 {
        let line = (vi.current_line + 1) as u32;
        let lines = vi.v_sync_reg & 0x3ff;
        if lines > 0 && line == (lines - 1) as u32 {
            (VideoInterface { current_line: line, tick_counter: 0, ..vi }, true)
        } else if line >= lines {
            (VideoInterface { current_line: 0, tick_counter: 0, ..vi }, false)
        } else {
            (VideoInterface { current_line: line, tick_counter: 0, ..vi }, false)
        }
    } else {
        (VideoInterface { tick_counter: ticks, ..vi }, false)
    }
}

/// A status write: the low two bits pick the pixel format (0 blank, 2
/// RGBA16, 3 RGBA32); value 1 is reserved and leaves the format alone, as
/// does the rest of the register.
pub open spec fn spec_vi_write_status(vi: VideoInterface, value: u32) -> VideoInterface {
    VideoInterface {
        framebuffer: FramebufferDescription {
            format: if value & 3 == 0 {
                FramebufferFormat::Blank
            } else if value & 3 == 2 {
                FramebufferFormat::RGBA16Bit
            } else if value & 3 == 3 {
                FramebufferFormat::RGBA32Bit
            } else {
                vi.framebuffer.format
            },
            ..vi.framebuffer
        },
        ..vi
    }
}

/// An origin write: the framebuffer base, masked to the 16 MiB bus window.
pub open spec fn spec_vi_write_origin(vi: VideoInterface, value: u32) -> VideoInterface {
    VideoInterface {
        framebuffer: FramebufferDescription { origin: value & 0x00ff_ffff, ..vi.framebuffer },
        ..vi
    }
}

/// A width write: the 12-bit width in pixels; the height is derived as three
/// quarters of the width (the 4:3 frame this core assumes).
pub open spec fn spec_vi_write_width(vi: VideoInterface, value: u32) -> VideoInterface {
    VideoInterface {
        framebuffer: FramebufferDescription {
            width: value & 0x0fff,
            height: ((value & 0x0fff) * 3 / 4) as u32,
            ..vi.framebuffer
        },
        ..vi
    }
}

/// An interrupt-line write: the 10-bit half line.
pub open spec fn spec_vi_write_intr(vi: VideoInterface, value: u32) -> VideoInterface {
    VideoInterface { interrupt_half_line: value & 0x3ff, ..vi }
}

/// A horizontal-start write: active video start in the high halfword, end in
/// the low, both 10 bits.
pub open spec fn spec_vi_write_h_start(vi: VideoInterface, value: u32) -> VideoInterface {
    VideoInterface {
        active_video_start: (value >> 16) & 0x3ff,
        active_video_end: value & 0x3ff,
        ..vi
    }
}

impl VideoInterface {
    pub fn new() -> (r: VideoInterface)
        ensures
            r == (VideoInterface {
                framebuffer: FramebufferDescription {
                    format: FramebufferFormat::Blank,
                    origin: 0,
                    width: 0,
                    height: 0,
                },
                current_line: 0,
                tick_counter: 0,
                interrupt_half_line: 0,
                timing_reg: RegTiming {
                    burst_start: 0,
                    vsync_width: 0,
                    burst_width: 0,
                    hsync_width: 0,
                },
                v_sync_reg: 0,
                h_sync_reg: 0,
                active_video_start: 0,
                active_video_end: 0,
            }),
    {
        VideoInterface {
            framebuffer: FramebufferDescription {
                format: FramebufferFormat::Blank,
                origin: 0,
                width: 0,
                height: 0,
            },
            current_line: 0,
            tick_counter: 0,

            interrupt_half_line: 0,
            timing_reg: Default::default(),

            v_sync_reg: 0,
            h_sync_reg: 0,

            active_video_start: 0,
            active_video_end: 0,
        }
    }

    /// Advances the line timing by one tick and reports whether the
    /// framebuffer may be scanned out now (see `spec_vi_step`).
    pub fn step(&mut self) -> (scan_out: bool)
        requires
            old(self).tick_counter < 548,
            old(self).current_line < 0x400,
        ensures
            (*final(self), scan_out) == spec_vi_step(*old(self)),
            final(self).tick_counter < 548,
            final(self).current_line < 0x400,
    {
        self.tick_counter = self.tick_counter + 1;
        if self.tick_counter == 548 {
            let line = self.current_line + 1;
            self.current_line = line;
            self.tick_counter = 0;

            let lines = self.v_sync_reg & 0x3ff;
            proof {
                let v = self.v_sync_reg;
                assert(v & 0x3ff <= 0x3ff) by (bit_vector);
            }
            if lines > 0 && line == lines - 1 {
                return true;
            }
            if line >= lines {
                self.current_line = 0;
            }
        }
        false
    }

    /// See `spec_framebuffer_description`.
    pub fn framebuffer_description(&self) -> (r: Option<FramebufferDescription>)
        ensures
            r == spec_framebuffer_description(*self),
    {
        if self.framebuffer.width == 0 {
            None
        } else {
            match self.framebuffer.format {
                FramebufferFormat::Blank => None,
                _ => Some(self.framebuffer),
            }
        }
    }

    /// See `spec_vi_write_status`.
    pub fn write_status_reg(&mut self, value: u32)
        ensures
            *final(self) == spec_vi_write_status(*old(self), value),
    {
        let sel = value & 3;
        if sel == 0 {
            self.framebuffer.format = FramebufferFormat::Blank;
        } else if sel == 2 {
            self.framebuffer.format = FramebufferFormat::RGBA16Bit;
        } else if sel == 3 {
            self.framebuffer.format = FramebufferFormat::RGBA32Bit;
        }
    }

    /// See `spec_vi_write_origin`.
    pub fn write_origin_reg(&mut self, value: u32)
        ensures
            *final(self) == spec_vi_write_origin(*old(self), value),
    {
        self.framebuffer.origin = value & 0x00ff_ffff;
    }

    /// See `spec_vi_write_width`.
    pub fn write_width_reg(&mut self, value: u32)
        ensures
            *final(self) == spec_vi_write_width(*old(self), value),
    {
        let w = value & 0x0fff;
        assert(value & 0x0fff <= 0x0fff) by (bit_vector);
        self.framebuffer.width = w;
        self.framebuffer.height = w * 3 / 4;
    }

    pub fn read_intr_reg(&self) -> (r: u32)
        ensures
            r == self.interrupt_half_line,
    {
        self.interrupt_half_line
    }

    /// See `spec_vi_write_intr`.
    pub fn write_intr_reg(&mut self, value: u32)
        ensures
            *final(self) == spec_vi_write_intr(*old(self), value),
    {
        self.interrupt_half_line = value & 0x3ff;
    }

    pub fn read_current_reg(&self) -> (r: u32)
        ensures
            r == self.current_line,
    {
        self.current_line
    }

    /// On hardware this acknowledges the VI interrupt; interrupts are not
    /// modelled, so the value is discarded.
    pub fn write_current_reg(&mut self, value: u32)
        ensures
            *final(self) == *old(self),
    {
        let _ = value;
    }

    pub fn write_timing_reg(&mut self, value: u32)
        ensures
            *final(self) == (VideoInterface { timing_reg: spec_timing_from(value), ..*old(self) }),
    {
        self.timing_reg = RegTiming::from_u32(value);
    }

    pub fn write_v_sync_reg(&mut self, value: u32)
        ensures
            *final(self) == (VideoInterface { v_sync_reg: value, ..*old(self) }),
    {
        self.v_sync_reg = value;
    }

    pub fn write_h_sync_reg(&mut self, value: u32)
        ensures
            *final(self) == (VideoInterface { h_sync_reg: value, ..*old(self) }),
    {
        self.h_sync_reg = value;
    }

    /// Accepted and discarded; sync leap timing is not modelled.
    pub fn write_h_sync_leap_reg(&mut self, value: u32)
        ensures
            *final(self) == *old(self),
    {
        let _ = value;
    }

    pub fn read_h_start_reg(&self) -> (r: u32)
        ensures
            r == ((self.active_video_start << 16) | self.active_video_end) as u32,
    {
        (self.active_video_start << 16) | self.active_video_end
    }

    /// See `spec_vi_write_h_start`.
    pub fn write_h_start_reg(&mut self, value: u32)
        ensures
            *final(self) == spec_vi_write_h_start(*old(self), value),
    {
        self.active_video_start = (value >> 16) & 0x3ff;
        self.active_video_end = value & 0x3ff;
    }

    /// Accepted and discarded; vertical video start is not modelled.
    pub fn write_v_start_reg(&mut self, value: u32)
        ensures
            *final(self) == *old(self),
    {
        let _ = value;
    }

    /// Accepted and discarded; vertical burst timing is not modelled.
    pub fn write_v_burst_reg(&mut self, value: u32)
        ensures
            *final(self) == *old(self),
    {
        let _ = value;
    }

    /// Accepted and discarded; horizontal scaling is not modelled.
    pub fn write_x_scale_reg(&mut self, value: u32)
        ensures
            *final(self) == *old(self),
    {
        let _ = value;
    }

    /// Accepted and discarded; vertical scaling is not modelled.
    pub fn write_y_scale_reg(&mut self, value: u32)
        ensures
            *final(self) == *old(self),
    {
        let _ = value;
    }
}

} // verus!
