//! The part of the effect-script support that does not need the Lua
//! runtime: messages to scripts, and the color and LED-map callbacks.
use vstd::prelude::*;

use crate::constants::CANVAS_SIZE;
use crate::hwdevices::RGBA;

verus! {

/// Number of keys that scripts paint.
pub const NUM_KEYS: usize = CANVAS_SIZE;

/// A message to the script's event loop.
#[derive(Clone, Copy, Debug, PartialEq, Eq, Structural)]
pub enum Message {
    Startup,
    Quit(u32),
    Tick(u32),
    KeyDown(u8),
}

impl Message {
    pub open spec fn handler_spec(self) -> Seq<char> {
        match self {
            Message::Startup => "on_startup"@,
            Message::Quit(_) => "on_quit"@,
            Message::Tick(_) => "on_tick"@,
            Message::KeyDown(_) => "on_key_down"@,
        }
    }

    /// The script function that handles the message.
    pub fn handler(&self) -> (r: &'static str)
        ensures
            r@ == self.handler_spec(),
    {
        match self {
            Message::Startup => "on_startup",
            Message::Quit(_) => "on_quit",
            Message::Tick(_) => "on_tick",
            Message::KeyDown(_) => "on_key_down",
        }
    }

    /// The argument that the handler gets, if any.
    pub fn parameter(&self) -> (r: Option<u32>)
        ensures
            r == (match *self {
                Message::Startup => None,
                Message::Quit(p) => Some(p),
                Message::Tick(p) => Some(p),
                Message::KeyDown(k) => Some(k as u32),
            }),
    {
        match self {
            Message::Startup => None,
            Message::Quit(p) => Some(*p),
            Message::Tick(p) => Some(*p),
            Message::KeyDown(k) => Some(*k as u32),
        }
    }
}

/// A color without alpha, as scripts handle it.
#[derive(Clone, Copy, Debug, PartialEq, Eq, Structural)]
pub struct RGB {
    pub r: u8,
    pub g: u8,
    pub b: u8,
}

/// The color that a 32 bit value `0x00RRGGBB` stands for.
pub open spec fn rgb_of(c: u32) -> RGB {
    RGB { r: ((c >> 16) & 0xff) as u8, g: ((c >> 8) & 0xff) as u8, b: (c & 0xff) as u8 }
}

/// Get RGB components of a 32 bits color value.
pub fn color_to_rgb(c: u32) -> (r: (u8, u8, u8))
    ensures
        r == (((c >> 16) & 0xff) as u8, ((c >> 8) & 0xff) as u8, (c & 0xff) as u8),
{
    let r = ((c >> 16) & 0xff) as u8;
    let g = ((c >> 8) & 0xff) as u8;
    let b = (c & 0xff) as u8;
    (r, g, b)
}

/// Convert RGB components to a 32 bits color value.
pub fn rgb_to_color(r: u8, g: u8, b: u8) -> (c: u32)
    ensures
        c == r as int * 65536 + g as int * 256 + b as int,
{
    let rr = r as u32;
    let gg = g as u32;
    let bb = b as u32;
    assert(rr << 16 == rr * 65536) by (bit_vector)
        requires
            rr < 256,
    ;
    assert(gg << 8 == gg * 256) by (bit_vector)
        requires
            gg < 256,
    ;
    (rr << 16) + (gg << 8) + bb
}

/// Splitting a color value built from three components gives the
/// components back.
pub proof fn lemma_rgb_round_trip(r: u8, g: u8, b: u8, c: u32)
    requires
        c == r as int * 65536 + g as int * 256 + b as int,
    ensures
        rgb_of(c) == (RGB { r, g, b }),
{
    let rr = r as u32;
    let gg = g as u32;
    let bb = b as u32;
    assert(c == rr * 65536 + gg * 256 + bb);
    assert(((c >> 16) & 0xff) == rr && ((c >> 8) & 0xff) == gg && (c & 0xff) == bb)
        by (bit_vector)
        requires
            rr < 256,
            gg < 256,
            bb < 256,
            c == rr * 65536 + gg * 256 + bb,
    ;
}

/// Get the number of keys of the managed device.
pub fn get_num_keys() -> (r: usize)
    ensures
        r == NUM_KEYS,
{
    NUM_KEYS
}

/// Get the current color of the key `idx`; no device reports its colors
/// back, so this is always `0`.
pub fn get_key_color(rvdevid: &str, idx: usize) -> (r: u32)
    ensures
        r == 0,
{
    0
}

/// Set the color of the key `idx` of `led_map` to `c`.
pub fn set_key_color(led_map: &mut Vec<RGB>, idx: usize, c: u32)
    requires
        idx < old(led_map)@.len(),
    ensures
        final(led_map)@ == old(led_map)@.update(idx as int, rgb_of(c)),
{
    let (r, g, b) = color_to_rgb(c);
    led_map.set(idx, RGB { r, g, b });
}

/// The LED map that a script's color table sets: every key but the last
/// takes the color of its entry, the last stays black.
pub fn set_color_map(map: &[u32]) -> (r: Vec<RGB>)
    requires
        map@.len() >= NUM_KEYS - 1,
    ensures
        r@ == Seq::new(
            NUM_KEYS as nat,
            |i: int|
                if i < NUM_KEYS - 1 {
                    rgb_of(map@[i])
                } else {
                    RGB { r: 0, g: 0, b: 0 }
                },
        ),
{
    let mut led_map: Vec<RGB> = Vec::new();
    let mut i: usize = 0;
    while i < NUM_KEYS
        invariant
            i <= NUM_KEYS,
            map@.len() >= NUM_KEYS - 1,
            led_map@ =~= Seq::new(
                i as nat,
                |j: int|
                    if j < NUM_KEYS - 1 {
                        rgb_of(map@[j])
                    } else {
                        RGB { r: 0, g: 0, b: 0 }
                    },
            ),
        decreases NUM_KEYS - i,
    {
        if i < NUM_KEYS - 1 {
            let (r, g, b) = color_to_rgb(map[i]);
            led_map.push(RGB { r, g, b });
        } else {
            led_map.push(RGB { r: 0, g: 0, b: 0 });
        }
        i = i + 1;
    }
    led_map
}

/// The canvas for the device that an LED map paints, fully opaque.
pub fn to_canvas(led_map: &[RGB]) -> (r: Vec<RGBA>)
    ensures
        r@ == Seq::new(
            led_map@.len(),
            |i: int| RGBA { r: led_map@[i].r, g: led_map@[i].g, b: led_map@[i].b, a: 0 },
        ),
{
    let mut canvas: Vec<RGBA> = Vec::new();
    let mut i: usize = 0;
    while i < led_map.len()
        invariant
            i <= led_map@.len(),
            canvas@ =~= Seq::new(
                i as nat,
                |j: int| RGBA { r: led_map@[j].r, g: led_map@[j].g, b: led_map@[j].b, a: 0 },
            ),
        decreases led_map@.len() - i,
    {
        let c = led_map[i];
        canvas.push(RGBA { r: c.r, g: c.g, b: c.b, a: 0 });
        i = i + 1;
    }
    canvas
}

} // verus!
