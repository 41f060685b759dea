//! Framebuffer set-up through the mailbox's property channel with a raw
//! message buffer, response codes, colours, and a test gradient.

use vstd::prelude::*;
use vstd::string::StringSliceAdditionalSpecFns;
use crate::text::{push_str, text_of};

verus! {

pub const PERIPHERAL_ADDRESS: u32 = 0x3F00_0000;
pub const MAILBOX_READ: u32 = 0x3F00_B880;
pub const MAILBOX_STATUS: u32 = 0x3F00_B898;
pub const MAILBOX_WRITE: u32 = 0x3F00_B8A0;
pub const MAILBOX_FULL: u32 = 0x8000_0000;
pub const MAILBOX_EMPTY: u32 = 0x4000_0000;
pub const PROPERTY_CHANNEL: u8 = 8;
pub const RESPONSE_SUCCESS: u32 = 0x8000_0000;
pub const RESPONSE_ERROR: u32 = 0x8000_0001;

/// The firmware's verdict on a property message.
#[derive(Clone, Copy, Debug)]
pub enum PostmanErrorCodes {
    MalformedStruct,
    PostmanSuccess,
    PostmanError,
    UndefinedCode,
}

impl PostmanErrorCodes {
    /// The response word that stands for each verdict.
    pub fn code(&self) -> (r: u32)
        ensures
            r == match *self {
                PostmanErrorCodes::MalformedStruct => 0u32,
                PostmanErrorCodes::PostmanSuccess => 0x8000_0000,
                PostmanErrorCodes::PostmanError => 0x8000_0001,
                PostmanErrorCodes::UndefinedCode => 0xFFFF_FFFF,
            },
    {
        match self {
            PostmanErrorCodes::MalformedStruct => 0x0,
            PostmanErrorCodes::PostmanSuccess => 0x8000_0000,
            PostmanErrorCodes::PostmanError => 0x8000_0001,
            PostmanErrorCodes::UndefinedCode => 0xFFFF_FFFF,
        }
    }
}

/// Verdict of a response word: 0 (the request flag left as sent), success,
/// error, or anything else.
pub open spec fn response_verdict(rc: u32) -> PostmanErrorCodes {
    if rc == 0 {
        PostmanErrorCodes::MalformedStruct
    } else if rc == RESPONSE_SUCCESS {
        PostmanErrorCodes::PostmanSuccess
    } else if rc == RESPONSE_ERROR {
        PostmanErrorCodes::PostmanError
    } else {
        PostmanErrorCodes::UndefinedCode
    }
}

pub fn rctoe(rc: u32) -> (e: PostmanErrorCodes)
    ensures
        e == response_verdict(rc),
{
    match rc {
        0 => PostmanErrorCodes::MalformedStruct,
        RESPONSE_SUCCESS => PostmanErrorCodes::PostmanSuccess,
        RESPONSE_ERROR => PostmanErrorCodes::PostmanError,
        _ => PostmanErrorCodes::UndefinedCode,
    }
}

/// The text `debug_rc` prints: the message and a description of the verdict.
pub open spec fn debug_rc_text(msg: &str, rc: PostmanErrorCodes) -> Seq<u8> {
    msg.spec_bytes() + match rc {
        PostmanErrorCodes::MalformedStruct => "Malformed Struct.\n".spec_bytes(),
        PostmanErrorCodes::PostmanSuccess => "Success!\n".spec_bytes(),
        PostmanErrorCodes::PostmanError => "Error :(.\n".spec_bytes(),
        PostmanErrorCodes::UndefinedCode => "Unknown error code.\n".spec_bytes(),
    }
}

pub fn debug_rc(msg: &str, rc: PostmanErrorCodes) -> (out: Vec<u8>)
    ensures
        out@ == debug_rc_text(msg, rc),
{
    let mut out = text_of(msg);
    match rc {
        PostmanErrorCodes::MalformedStruct => push_str(&mut out, "Malformed Struct.\n"),
        PostmanErrorCodes::PostmanSuccess => push_str(&mut out, "Success!\n"),
        PostmanErrorCodes::PostmanError => push_str(&mut out, "Error :(.\n"),
        PostmanErrorCodes::UndefinedCode => push_str(&mut out, "Unknown error code.\n"),
    }
    out
}

/// The message buffer with its first words replaced.
pub open spec fn with_words(buf: Seq<u32>, words: Seq<u32>) -> Seq<u32> {
    words + buf.subrange(words.len() as int, buf.len() as int)
}

fn write_words(buf: &mut [u32; 256], words: &[u32])
    requires
        words@.len() <= 256,
    ensures
        final(buf)@ == with_words(old(buf)@, words@),
{
    let mut i: usize = 0;
    while i < words.len()
        invariant
            words@.len() <= 256,
            i <= words@.len(),
            buf@.len() == 256,
            forall|k: int| 0 <= k < i ==> buf@[k] == words@[k],
            forall|k: int| i <= k < 256 ==> buf@[k] == old(buf)@[k],
        decreases words@.len() - i,
    {
        buf[i] = words[i];
        i = i + 1;
    }
    assert(buf@ =~= with_words(old(buf)@, words@));
}

/// Words of the request for the display size (the reply puts the width
/// and height in words 5 and 6).
pub open spec fn display_size_words() -> Seq<u32> {
    seq![32u32, 0, 0x40003, 8, 8, 0, 0, 0]
}

/// Words of the request that sets 32 bits per pixel.
pub open spec fn bit_depth_words() -> Seq<u32> {
    seq![24u32, 0, 0x48005, 4, 4, 32, 0]
}

/// Words of the request that allocates the framebuffer, aligned to 16
/// (the reply puts its address in word 5).
pub open spec fn allocate_words() -> Seq<u32> {
    seq![32u32, 0, 0x40001, 4, 8, 16, 0, 0]
}

/// Words of the request for the pitch (the reply puts it in word 5).
pub open spec fn pitch_words() -> Seq<u32> {
    seq![21u32, 0, 0x0004_0008, 0, 4, 0, 0]
}

pub fn write_display_size_request(buf: &mut [u32; 256])
    ensures
        final(buf)@ == with_words(old(buf)@, display_size_words()),
{
    let w: [u32; 8] = [32, 0, 0x40003, 8, 8, 0, 0, 0];
    assert(w@ =~= display_size_words());
    write_words(buf, w.as_slice());
}

pub fn write_bit_depth_request(buf: &mut [u32; 256])
    ensures
        final(buf)@ == with_words(old(buf)@, bit_depth_words()),
{
    let w: [u32; 7] = [24, 0, 0x48005, 4, 4, 32, 0];
    assert(w@ =~= bit_depth_words());
    write_words(buf, w.as_slice());
}

pub fn write_allocate_request(buf: &mut [u32; 256])
    ensures
        final(buf)@ == with_words(old(buf)@, allocate_words()),
{
    let w: [u32; 8] = [32, 0, 0x40001, 4, 8, 16, 0, 0];
    assert(w@ =~= allocate_words());
    write_words(buf, w.as_slice());
}

pub fn write_pitch_request(buf: &mut [u32; 256])
    ensures
        final(buf)@ == with_words(old(buf)@, pitch_words()),
{
    let w: [u32; 7] = [21, 0, 0x0004_0008, 0, 4, 0, 0];
    assert(w@ =~= pitch_words());
    write_words(buf, w.as_slice());
}

/// The framebuffer address the set-up keeps: the reply's bus address with
/// its two alias bits cleared.
pub fn framebuffer_address(reply: u32) -> (r: u32)
    ensures
        r == reply & 0x3FFF_FFFF,
{
    reply & 0x3FFF_FFFF
}

/// What the framebuffer set-up has learnt so far, one stage per property
/// message: each stage's message has been sent and its reply is in the
/// buffer when the step for that stage runs.
#[derive(Clone, Copy, Debug, PartialEq, Eq, Structural)]
pub enum FbInitStage {
    /// The display-size request is out.
    DisplaySize,
    /// The bit-depth request is out; the display is `width` by `height`.
    BitDepth { width: u32, height: u32 },
    /// The allocation request is out.
    Allocate { width: u32, height: u32 },
    /// The pitch request is out; the framebuffer is at bus address `ptr`.
    Pitch { width: u32, height: u32, ptr: u32 },
    /// Every reply has been read.
    Done(FbSetup),
}

/// The framebuffer the set-up ends with.
#[derive(Clone, Copy, Debug, PartialEq, Eq, Structural)]
pub struct FbSetup {
    /// Its address, alias bits cleared.
    pub addr: u32,
    pub width: u32,
    pub height: u32,
    /// Bytes per line.
    pub pitch: u32,
}

/// Starts the set-up: the buffer holds the display-size request, which is
/// the first message to send.
pub fn fb_init_start(buf: &mut [u32; 256]) -> (stage: FbInitStage)
    ensures
        stage == FbInitStage::DisplaySize,
        final(buf)@ == with_words(old(buf)@, display_size_words()),
{
    write_display_size_request(buf);
    FbInitStage::DisplaySize
}

/// The stage that follows `stage` once its reply is in `reply`.
pub open spec fn fb_next_stage(stage: FbInitStage, reply: Seq<u32>) -> FbInitStage {
    match stage {
        FbInitStage::DisplaySize => FbInitStage::BitDepth { width: reply[5], height: reply[6] },
        FbInitStage::BitDepth { width, height } => FbInitStage::Allocate { width, height },
        FbInitStage::Allocate { width, height } => FbInitStage::Pitch { width, height, ptr: reply[5] },
        FbInitStage::Pitch { width, height, ptr } => FbInitStage::Done(
            FbSetup { addr: ptr & 0x3FFF_FFFF, width, height, pitch: reply[5] },
        ),
        FbInitStage::Done(setup) => FbInitStage::Done(setup),
    }
}

/// The request the buffer holds after the step from `stage`, if any.
pub open spec fn fb_next_request(stage: FbInitStage) -> Option<Seq<u32>> {
    match stage {
        FbInitStage::DisplaySize => Some(bit_depth_words()),
        FbInitStage::BitDepth { .. } => Some(allocate_words()),
        FbInitStage::Allocate { .. } => Some(pitch_words()),
        _ => None,
    }
}

/// One step of the set-up: reads what the reply to the stage's message
/// holds and, unless the set-up is over, writes the next request into the
/// buffer.
pub fn fb_init_step(stage: FbInitStage, buf: &mut [u32; 256]) -> (next: FbInitStage)
    ensures
        next == fb_next_stage(stage, old(buf)@),
        match fb_next_request(stage) {
            Some(words) => final(buf)@ == with_words(old(buf)@, words),
            None => final(buf)@ == old(buf)@,
        },
{
    match stage {
        FbInitStage::DisplaySize => {
            let width = buf[5];
            let height = buf[6];
            write_bit_depth_request(buf);
            FbInitStage::BitDepth { width, height }
        },
        FbInitStage::BitDepth { width, height } => {
            write_allocate_request(buf);
            FbInitStage::Allocate { width, height }
        },
        FbInitStage::Allocate { width, height } => {
            let ptr = buf[5];
            write_pitch_request(buf);
            FbInitStage::Pitch { width, height, ptr }
        },
        FbInitStage::Pitch { width, height, ptr } => {
            let pitch = buf[5];
            FbInitStage::Done(FbSetup { addr: framebuffer_address(ptr), width, height, pitch })
        },
        FbInitStage::Done(setup) => FbInitStage::Done(setup),
    }
}

/// Four steps from the start, one per reply, end the set-up with the
/// display size of the first reply, the address of the third with its alias
/// bits cleared, and the pitch of the fourth; further steps change nothing.
pub proof fn lemma_fb_init_collects(r1: Seq<u32>, r2: Seq<u32>, r3: Seq<u32>, r4: Seq<u32>)
    ensures
        fb_next_stage(
            fb_next_stage(
                fb_next_stage(fb_next_stage(FbInitStage::DisplaySize, r1), r2),
                r3,
            ),
            r4,
        ) == FbInitStage::Done(
            FbSetup { addr: r3[5] & 0x3FFF_FFFF, width: r1[5], height: r1[6], pitch: r4[5] },
        ),
        forall|setup: FbSetup, r: Seq<u32>|
            #[trigger] fb_next_stage(FbInitStage::Done(setup), r) == FbInitStage::Done(setup),
{
}

/// A colour with red in the low byte, then green, then blue.
pub open spec fn rgb24_spec(r: u8, g: u8, b: u8) -> u32 {
    (b * 0x1_0000 + g * 0x100 + r) as u32
}

/// A colour with red in the low byte, then green, blue and alpha.
pub open spec fn rgba32_spec(r: u8, g: u8, b: u8, a: u8) -> u32 {
    (a * 0x100_0000 + b * 0x1_0000 + g * 0x100 + r) as u32
}

pub fn rgb24(r: u8, g: u8, b: u8) -> (c: u32)
    ensures
        c == rgb24_spec(r, g, b),
{
    assert((b as u32) << 16u32 | (g as u32) << 8u32 | r as u32 == (b as u32) * 0x1_0000 + (g as u32)
        * 0x100 + (r as u32)) by (bit_vector);
    (b as u32) << 16u32 | (g as u32) << 8u32 | r as u32
}

pub fn rgba32(r: u8, g: u8, b: u8, a: u8) -> (c: u32)
    ensures
        c == rgba32_spec(r, g, b, a),
{
    assert((a as u32) << 24u32 | (b as u32) << 16u32 | (g as u32) << 8u32 | (r as u32) == (a as u32)
        * 0x100_0000 + (b as u32) * 0x1_0000 + (g as u32) * 0x100 + (r as u32)) by (bit_vector);
    (a as u32) << 24u32 | (b as u32) << 16u32 | (g as u32) << 8u32 | (r as u32)
}

/// Byte address of pixel (x, y) in a framebuffer at `addr` with `pitch`
/// pixels per line and `bit_depth` bytes per pixel.
pub open spec fn draw_pixel_address(addr: u32, x: u32, y: u32, pitch: u32, bit_depth: u32) -> int {
    addr + (x + y * pitch) * bit_depth
}

/// The address `draw_pixel` writes, computed in 32 bits; the pixel index
/// and the address must fit.
pub fn pixel_address(addr: u32, x: u32, y: u32, pitch: u32, bit_depth: u32) -> (r: u32)
    requires
        x + y * pitch <= u32::MAX,
        draw_pixel_address(addr, x, y, pitch, bit_depth) <= u32::MAX,
    ensures
        r == draw_pixel_address(addr, x, y, pitch, bit_depth),
{
    let pixel_offset: u32 = (x + (y * pitch)) * bit_depth;
    addr + pixel_offset
}

// ---------------------------------------------------------------------
// The test gradient.

/// Colour channels and their directions while a gradient is drawn, and the
/// colour of the next pixel.
pub struct GradientState {
    pub r: i32,
    pub g: i32,
    pub b: i32,
    pub r_step: i32,
    pub g_step: i32,
    pub color: u32,
}

pub open spec fn gradient_start() -> GradientState {
    GradientState { r: 0x80, g: 0, b: 0, r_step: 1, g_step: 1, color: rgb24_spec(0x80, 0, 0) }
}

/// After a pixel: red moves one step, except that when it would pass 255
/// its direction turns and it stays; the next colour is computed.
pub open spec fn pixel_advance(s: GradientState) -> GradientState {
    let t = if s.r + 1 == 256 {
        GradientState { r_step: -s.r_step as i32, ..s }
    } else {
        GradientState { r: (s.r + s.r_step) as i32, ..s }
    };
    GradientState { color: rgb24_spec(t.r as u8, t.g as u8, t.b as u8), ..t }
}

/// After a row: green moves one step, except that when it would reach 256
/// or 0 its direction turns and it stays. The colour is not recomputed.
pub open spec fn row_advance(s: GradientState) -> GradientState {
    if s.g + s.g_step == 256 || s.g + s.g_step == 0 {
        GradientState { g_step: -s.g_step as i32, ..s }
    } else {
        GradientState { g: (s.g + s.g_step) as i32, ..s }
    }
}

pub open spec fn after_pixels(s: GradientState, n: nat) -> GradientState
    decreases n,
{
    if n == 0 {
        s
    } else {
        pixel_advance(after_pixels(s, (n - 1) as nat))
    }
}

/// The state at the start of row `h` of a gradient `w` pixels wide.
pub open spec fn after_rows(w: nat, h: nat) -> GradientState
    decreases h,
{
    if h == 0 {
        gradient_start()
    } else {
        row_advance(after_pixels(after_rows(w, (h - 1) as nat), w))
    }
}

/// Colour of pixel `i` of row `j`.
pub open spec fn gradient_pixel(w: nat, j: nat, i: nat) -> u32 {
    after_pixels(after_rows(w, j), i).color
}

/// The states a gradient passes through: red between 0x80 and 255 and
/// turning only at 255, green between 0 and 255 (and at least 1 while
/// falling), blue 0.
pub open spec fn gradient_inv(s: GradientState) -> bool {
    &&& 0x80 <= s.r <= 255
    &&& s.r_step == 1 || s.r_step == -1
    &&& s.r_step == -1 ==> s.r == 255
    &&& s.b == 0
    &&& (s.g_step == 1 && 0 <= s.g <= 255) || (s.g_step == -1 && 1 <= s.g <= 255)
}

/// Every step keeps the gradient's channels in range, so each is a byte.
pub proof fn lemma_gradient_inv(s: GradientState)
    requires
        gradient_inv(s),
    ensures
        gradient_inv(pixel_advance(s)),
        gradient_inv(row_advance(s)),
        gradient_inv(gradient_start()),
        pixel_advance(s).r >= s.r,
{
}

proof fn lemma_after_pixels_inv(s: GradientState, n: nat)
    requires
        gradient_inv(s),
    ensures
        gradient_inv(after_pixels(s, n)),
    decreases n,
{
    if n > 0 {
        lemma_after_pixels_inv(s, (n - 1) as nat);
        lemma_gradient_inv(after_pixels(s, (n - 1) as nat));
    }
}

proof fn lemma_after_rows_inv(w: nat, h: nat)
    ensures
        gradient_inv(after_rows(w, h)),
    decreases h,
{
    if h > 0 {
        lemma_after_rows_inv(w, (h - 1) as nat);
        lemma_after_pixels_inv(after_rows(w, (h - 1) as nat), w);
        lemma_gradient_inv(after_pixels(after_rows(w, (h - 1) as nat), w));
    }
}

/// Red rises by one per pixel from 0x80 and then stays at 255: after `n`
/// pixels it is the smaller of 0x80 + n and 255.
pub proof fn lemma_gradient_red(n: nat)
    ensures
        after_pixels(gradient_start(), n).r == if 0x80 + n < 255 { 0x80 + n } else { 255 },
    decreases n,
{
    if n > 0 {
        lemma_gradient_red((n - 1) as nat);
        lemma_after_pixels_inv(gradient_start(), (n - 1) as nat);
    }
}

fn pixel_advance_exec(s: &mut GradientState)
    requires
        gradient_inv(*old(s)),
    ensures
        *final(s) == pixel_advance(*old(s)),
{
    if (s.r + 1) == 256 {
        s.r_step = -s.r_step;
    } else {
        s.r = s.r + s.r_step;
    }
    s.color = rgb24(s.r as u8, s.g as u8, s.b as u8);
}

fn row_advance_exec(s: &mut GradientState)
    requires
        gradient_inv(*old(s)),
    ensures
        *final(s) == row_advance(*old(s)),
{
    if (s.g + s.g_step) == 256 || (s.g + s.g_step) == 0 {
        s.g_step = -s.g_step;
    } else {
        s.g = s.g + s.g_step;
    }
}

/// The colours of a test gradient, row by row: `height` rows of `width`
/// pixels, drawn left to right and top to bottom.
pub fn gradient_rows(width: u32, height: u32) -> (rows: Vec<Vec<u32>>)
    ensures
        rows@.len() == height,
        forall|j: int| 0 <= j < height ==> #[trigger] rows@[j]@.len() == width,
        forall|j: int, i: int|
            0 <= j < height && 0 <= i < width ==> #[trigger] rows@[j]@[i] == gradient_pixel(
                width as nat,
                j as nat,
                i as nat,
            ),
{
    let mut s = GradientState { r: 0x80, g: 0, b: 0, r_step: 1, g_step: 1, color: rgb24(0x80, 0, 0) };
    let mut rows: Vec<Vec<u32>> = Vec::new();
    let mut j: u32 = 0;
    proof {
        lemma_after_rows_inv(width as nat, 0);
    }
    while j < height
        invariant
            j <= height,
            s == after_rows(width as nat, j as nat),
            rows@.len() == j,
            forall|jj: int| 0 <= jj < j ==> #[trigger] rows@[jj]@.len() == width,
            forall|jj: int, i: int|
                0 <= jj < j && 0 <= i < width ==> #[trigger] rows@[jj]@[i] == gradient_pixel(
                    width as nat,
                    jj as nat,
                    i as nat,
                ),
        decreases height - j,
    {
        let ghost row_start = s;
        proof {
            lemma_after_rows_inv(width as nat, j as nat);
        }
        let mut row: Vec<u32> = Vec::new();
        let mut i: u32 = 0;
        while i < width
            invariant
                i <= width,
                row_start == after_rows(width as nat, j as nat),
                gradient_inv(row_start),
                s == after_pixels(row_start, i as nat),
                row@.len() == i,
                forall|k: int| 0 <= k < i ==> #[trigger] row@[k] == after_pixels(row_start, k as nat).color,
            decreases width - i,
        {
            proof {
                lemma_after_pixels_inv(row_start, i as nat);
            }
            row.push(s.color);
            pixel_advance_exec(&mut s);
            i = i + 1;
        }
        proof {
            lemma_after_pixels_inv(row_start, width as nat);
        }
        row_advance_exec(&mut s);
        rows.push(row);
        j = j + 1;
    }
    rows
}

/// Number of pixels from `start` up to `end`.
pub open spec fn span(start: u32, end: u32) -> u32 {
    if start < end {
        (end - start) as u32
    } else {
        0
    }
}

/// The test gradient over the region from (x, y) to the display's edge:
/// row `j` of the result is display row `y + j`, and its pixel `i` is
/// display column `x + i`. The colours run as in [`gradient_rows`] over
/// the region's width.
pub fn test_gradient_render(x: u32, y: u32, phy_width: u32, phy_height: u32) -> (rows: Vec<Vec<u32>>)
    ensures
        rows@.len() == span(y, phy_height),
        forall|j: int| 0 <= j < span(y, phy_height) ==> #[trigger] rows@[j]@.len() == span(x, phy_width),
        forall|j: int, i: int|
            0 <= j < span(y, phy_height) && 0 <= i < span(x, phy_width) ==> #[trigger] rows@[j]@[i]
                == gradient_pixel(span(x, phy_width) as nat, j as nat, i as nat),
{
    let w: u32 = if x < phy_width { phy_width - x } else { 0 };
    let h: u32 = if y < phy_height { phy_height - y } else { 0 };
    gradient_rows(w, h)
}

} // verus!
