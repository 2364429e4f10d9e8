use crate::uniforms::{le_bytes, push_le_bytes};
use vstd::prelude::*;

verus! {

/// Number of key codes the keyboard bitset holds.
pub const NUM_KEYCODES: usize = 256;

/// Number of layers of each feedback texture.
pub const PASS_LAYERS: u32 = 4;

/// Whether key `k` is down in the bitset `keys` (bit `k % 8` of byte `k / 8`,
/// lowest bit first).
pub open spec fn key_bit(keys: Seq<u8>, k: int) -> bool {
    (keys[k / 8] >> ((k % 8) as u8)) & 1u8 == 1u8
}

/// Groups needed to cover `n` items with groups of `g`; no groups for `g == 0`.
pub open spec fn groups_for(n: u32, g: u32) -> int {
    if g == 0 {
        0
    } else {
        n as int / g as int + if n as int % g as int != 0 {
            1int
        } else {
            0int
        }
    }
}

/// Number of groups of `g` items that cover `n` items.
pub fn div_ceil(n: u32, g: u32) -> (r: u32)
    ensures
        r == groups_for(n, g),
{
    if g == 0 {
        0
    } else if n % g != 0 {
        assert(n / g < n || g == 1) by (nonlinear_arith)
            requires
                g > 0,
                n % g != 0,
        {
        }
        n / g + 1
    } else {
        n / g
    }
}

/// The dispatch grid for a stage of workgroup size `wg` over a viewport of
/// `width` by `height`.
pub open spec fn grid_for(width: u32, height: u32, wg: Seq<u32>) -> Seq<int> {
    seq![groups_for(width, wg[0]), groups_for(height, wg[1]), 1int]
}

pub fn dispatch_grid(width: u32, height: u32, wg: [u32; 3]) -> (r: [u32; 3])
    ensures
        r@.map_values(|v: u32| v as int) == grid_for(width, height, wg@),
{
    let r = [div_ceil(width, wg[0]), div_ceil(height, wg[1]), 1];
    assert(r@.map_values(|v: u32| v as int) =~= grid_for(width, height, wg@));
    r
}

/// Bytes of the time uniform: the frame counter, then the elapsed seconds.
pub open spec fn time_bytes(frame: u32, elapsed_bits: u32) -> Seq<u8> {
    le_bytes(frame) + le_bytes(elapsed_bits)
}

/// Bytes of the mouse uniform: the position, then 1 or 0 for the click.
pub open spec fn mouse_bytes(x: u32, y: u32, click: bool) -> Seq<u8> {
    le_bytes(x) + le_bytes(y) + le_bytes(
        if click {
            1u32
        } else {
            0u32
        },
    )
}

/// Per-frame uniform state and the viewport: frame counter, elapsed time
/// (bits of a 32-bit float), pointer, keyboard bitset and feedback precision.
pub struct FrameState {
    pub width: u32,
    pub height: u32,
    pub frame: u32,
    pub elapsed_bits: u32,
    pub mouse_x: u32,
    pub mouse_y: u32,
    pub click: bool,
    pub keys: Vec<u8>,
    pub pass_f32: bool,
}

impl FrameState {
    pub open spec fn wf(&self) -> bool {
        self.keys@.len() * 8 == NUM_KEYCODES
    }

    pub open spec fn keys_view(&self) -> Seq<u8> {
        self.keys@
    }

    pub open spec fn key_down(&self, k: int) -> bool {
        key_bit(self.keys_view(), k)
    }

    pub fn new(width: u32, height: u32) -> (r: FrameState)
        ensures
            r.wf(),
            r.width == width,
            r.height == height,
            r.frame == 0,
            r.elapsed_bits == 0,
            r.mouse_x == 0 && r.mouse_y == 0 && !r.click,
            !r.pass_f32,
            forall|k: int| 0 <= k < NUM_KEYCODES ==> !r.key_down(k),
    {
        let keys: Vec<u8> = vec![0u8; NUM_KEYCODES / 8];
        let r = FrameState {
            width,
            height,
            frame: 0,
            elapsed_bits: 0,
            mouse_x: 0,
            mouse_y: 0,
            click: false,
            keys,
            pass_f32: false,
        };
        assert forall|k: int| 0 <= k < NUM_KEYCODES implies !r.key_down(k) by {
            let b: u8 = 0;
            let s: u8 = (k % 8) as u8;
            assert((b >> s) & 1u8 == 0u8) by (bit_vector)
                requires
                    b == 0u8,
            ;
        }
        r
    }

    /// Sets whether key `keycode` is down; the other keys keep their state.
    pub fn set_key(&mut self, keycode: usize, down: bool)
        requires
            old(self).wf(),
            keycode < NUM_KEYCODES,
        ensures
            final(self).wf(),
            final(self).key_down(keycode as int) == down,
            forall|k: int|
                0 <= k < NUM_KEYCODES && k != keycode ==> final(self).key_down(k) == old(
                    self,
                ).key_down(k),
            final(self).width == old(self).width && final(self).height == old(self).height,
            final(self).frame == old(self).frame,
            final(self).elapsed_bits == old(self).elapsed_bits,
            final(self).mouse_x == old(self).mouse_x && final(self).mouse_y == old(self).mouse_y,
            final(self).click == old(self).click && final(self).pass_f32 == old(self).pass_f32,
    {
        let byte = keycode / 8;
        let bit: u8 = (keycode % 8) as u8;
        let b = self.keys[byte];
        let nb: u8 = if down {
            b | (1u8 << bit)
        } else {
            b & !(1u8 << bit)
        };
        self.keys.set(byte, nb);
        assert(((nb >> bit) & 1u8 == 1u8) == down) by (bit_vector)
            requires
                bit < 8u8,
                nb == if down {
                    b | (1u8 << bit)
                } else {
                    b & !(1u8 << bit)
                },
        ;
        assert forall|k: int| 0 <= k < NUM_KEYCODES && k != keycode implies final(self).key_down(k)
            == old(self).key_down(k) by {
            if k / 8 == byte as int {
                let s: u8 = (k % 8) as u8;
                assert(s != bit);
                assert((nb >> s) & 1u8 == (b >> s) & 1u8) by (bit_vector)
                    requires
                        bit < 8u8,
                        s < 8u8,
                        s != bit,
                        nb == if down {
                            b | (1u8 << bit)
                        } else {
                            b & !(1u8 << bit)
                        },
                ;
            }
        }
    }

    /// Starts the viewport anew at `width` by `height`: the frame counter
    /// goes back to 0.
    pub fn resize(&mut self, width: u32, height: u32)
        ensures
            *final(self) == (FrameState { width, height, frame: 0, ..*old(self) }),
    {
        self.width = width;
        self.height = height;
        self.frame = 0;
    }

    /// Contents of the time uniform buffer.
    pub fn time_bytes(&self) -> (r: Vec<u8>)
        ensures
            r@ == time_bytes(self.frame, self.elapsed_bits),
    {
        let mut out: Vec<u8> = Vec::new();
        push_le_bytes(&mut out, self.frame);
        push_le_bytes(&mut out, self.elapsed_bits);
        assert(out@ =~= time_bytes(self.frame, self.elapsed_bits));
        out
    }

    /// Contents of the mouse uniform buffer.
    pub fn mouse_bytes(&self) -> (r: Vec<u8>)
        ensures
            r@ == mouse_bytes(self.mouse_x, self.mouse_y, self.click),
    {
        let mut out: Vec<u8> = Vec::new();
        push_le_bytes(&mut out, self.mouse_x);
        push_le_bytes(&mut out, self.mouse_y);
        push_le_bytes(&mut out, if self.click { 1 } else { 0 });
        assert(out@ =~= mouse_bytes(self.mouse_x, self.mouse_y, self.click));
        out
    }

    /// Contents of the keyboard uniform buffer: the bitset.
    pub fn key_bytes(&self) -> (r: Vec<u8>)
        ensures
            r@ == self.keys_view(),
    {
        self.keys.clone()
    }
}

/// Size in bytes of the feedback storage buffer: four 32-bit words per pixel.
pub open spec fn storage_size(width: u32, height: u32) -> int {
    16 * (width as int * height as int)
}

/// The storage buffer size for a viewport, where it fits in 64 bits.
pub fn storage_bytes(width: u32, height: u32) -> (r: Option<u64>)
    ensures
        r matches Some(v) ==> v == storage_size(width, height),
        r is None <==> storage_size(width, height) > u64::MAX,
{
    assert((width as int) * (height as int) <= 0xffff_fffe_0000_0001) by (nonlinear_arith)
        requires
            width <= 0xffff_ffffu32,
            height <= 0xffff_ffffu32,
    ;
    let wh: u64 = (width as u64) * (height as u64);
    wh.checked_mul(16)
}

} // verus!
