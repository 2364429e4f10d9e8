use crate::uniforms::{struct_fields, CustomUniforms};
use vstd::prelude::*;
use vstd::string::*;

verus! {

/// Type aliases and the fixed uniform structs.
pub const HEADER: &'static str = "
            alias int = i32;
            alias uint = u32;
            alias float = f32;

            alias int2 = vec2<i32>;
            alias int3 = vec3<i32>;
            alias int4 = vec4<i32>;
            alias uint2 = vec2<u32>;
            alias uint3 = vec3<u32>;
            alias uint4 = vec4<u32>;
            alias float2 = vec2<f32>;
            alias float3 = vec3<f32>;
            alias float4 = vec4<f32>;

            struct Time { frame: uint, elapsed: float };
            struct Mouse { pos: uint2, click: int };
        ";

pub const CUSTOM_OPEN: &'static str = "struct Custom {";

pub const FIELD_TYPE: &'static str = ": float,";

pub const CUSTOM_CLOSE: &'static str = "};@group(0) @binding(0) var<uniform> custom: Custom;";

/// Bindings up to the format of the feedback texture that is written.
pub const BINDINGS_HEAD: &'static str = "
            @group(0) @binding(1) var<uniform> time: Time;
            @group(0) @binding(2) var<uniform> mouse: Mouse;
            @group(0) @binding(3) var<uniform> _keyboard: array<vec4<u32>,2>;
            @group(0) @binding(4) var screen: texture_storage_2d<rgba16float,write>;
            @group(0) @binding(5) var<storage,read_write> atomic_storage: array<atomic<i32>>;
            @group(0) @binding(6) var pass_in: texture_2d_array<f32>;
            @group(0) @binding(7) var pass_out: texture_storage_2d_array<";

/// Bindings after the format of the feedback texture that is written.
pub const BINDINGS_TAIL: &'static str = ",write>;
            @group(0) @binding(8) var nearest: sampler;
            @group(0) @binding(9) var bilinear: sampler;
            @group(0) @binding(10) var channel0: texture_2d<f32>;
            @group(0) @binding(11) var channel1: texture_2d<f32>;
        ";

/// The helper that tests a key of the keyboard bitset.
pub const KEY_DOWN_FN: &'static str = "
            fn keyDown(keycode: uint) -> bool {
                return ((_keyboard[keycode / 128u][(keycode % 128u) / 32u] >> (keycode % 32u)) & 1u) == 1u;
            }
        ";

pub const FORMAT_F32: &'static str = "rgba32float";

pub const FORMAT_F16: &'static str = "rgba16float";

/// Texel format of the feedback textures.
pub open spec fn pass_format(pass_f32: bool) -> Seq<char> {
    if pass_f32 {
        FORMAT_F32@
    } else {
        FORMAT_F16@
    }
}

/// One `name: float,` member per field, in field order.
pub open spec fn field_decls(f: Seq<(Seq<char>, u32)>) -> Seq<char>
    decreases f.len(),
{
    if f.len() == 0 {
        Seq::empty()
    } else {
        field_decls(f.drop_last()) + f.last().0 + FIELD_TYPE@
    }
}

/// The header put before every shader, for the given custom parameters and
/// feedback precision.
pub open spec fn prelude_text(custom: Seq<(Seq<char>, u32)>, pass_f32: bool) -> Seq<char> {
    HEADER@ + CUSTOM_OPEN@ + field_decls(struct_fields(custom)) + CUSTOM_CLOSE@ + BINDINGS_HEAD@
        + pass_format(pass_f32) + BINDINGS_TAIL@ + KEY_DOWN_FN@
}

/// Builds the header put before every shader.
pub fn prelude(custom: &CustomUniforms, pass_f32: bool) -> (r: String)
    ensures
        r@ == prelude_text(custom@, pass_f32),
{
    let mut s = String::from_str(HEADER);
    s.append(CUSTOM_OPEN);
    let ghost base = s@;
    let ghost f = struct_fields(custom@);
    let n = custom.field_count();
    let mut i: usize = 0;
    while i < n
        invariant
            n == f.len(),
            f == struct_fields(custom@),
            i <= n,
            s@ == base + field_decls(f.subrange(0, i as int)),
        decreases n - i,
    {
        let name = custom.field_name(i);
        s.append(name.as_str());
        s.append(FIELD_TYPE);
        assert(f.subrange(0, i + 1 as int).drop_last() =~= f.subrange(0, i as int));
        i = i + 1;
    }
    assert(f.subrange(0, n as int) =~= f);
    s.append(CUSTOM_CLOSE);
    s.append(BINDINGS_HEAD);
    if pass_f32 {
        s.append(FORMAT_F32);
    } else {
        s.append(FORMAT_F16);
    }
    s.append(BINDINGS_TAIL);
    s.append(KEY_DOWN_FN);
    s
}

/// Number of line breaks in `s`.
pub open spec fn newlines(s: Seq<char>) -> nat
    decreases s.len(),
{
    if s.len() == 0 {
        0
    } else {
        newlines(s.drop_last()) + if s.last() == '\n' {
            1nat
        } else {
            0nat
        }
    }
}

/// Counts the line breaks in `s`.
pub fn count_newlines(s: &str) -> (r: usize)
    ensures
        r == newlines(s@),
{
    let n = s.unicode_len();
    let mut i: usize = 0;
    let mut count: usize = 0;
    while i < n
        invariant
            n == s@.len(),
            i <= n,
            count == newlines(s@.subrange(0, i as int)),
            count <= i,
        decreases n - i,
    {
        assert(s@.subrange(0, i + 1 as int).drop_last() =~= s@.subrange(0, i as int));
        if s.get_char(i) == '\n' {
            count = count + 1;
        }
        i = i + 1;
    }
    assert(s@.subrange(0, n as int) =~= s@);
    count
}

/// A row of the assembled source, as a row of the user's text: rows inside
/// the prelude go to 0.
pub open spec fn user_row(row: int, prelude_lines: int) -> int {
    if row >= prelude_lines {
        row - prelude_lines
    } else {
        0
    }
}

/// A reported row is never negative: it is the assembled row less the
/// prelude's lines where the row lies after the prelude, and 0 otherwise.
pub proof fn lemma_user_row(row: int, prelude_lines: int)
    ensures
        user_row(row, prelude_lines) >= 0,
        row >= prelude_lines ==> user_row(row, prelude_lines) == row - prelude_lines,
        row < prelude_lines ==> user_row(row, prelude_lines) == 0,
{
}

/// Maps a row of the assembled source to a row of the user's text.
pub fn remap_row(row: usize, prelude_lines: usize) -> (r: usize)
    ensures
        r == user_row(row as int, prelude_lines as int),
{
    if row >= prelude_lines {
        row - prelude_lines
    } else {
        0
    }
}

/// A shader error located in the user's text.
#[derive(Debug, Clone)]
pub struct ShaderError {
    pub message: String,
    pub row: usize,
    pub col: usize,
}

/// The report of an error at `(row, col)` of the assembled source: the row
/// goes to the user's text, the column is kept.
pub fn user_error(message: String, row: usize, col: usize, prelude_lines: usize) -> (r:
    ShaderError)
    ensures
        r.message@ == message@,
        r.row == user_row(row as int, prelude_lines as int),
        r.col == col,
{
    ShaderError { message, row: remap_row(row, prelude_lines), col }
}

} // verus!
