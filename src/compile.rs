use crate::prelude::{
    count_newlines, newlines, prelude, prelude_text, user_error, user_row, ShaderError,
};
use crate::uniforms::CustomUniforms;
use naga::ShaderStage as NagaStage;
use vstd::prelude::*;
use vstd::string::*;

verus! {

/// The pipeline stage that an entry point is written for.
#[derive(Debug, Clone, Copy, PartialEq, Eq, Structural)]
pub enum ShaderStage {
    Vertex,
    Task,
    Mesh,
    Fragment,
    Compute,
    RayGeneration,
    Miss,
    AnyHit,
    ClosestHit,
}

/// An entry point of a parsed shader module.
#[derive(Debug, Clone)]
pub struct EntryPoint {
    pub name: String,
    pub stage: ShaderStage,
    pub workgroup_size: [u32; 3],
}

pub open spec fn entry_view(e: EntryPoint) -> (Seq<char>, ShaderStage, Seq<u32>) {
    (e.name@, e.stage, e.workgroup_size@)
}

/// A parse failure: where it is in the parsed text, if known (line and
/// column from 1), and its report.
pub struct WgslError {
    pub location: Option<(u32, u32)>,
    pub summary: String,
}

/// The entry points, in declaration order, of the module that a WGSL text
/// parses to; `None` where it does not parse.
pub uninterp spec fn wgsl_entry_points(src: Seq<char>) -> Option<
    Seq<(Seq<char>, ShaderStage, Seq<u32>)>,
>;

/// Where the parse failure of a WGSL text is (line and column from 1), if
/// the parser gives a place.
pub uninterp spec fn wgsl_error_location(src: Seq<char>) -> Option<(u32, u32)>;

/// The rendered report of the parse failure of a WGSL text.
pub uninterp spec fn wgsl_error_report(src: Seq<char>) -> Seq<char>;

/// Relies on naga::front::wgsl::parse_str for the entry points of the parsed
/// module, and on ParseError::location and ParseError::emit_to_string, on the
/// same text, for where a failure is and its report. All three depend on the
/// text alone. Invalid array lengths and types too large to lay out come back
/// as parse errors.
#[verifier::external_body]
fn parse_wgsl(src: &str) -> (r: Result<Vec<EntryPoint>, WgslError>)
    ensures
        match r {
            Ok(v) => wgsl_entry_points(src@) == Some(v@.map_values(|e: EntryPoint| entry_view(e))),
            Err(e) => wgsl_entry_points(src@) is None && e.location == wgsl_error_location(src@)
                && e.summary@ == wgsl_error_report(src@),
        },
{
    match naga::front::wgsl::parse_str(src) {
        Ok(m) => Ok(m.entry_points.iter().map(|e| EntryPoint {
            name: e.name.clone(),
            stage: match e.stage {
                NagaStage::Vertex => ShaderStage::Vertex, NagaStage::Task => ShaderStage::Task,
                NagaStage::Mesh => ShaderStage::Mesh, NagaStage::Fragment => ShaderStage::Fragment,
                NagaStage::Compute => ShaderStage::Compute, NagaStage::Miss => ShaderStage::Miss,
                NagaStage::RayGeneration => ShaderStage::RayGeneration, NagaStage::AnyHit => ShaderStage::AnyHit,
                NagaStage::ClosestHit => ShaderStage::ClosestHit,
            },
            workgroup_size: e.workgroup_size,
        }).collect()),
        Err(e) => Err(WgslError { location: e.location(src).map(|l| (l.line_number, l.line_position)), summary: e.emit_to_string(src) }),
    }
}

/// A compute entry point: its name and workgroup size.
#[derive(Debug, Clone)]
pub struct ComputeEntry {
    pub name: String,
    pub workgroup_size: [u32; 3],
}

pub open spec fn compute_view(e: ComputeEntry) -> (Seq<char>, Seq<u32>) {
    (e.name@, e.workgroup_size@)
}

/// The compute entry points among `s`, in the order of `s`.
pub open spec fn compute_entries(s: Seq<(Seq<char>, ShaderStage, Seq<u32>)>) -> Seq<
    (Seq<char>, Seq<u32>),
>
    decreases s.len(),
{
    if s.len() == 0 {
        Seq::empty()
    } else if s.last().1 == ShaderStage::Compute {
        compute_entries(s.drop_last()).push((s.last().0, s.last().2))
    } else {
        compute_entries(s.drop_last())
    }
}

/// Keeps the compute entry points, in declaration order.
pub fn select_compute(entries: &Vec<EntryPoint>) -> (r: Vec<ComputeEntry>)
    ensures
        r@.map_values(|e: ComputeEntry| compute_view(e)) == compute_entries(
            entries@.map_values(|e: EntryPoint| entry_view(e)),
        ),
{
    let ghost s = entries@.map_values(|e: EntryPoint| entry_view(e));
    let mut out: Vec<ComputeEntry> = Vec::new();
    let n = entries.len();
    let mut i: usize = 0;
    while i < n
        invariant
            n == entries@.len(),
            s == entries@.map_values(|e: EntryPoint| entry_view(e)),
            i <= n,
            out@.map_values(|e: ComputeEntry| compute_view(e)) == compute_entries(
                s.subrange(0, i as int),
            ),
        decreases n - i,
    {
        let e = &entries[i];
        assert(s.subrange(0, i + 1 as int).drop_last() =~= s.subrange(0, i as int));
        assert(s.subrange(0, i + 1 as int).last() == entry_view(*e));
        if e.stage == ShaderStage::Compute {
            let ghost before = out@;
            out.push(ComputeEntry { name: e.name.clone(), workgroup_size: e.workgroup_size });
            assert(out@.map_values(|e: ComputeEntry| compute_view(e)) =~= before.map_values(
                |e: ComputeEntry| compute_view(e),
            ).push((e.name@, e.workgroup_size@)));
        }
        i = i + 1;
    }
    assert(s.subrange(0, n as int) =~= s);
    out
}

/// The report of a parse failure of the assembled text, located in the
/// user's text; at row 0, column 0 where the parser gave no location.
pub fn parse_error_report(e: WgslError, prelude_lines: usize) -> (r: ShaderError)
    ensures
        r.message@ == e.summary@,
        e.location matches Some(l) ==> r.row == user_row(l.0 as int, prelude_lines as int)
            && r.col == l.1,
        e.location is None ==> r.row == 0 && r.col == 0,
{
    match e.location {
        Some(l) => user_error(e.summary, l.0 as usize, l.1 as usize, prelude_lines),
        None => ShaderError { message: e.summary, row: 0, col: 0 },
    }
}

/// A shader that compiled: the assembled text and its compute entry points.
pub struct CompiledShader {
    pub source: String,
    pub entries: Vec<ComputeEntry>,
}

/// The text that is compiled for `shader`: the prelude, then the shader.
pub open spec fn assembled(custom: Seq<(Seq<char>, u32)>, pass_f32: bool, shader: Seq<char>) -> Seq<
    char,
> {
    prelude_text(custom, pass_f32) + shader
}

/// `e` is the parser's report for the assembled text, located in the user's
/// text: the row less the prelude's lines (0 inside the prelude), the column
/// as given, and row 0, column 0 where the parser gives no place.
pub open spec fn reports_failure(
    e: ShaderError,
    custom: Seq<(Seq<char>, u32)>,
    pass_f32: bool,
    shader: Seq<char>,
) -> bool {
    let src = assembled(custom, pass_f32, shader);
    &&& e.message@ == wgsl_error_report(src)
    &&& match wgsl_error_location(src) {
        Some(l) => e.row == user_row(l.0 as int, newlines(prelude_text(custom, pass_f32)) as int)
            && e.col == l.1,
        None => e.row == 0 && e.col == 0,
    }
}

/// Assembles and parses `shader`. On success, the compute entry points in
/// declaration order; on failure, the error with its row in the user's text.
pub fn compile(custom: &CustomUniforms, pass_f32: bool, shader: &str) -> (r: Result<
    CompiledShader,
    ShaderError,
>)
    ensures
        r is Ok <==> wgsl_entry_points(assembled(custom@, pass_f32, shader@)) is Some,
        r matches Ok(c) ==> c.source@ == assembled(custom@, pass_f32, shader@) && c.entries@.map_values(
            |e: ComputeEntry| compute_view(e),
        ) == compute_entries(wgsl_entry_points(assembled(custom@, pass_f32, shader@))->Some_0),
        r matches Err(e) ==> reports_failure(e, custom@, pass_f32, shader@),
{
    let mut source = prelude(custom, pass_f32);
    source.append(shader);
    match parse_wgsl(source.as_str()) {
        Ok(v) => {
            let entries = select_compute(&v);
            Ok(CompiledShader { source, entries })
        },
        Err(e) => {
            let lines = count_newlines(prelude(custom, pass_f32).as_str());
            Err(parse_error_report(e, lines))
        },
    }
}

} // verus!
