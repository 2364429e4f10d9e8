use crate::compile::{
    assembled, compile, compute_entries, reports_failure, compute_view, wgsl_entry_points, CompiledShader,
    ComputeEntry,
};
use crate::frame::{
    dispatch_grid, grid_for, mouse_bytes, storage_bytes, storage_size, time_bytes, FrameState,
    NUM_KEYCODES, PASS_LAYERS,
};
use crate::pipelines::{
    after_frame_start, after_install, frame_start_outcome, PipelineSets, RollbackOutcome, Stage,
};
use crate::prelude::{count_newlines, newlines, prelude, prelude_text, ShaderError};
use crate::uniforms::{
    has_name, set_entry, struct_fields, values_bytes, CustomParamError, CustomUniforms,
    MAX_CUSTOM_PARAMS,
};
use vstd::prelude::*;

verus! {

/// One compute dispatch of a frame: the index of the stage in the current set
/// and the number of workgroups along each axis.
#[derive(Debug, Clone, Copy)]
pub struct Dispatch {
    pub stage: usize,
    pub groups: [u32; 3],
}

/// What one frame does, in order: take a pending fault, upload the uniform
/// buffers, then run each dispatch, copying the written feedback texture to
/// the read one after each.
pub struct FramePlan {
    pub rollback: RollbackOutcome,
    pub custom_bytes: Vec<u8>,
    pub time_bytes: Vec<u8>,
    pub mouse_bytes: Vec<u8>,
    pub key_bytes: Vec<u8>,
    pub dispatches: Vec<Dispatch>,
}

/// The sizes of the resources that follow the viewport.
#[derive(Debug, Clone, Copy, PartialEq, Eq, Structural)]
pub struct ViewportResources {
    pub width: u32,
    pub height: u32,
    pub layers: u32,
    pub pass_f32: bool,
    pub storage_bytes: Option<u64>,
}

/// The resources that a frame state asks for: textures of the viewport's size
/// and the storage buffer for it, where its size fits in 64 bits.
pub open spec fn resources_for(s: FrameState) -> ViewportResources {
    ViewportResources {
        width: s.width,
        height: s.height,
        layers: PASS_LAYERS,
        pass_f32: s.pass_f32,
        storage_bytes: if storage_size(s.width, s.height) <= u64::MAX {
            Some(storage_size(s.width, s.height) as u64)
        } else {
            None
        },
    }
}

/// After a resize to `width` by `height`, the frame counter reads 0 and every
/// viewport-sized resource is sized `width` by `height`.
pub proof fn lemma_resize_resources(s: FrameState, width: u32, height: u32)
    ensures
        (FrameState { width, height, frame: 0, ..s }).frame == 0,
        resources_for(FrameState { width, height, frame: 0, ..s }).width == width,
        resources_for(FrameState { width, height, frame: 0, ..s }).height == height,
        resources_for(FrameState { width, height, frame: 0, ..s }).storage_bytes matches Some(v)
            ==> v == 16 * (width as int * height as int),
{
}

/// The frame counter after one more frame.
pub open spec fn next_frame(frame: u32) -> u32 {
    if frame == u32::MAX {
        0
    } else {
        (frame + 1) as u32
    }
}

/// The renderer's state, apart from the GPU objects: frame uniforms and
/// viewport, custom parameters, and the pipeline sets over pipelines `P`.
pub struct WgpuToyRenderer<P> {
    pub state: FrameState,
    pub custom: CustomUniforms,
    pub pipelines: PipelineSets<P>,
}

impl<P> WgpuToyRenderer<P> {
    pub open spec fn wf(&self) -> bool {
        self.state.wf() && self.custom.wf()
    }

    pub fn new(width: u32, height: u32) -> (r: Self)
        ensures
            r.wf(),
            r.state.width == width && r.state.height == height,
            r.state.frame == 0,
            r.state.elapsed_bits == 0,
            r.state.mouse_x == 0 && r.state.mouse_y == 0 && !r.state.click,
            forall|k: int| 0 <= k < NUM_KEYCODES ==> !r.state.key_down(k),
            !r.state.pass_f32,
            r.custom@.len() == 0,
            r.pipelines.state().current.len() == 0,
            r.pipelines.state().rollback is None,
            !r.pipelines.state().pending,
    {
        WgpuToyRenderer {
            state: FrameState::new(width, height),
            custom: CustomUniforms::new(),
            pipelines: PipelineSets::new(),
        }
    }

    /// The header put before the shader text.
    pub fn prelude(&self) -> (r: String)
        ensures
            r@ == prelude_text(self.custom@, self.state.pass_f32),
    {
        prelude(&self.custom, self.state.pass_f32)
    }

    /// Number of lines the header adds before the shader text.
    pub fn prelude_lines(&self) -> (r: usize)
        ensures
            r == newlines(prelude_text(self.custom@, self.state.pass_f32)),
    {
        count_newlines(self.prelude().as_str())
    }

    /// Compiles `shader` under the current header. Nothing is installed: the
    /// caller builds a pipeline per entry and hands them to `install`.
    pub fn set_shader(&self, shader: &str) -> (r: Result<CompiledShader, ShaderError>)
        ensures
            r is Ok <==> wgsl_entry_points(
                assembled(self.custom@, self.state.pass_f32, shader@),
            ) is Some,
            r matches Ok(c) ==> c.source@ == assembled(self.custom@, self.state.pass_f32, shader@)
                && c.entries@.map_values(|e: ComputeEntry| compute_view(e)) == compute_entries(
                wgsl_entry_points(assembled(self.custom@, self.state.pass_f32, shader@))->Some_0,
            ),
            r matches Err(e) ==> reports_failure(e, self.custom@, self.state.pass_f32, shader@),
    {
        compile(&self.custom, self.state.pass_f32, shader)
    }

    /// Installs the pipelines built for the entries of `compiled`, one each
    /// in the same order: they run from the next frame on, and the set that
    /// ran so far is kept for a rollback.
    pub fn install(&mut self, compiled: &CompiledShader, pipelines: Vec<P>)
        requires
            pipelines@.len() == compiled.entries@.len(),
        ensures
            final(self).pipelines.state() == after_install(
                old(self).pipelines.state(),
                final(self).pipelines.state().current,
            ),
            final(self).pipelines.state().current.len() == compiled.entries@.len(),
            forall|i: int|
                0 <= i < compiled.entries@.len() ==> final(self).pipelines.state().current[i].pipeline
                    == pipelines@[i] && final(self).pipelines.state().current[i].workgroup_size
                    == compiled.entries@[i].workgroup_size,
            final(self).state == old(self).state,
            final(self).custom == old(self).custom,
    {
        let ghost ps = pipelines@;
        let mut rest = pipelines;
        let mut stages: Vec<Stage<P>> = Vec::new();
        let n = compiled.entries.len();
        let mut i: usize = 0;
        while i < n
            invariant
                n == compiled.entries@.len(),
                ps.len() == n,
                i <= n,
                rest@ == ps.subrange(i as int, n as int),
                stages@.len() == i,
                forall|j: int|
                    0 <= j < i ==> (#[trigger] stages@[j]).pipeline == ps[j]
                        && stages@[j].workgroup_size == compiled.entries@[j].workgroup_size,
            decreases n - i,
        {
            let p = rest.remove(0);
            assert(p == ps[i as int]);
            stages.push(Stage { pipeline: p, workgroup_size: compiled.entries[i].workgroup_size });
            assert(rest@ =~= ps.subrange(i + 1 as int, n as int));
            i = i + 1;
        }
        self.pipelines.install(stages);
    }

    /// Compiles `shader` and, where it compiles, installs one pipeline per
    /// compute entry point, in declaration order, built by `build` from the
    /// compiled shader and the entry's index. Where it does not compile,
    /// nothing changes and the error is returned.
    pub fn install_shader<F: Fn(&CompiledShader, usize) -> P>(&mut self, shader: &str, build: F) -> (r:
        Result<(), ShaderError>)
        requires
            forall|c: &CompiledShader, i: usize| build.requires((c, i)),
        ensures
            r is Ok <==> wgsl_entry_points(
                assembled(old(self).custom@, old(self).state.pass_f32, shader@),
            ) is Some,
            r matches Err(e) ==> reports_failure(
                e,
                old(self).custom@,
                old(self).state.pass_f32,
                shader@,
            ) && final(self).pipelines.state() == old(self).pipelines.state(),
            r is Ok ==> ({
                let entries = compute_entries(
                    wgsl_entry_points(
                        assembled(old(self).custom@, old(self).state.pass_f32, shader@),
                    )->Some_0,
                );
                &&& final(self).pipelines.state() == after_install(
                    old(self).pipelines.state(),
                    final(self).pipelines.state().current,
                )
                &&& final(self).pipelines.state().current.len() == entries.len()
                &&& forall|i: int|
                    0 <= i < entries.len() ==> final(self).pipelines.state().current[i].workgroup_size@
                        == (#[trigger] entries[i]).1
                &&& exists|c: CompiledShader|
                    c.source@ == assembled(old(self).custom@, old(self).state.pass_f32, shader@)
                        && c.entries@.map_values(|e: ComputeEntry| compute_view(e)) == entries
                        && forall|i: int|
                        0 <= i < entries.len() ==> build.ensures(
                            (&c, i as usize),
                            #[trigger] final(self).pipelines.state().current[i].pipeline,
                        )
            }),
            final(self).state == old(self).state,
            final(self).custom == old(self).custom,
    {
        let compiled = match self.set_shader(shader) {
            Ok(c) => c,
            Err(e) => {
                return Err(e);
            },
        };
        let ghost views = compiled.entries@.map_values(|e: ComputeEntry| compute_view(e));
        let n = compiled.entries.len();
        let mut pipelines: Vec<P> = Vec::new();
        let mut i: usize = 0;
        while i < n
            invariant
                n == compiled.entries@.len(),
                i <= n,
                pipelines@.len() == i,
                forall|c: &CompiledShader, j: usize| build.requires((c, j)),
                forall|j: int| 0 <= j < i ==> build.ensures((&compiled, j as usize), #[trigger] pipelines@[j]),
            decreases n - i,
        {
            pipelines.push(build(&compiled, i));
            i = i + 1;
        }
        let ghost ps = pipelines@;
        self.install(&compiled, pipelines);
        assert forall|i: int| 0 <= i < views.len() implies self.pipelines.state().current[i].workgroup_size@
            == (#[trigger] views[i]).1 by {
            assert(views[i] == compute_view(compiled.entries@[i]));
            assert(self.pipelines.state().current[i].pipeline == ps[i]);
        }
        assert forall|i: int| 0 <= i < views.len() implies build.ensures(
            (&compiled, i as usize),
            #[trigger] self.pipelines.state().current[i].pipeline,
        ) by {
            assert(self.pipelines.state().current[i].pipeline == ps[i]);
        }
        Ok(())
    }

    /// Records a runtime fault of the current pipelines; the next frame takes it.
    pub fn signal_fault(&mut self)
        ensures
            final(self).pipelines.state() == crate::pipelines::after_fault(
                old(self).pipelines.state(),
            ),
            final(self).state == old(self).state,
            final(self).custom == old(self).custom,
    {
        self.pipelines.signal_fault();
    }

    pub fn set_time_elapsed(&mut self, elapsed_bits: u32)
        ensures
            final(self).state == (FrameState { elapsed_bits, ..old(self).state }),
            final(self).custom == old(self).custom,
            final(self).pipelines == old(self).pipelines,
    {
        self.state.elapsed_bits = elapsed_bits;
    }

    pub fn set_mouse_pos(&mut self, x: u32, y: u32)
        ensures
            final(self).state == (FrameState { mouse_x: x, mouse_y: y, ..old(self).state }),
            final(self).custom == old(self).custom,
            final(self).pipelines == old(self).pipelines,
    {
        self.state.mouse_x = x;
        self.state.mouse_y = y;
    }

    pub fn set_mouse_click(&mut self, click: bool)
        ensures
            final(self).state == (FrameState { click, ..old(self).state }),
            final(self).custom == old(self).custom,
            final(self).pipelines == old(self).pipelines,
    {
        self.state.click = click;
    }

    /// Sets whether key `keycode` is down; other keys keep their state.
    pub fn set_keydown(&mut self, keycode: usize, keydown: bool)
        requires
            old(self).wf(),
            keycode < NUM_KEYCODES,
        ensures
            final(self).wf(),
            final(self).state.key_down(keycode as int) == keydown,
            forall|k: int|
                0 <= k < NUM_KEYCODES && k != keycode ==> final(self).state.key_down(k) == old(
                    self,
                ).state.key_down(k),
            final(self).state.frame == old(self).state.frame,
            final(self).custom == old(self).custom,
            final(self).pipelines == old(self).pipelines,
    {
        self.state.set_key(keycode, keydown);
    }

    /// Sets the custom parameter `name` to the float of bits `value_bits`.
    pub fn set_custom_float(&mut self, name: &str, value_bits: u32) -> (r: Result<
        (),
        CustomParamError,
    >)
        requires
            old(self).wf(),
        ensures
            final(self).wf(),
            r is Err <==> (!has_name(old(self).custom@, name@) && old(self).custom@.len()
                >= MAX_CUSTOM_PARAMS),
            r is Ok ==> final(self).custom@ == set_entry(old(self).custom@, name@, value_bits),
            r is Err ==> final(self).custom@ == old(self).custom@,
            final(self).state == old(self).state,
            final(self).pipelines == old(self).pipelines,
    {
        self.custom.set(name, value_bits)
    }

    /// Chooses 32-bit (`true`) or 16-bit float feedback textures; the caller
    /// recreates the viewport resources.
    pub fn set_pass_f32(&mut self, pass_f32: bool)
        ensures
            final(self).state == (FrameState { pass_f32, ..old(self).state }),
            final(self).custom == old(self).custom,
            final(self).pipelines == old(self).pipelines,
    {
        self.state.pass_f32 = pass_f32;
    }

    /// Moves to a viewport of `width` by `height`; the frame counter restarts at 0.
    pub fn resize(&mut self, width: u32, height: u32)
        ensures
            final(self).state == (FrameState { width, height, frame: 0, ..old(self).state }),
            final(self).custom == old(self).custom,
            final(self).pipelines == old(self).pipelines,
    {
        self.state.resize(width, height);
    }

    /// The sizes of the viewport resources to allocate.
    pub fn viewport_resources(&self) -> (r: ViewportResources)
        ensures
            r == resources_for(self.state),
    {
        ViewportResources {
            width: self.state.width,
            height: self.state.height,
            layers: PASS_LAYERS,
            pass_f32: self.state.pass_f32,
            storage_bytes: storage_bytes(self.state.width, self.state.height),
        }
    }

    /// Plans one frame: the uploads from the state as it stands, the rollback
    /// if a fault is pending, then one dispatch per stage of the resulting set,
    /// in order, sized to the viewport; the frame counter advances by one.
    pub fn render(&mut self) -> (r: FramePlan)
        requires
            old(self).wf(),
        ensures
            final(self).wf(),
            final(self).pipelines.state() == after_frame_start(old(self).pipelines.state()),
            r.rollback == frame_start_outcome(old(self).pipelines.state()),
            r.custom_bytes@ == values_bytes(struct_fields(old(self).custom@)),
            r.time_bytes@ == time_bytes(old(self).state.frame, old(self).state.elapsed_bits),
            r.mouse_bytes@ == mouse_bytes(
                old(self).state.mouse_x,
                old(self).state.mouse_y,
                old(self).state.click,
            ),
            r.key_bytes@ == old(self).state.keys_view(),
            r.dispatches@.len() == final(self).pipelines.state().current.len(),
            forall|i: int|
                0 <= i < r.dispatches@.len() ==> (#[trigger] r.dispatches@[i]).stage == i
                    && r.dispatches@[i].groups@.map_values(|v: u32| v as int) == grid_for(
                    old(self).state.width,
                    old(self).state.height,
                    final(self).pipelines.state().current[i].workgroup_size@,
                ),
            final(self).state == (FrameState {
                frame: next_frame(old(self).state.frame),
                ..old(self).state
            }),
            final(self).custom == old(self).custom,
    {
        let custom_bytes = self.custom.uniform_bytes();
        let time_bytes = self.state.time_bytes();
        let mouse_bytes = self.state.mouse_bytes();
        let key_bytes = self.state.key_bytes();
        let rollback = self.pipelines.start_frame();
        let stages = self.pipelines.current();
        let mut dispatches: Vec<Dispatch> = Vec::new();
        let n = stages.len();
        let mut i: usize = 0;
        while i < n
            invariant
                n == stages@.len(),
                i <= n,
                dispatches@.len() == i,
                forall|j: int|
                    0 <= j < i ==> (#[trigger] dispatches@[j]).stage == j
                        && dispatches@[j].groups@.map_values(|v: u32| v as int) == grid_for(
                        self.state.width,
                        self.state.height,
                        stages@[j].workgroup_size@,
                    ),
            decreases n - i,
        {
            let groups = dispatch_grid(self.state.width, self.state.height, stages[i].workgroup_size);
            dispatches.push(Dispatch { stage: i, groups });
            i = i + 1;
        }
        self.state.frame = if self.state.frame == u32::MAX {
            0
        } else {
            self.state.frame + 1
        };
        FramePlan { rollback, custom_bytes, time_bytes, mouse_bytes, key_bytes, dispatches }
    }
}

} // verus!
