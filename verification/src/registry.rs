use vstd::prelude::*;

use std::collections::HashMap;

use crate::gl_def::{GL_FRAGMENT_SHADER, GL_VERTEX_SHADER};

verus! {

broadcast use vstd::std_specs::hash::group_hash_axioms;

/// The shaders of one program: those it was first linked with (`old_*`),
/// which a reload is asked for by number, and those it uses now.
#[derive(Clone, Copy, Debug, PartialEq, Eq, Structural)]
pub struct Program {
    pub old_vertex_shader: i32,
    pub vertex_shader: i32,
    pub old_fragment_shader: i32,
    pub fragment_shader: i32,
}

/// The two kinds of shader that programs are built from here.
#[derive(Clone, Copy, Debug, PartialEq, Eq, Structural)]
pub enum ShaderKind {
    Vertex,
    Fragment,
}

/// The kind of a GL shader type, if it is one of the two handled.
pub open spec fn shader_kind_spec(shader_type: i32) -> Option<ShaderKind> {
    if shader_type == GL_VERTEX_SHADER {
        Some(ShaderKind::Vertex)
    } else if shader_type == GL_FRAGMENT_SHADER {
        Some(ShaderKind::Fragment)
    } else {
        None
    }
}

/// Tells a vertex shader type from a fragment shader type.
pub fn shader_kind(shader_type: i32) -> (r: Option<ShaderKind>)
    ensures
        r == shader_kind_spec(shader_type),
{
    if shader_type == GL_VERTEX_SHADER {
        Some(ShaderKind::Vertex)
    } else if shader_type == GL_FRAGMENT_SHADER {
        Some(ShaderKind::Fragment)
    } else {
        None
    }
}

/// The tables behind the interposer: the type of each shader the game
/// created, the shaders of each program it linked, and which program now
/// stands in for which.
pub struct ShaderRegistry {
    shaders: HashMap<i32, i32>,
    programs: HashMap<i32, Program>,
    replaced: HashMap<i32, i32>,
}

/// The contents of a `ShaderRegistry`.
#[verifier::ext_equal]
pub struct RegistryView {
    /// Shader number to shader type.
    pub shaders: Map<i32, i32>,
    /// Program number to its shaders.
    pub programs: Map<i32, Program>,
    /// Program number to the program that replaced it.
    pub replaced: Map<i32, i32>,
}

impl View for ShaderRegistry {
    type V = RegistryView;

    closed spec fn view(&self) -> RegistryView {
        RegistryView {
            shaders: self.shaders@,
            programs: self.programs@,
            replaced: self.replaced@,
        }
    }
}

/// The program that the game's program `program` is drawn with.
pub open spec fn program_in_use(v: RegistryView, program: i32) -> i32 {
    if v.replaced.contains_key(program) {
        v.replaced[program]
    } else {
        program
    }
}

/// Why a shader cannot be attached to a program.
#[derive(Clone, Copy, Debug, PartialEq, Eq, Structural)]
pub enum AttachError {
    /// The shader was never created through the interposer.
    UnknownShader,
    /// The shader is neither a vertex nor a fragment shader.
    UnknownShaderType,
}

/// A program entry before any shader was attached.
pub open spec fn empty_program() -> Program {
    Program { old_vertex_shader: 0, vertex_shader: 0, old_fragment_shader: 0, fragment_shader: 0 }
}

/// `p` with `shader` attached as its shader of `kind`: both the shader it
/// was linked with and the one it uses now.
pub open spec fn with_attached(p: Program, kind: ShaderKind, shader: i32) -> Program {
    match kind {
        ShaderKind::Vertex => Program {
            old_vertex_shader: shader,
            vertex_shader: shader,
            old_fragment_shader: p.old_fragment_shader,
            fragment_shader: p.fragment_shader,
        },
        ShaderKind::Fragment => Program {
            old_vertex_shader: p.old_vertex_shader,
            vertex_shader: p.vertex_shader,
            old_fragment_shader: shader,
            fragment_shader: shader,
        },
    }
}

/// The entry of `program`, or an empty one when it has none yet.
pub open spec fn program_entry(v: RegistryView, program: i32) -> Program {
    if v.programs.contains_key(program) {
        v.programs[program]
    } else {
        empty_program()
    }
}

/// The tables after the game attached `shader` to `program`, or why it fails.
pub open spec fn attach_spec(v: RegistryView, program: i32, shader: i32) -> Result<
    RegistryView,
    AttachError,
> {
    if !v.shaders.contains_key(shader) {
        Err(AttachError::UnknownShader)
    } else {
        match shader_kind_spec(v.shaders[shader]) {
            None => Err(AttachError::UnknownShaderType),
            Some(kind) => Ok(
                RegistryView {
                    shaders: v.shaders,
                    programs: v.programs.insert(
                        program,
                        with_attached(program_entry(v, program), kind, shader),
                    ),
                    replaced: v.replaced,
                },
            ),
        }
    }
}

/// What a reload of a shader asks of the GL: link `vertex_shader` and
/// `fragment_shader` into a new program that stands in for `program`, and
/// delete `retired_shader`, which `program` used until now.
#[derive(Clone, Copy, Debug, PartialEq, Eq, Structural)]
pub struct Relink {
    pub program: i32,
    pub vertex_shader: i32,
    pub fragment_shader: i32,
    pub retired_shader: i32,
}

/// Why a shader cannot be reloaded.
#[derive(Clone, Copy, Debug, PartialEq, Eq, Structural)]
pub enum ReloadError {
    /// The shader was never created through the interposer.
    UnknownShader,
    /// The shader is neither a vertex nor a fragment shader.
    UnknownShaderType,
    /// No program (other than program 0) was linked with the shader.
    NoProgram,
}

/// The kind of `shader`, if it was created and is of a handled type.
pub open spec fn reload_kind(v: RegistryView, shader: i32) -> Option<ShaderKind> {
    if v.shaders.contains_key(shader) {
        shader_kind_spec(v.shaders[shader])
    } else {
        None
    }
}

/// `p` was first linked with `shader` as its shader of `kind`.
pub open spec fn linked_with(p: Program, kind: ShaderKind, shader: i32) -> bool {
    match kind {
        ShaderKind::Vertex => p.old_vertex_shader == shader,
        ShaderKind::Fragment => p.old_fragment_shader == shader,
    }
}

/// Program `program` may be rebuilt when `shader` of `kind` is reloaded.
pub open spec fn reload_candidate(v: RegistryView, kind: ShaderKind, shader: i32, program: i32) -> bool {
    &&& program != 0
    &&& v.programs.contains_key(program)
    &&& linked_with(v.programs[program], kind, shader)
}

/// The shader of `kind` that `p` uses now.
pub open spec fn current_shader(p: Program, kind: ShaderKind) -> i32 {
    match kind {
        ShaderKind::Vertex => p.vertex_shader,
        ShaderKind::Fragment => p.fragment_shader,
    }
}

/// `p` using `shader` from now on as its shader of `kind`; the shaders it
/// was first linked with stay recorded.
pub open spec fn with_current(p: Program, kind: ShaderKind, shader: i32) -> Program {
    match kind {
        ShaderKind::Vertex => Program { vertex_shader: shader, ..p },
        ShaderKind::Fragment => Program { fragment_shader: shader, ..p },
    }
}

/// The relink that rebuilding `program` with `new_shader` of `kind` asks for.
pub open spec fn relink_spec(v: RegistryView, kind: ShaderKind, program: i32, new_shader: i32) -> Relink {
    let updated = with_current(v.programs[program], kind, new_shader);
    Relink {
        program,
        vertex_shader: updated.vertex_shader,
        fragment_shader: updated.fragment_shader,
        retired_shader: current_shader(v.programs[program], kind),
    }
}

/// The tables after `program` switched to `new_shader` as its shader of `kind`.
pub open spec fn retarget_view(v: RegistryView, kind: ShaderKind, program: i32, new_shader: i32) -> RegistryView {
    RegistryView {
        shaders: v.shaders,
        programs: v.programs.insert(program, with_current(v.programs[program], kind, new_shader)),
        replaced: v.replaced,
    }
}

/// Why reloading `shader` fails, if it does.
pub open spec fn reload_error(v: RegistryView, shader: i32) -> Option<ReloadError> {
    if !v.shaders.contains_key(shader) {
        Some(ReloadError::UnknownShader)
    } else {
        match shader_kind_spec(v.shaders[shader]) {
            None => Some(ReloadError::UnknownShaderType),
            Some(kind) => if exists|p: i32| #[trigger] reload_candidate(v, kind, shader, p) {
                None
            } else {
                Some(ReloadError::NoProgram)
            },
        }
    }
}

impl ShaderRegistry {
    /// Empty tables.
    pub fn new() -> (r: Self)
        ensures
            r@.shaders == Map::<i32, i32>::empty(),
            r@.programs == Map::<i32, Program>::empty(),
            r@.replaced == Map::<i32, i32>::empty(),
    {
        ShaderRegistry { shaders: HashMap::new(), programs: HashMap::new(), replaced: HashMap::new() }
    }

    /// Records that the game created `shader` of type `shader_type`.
    pub fn register_shader(&mut self, shader: i32, shader_type: i32)
        ensures
            final(self)@.shaders == old(self)@.shaders.insert(shader, shader_type),
            final(self)@.programs == old(self)@.programs,
            final(self)@.replaced == old(self)@.replaced,
    {
        self.shaders.insert(shader, shader_type);
    }

    /// Records that the game attached `shader` to `program`: the shader
    /// becomes both the original and the current shader of its kind there.
    /// On an error the tables are left as they were.
    pub fn attach_shader(&mut self, program: i32, shader: i32) -> (r: Result<(), AttachError>)
        ensures
            match attach_spec(old(self)@, program, shader) {
                Ok(v) => r is Ok && final(self)@ == v,
                Err(e) => r == Err::<(), AttachError>(e) && final(self)@ == old(self)@,
            },
    {
        let shader_type = match self.shaders.get(&shader) {
            Some(t) => *t,
            None => {
                return Err(AttachError::UnknownShader);
            },
        };
        let kind = match shader_kind(shader_type) {
            Some(k) => k,
            None => {
                return Err(AttachError::UnknownShaderType);
            },
        };
        let base = match self.programs.get(&program) {
            Some(p) => *p,
            None => Program {
                old_vertex_shader: 0,
                vertex_shader: 0,
                old_fragment_shader: 0,
                fragment_shader: 0,
            },
        };
        let updated = match kind {
            ShaderKind::Vertex => Program {
                old_vertex_shader: shader,
                vertex_shader: shader,
                old_fragment_shader: base.old_fragment_shader,
                fragment_shader: base.fragment_shader,
            },
            ShaderKind::Fragment => Program {
                old_vertex_shader: base.old_vertex_shader,
                vertex_shader: base.vertex_shader,
                old_fragment_shader: shader,
                fragment_shader: shader,
            },
        };
        self.programs.insert(program, updated);
        Ok(())
    }

    /// The table work of a shader reload: finds a program that was linked
    /// with `old_shader`, makes it use `new_shader` in its place, and says
    /// what to relink. Which program, when several were linked with the
    /// shader, follows the map's order and is left open. On an error the
    /// tables are left as they were.
    pub fn retarget_shader(&mut self, old_shader: i32, new_shader: i32) -> (r: Result<Relink, ReloadError>)
        ensures
            match reload_error(old(self)@, old_shader) {
                Some(e) => r == Err::<Relink, ReloadError>(e) && final(self)@ == old(self)@,
                None => r matches Ok(link) && reload_kind(old(self)@, old_shader) matches Some(
                    kind,
                ) && reload_candidate(old(self)@, kind, old_shader, link.program) && link
                    == relink_spec(old(self)@, kind, link.program, new_shader) && final(self)@
                    == retarget_view(old(self)@, kind, link.program, new_shader),
            },
    {
        let shader_type = match self.shaders.get(&old_shader) {
            Some(t) => *t,
            None => {
                return Err(ReloadError::UnknownShader);
            },
        };
        let kind = match shader_kind(shader_type) {
            Some(k) => k,
            None => {
                return Err(ReloadError::UnknownShaderType);
            },
        };
        let ghost v = self@;
        let mut found: Option<i32> = None;
        for entry in it: self.programs.iter()
            invariant
                v == self@,
                found matches Some(p) ==> reload_candidate(v, kind, old_shader, p),
                found is None ==> forall|j: int|
                    0 <= j < it.index() ==> !reload_candidate(
                        v,
                        kind,
                        old_shader,
                        *(#[trigger] it.seq()[j]).0,
                    ),
        {
            let (p, prog) = entry;
            let linked = match kind {
                ShaderKind::Vertex => prog.old_vertex_shader == old_shader,
                ShaderKind::Fragment => prog.old_fragment_shader == old_shader,
            };
            if found.is_none() && *p != 0 && linked {
                found = Some(*p);
            }
        }
        let program = match found {
            Some(p) => p,
            None => {
                return Err(ReloadError::NoProgram);
            },
        };
        let current = *self.programs.get(&program).unwrap();
        let updated = match kind {
            ShaderKind::Vertex => Program { vertex_shader: new_shader, ..current },
            ShaderKind::Fragment => Program { fragment_shader: new_shader, ..current },
        };
        let retired = match kind {
            ShaderKind::Vertex => current.vertex_shader,
            ShaderKind::Fragment => current.fragment_shader,
        };
        self.programs.insert(program, updated);
        Ok(
            Relink {
                program,
                vertex_shader: updated.vertex_shader,
                fragment_shader: updated.fragment_shader,
                retired_shader: retired,
            },
        )
    }

    /// The type the game gave `shader` when it created it.
    pub fn shader_type(&self, shader: i32) -> (r: Option<i32>)
        ensures
            r == (if self@.shaders.contains_key(shader) {
                Some(self@.shaders[shader])
            } else {
                None
            }),
    {
        match self.shaders.get(&shader) {
            Some(t) => Some(*t),
            None => None,
        }
    }

    /// The program to draw with when the game asks for `program`: the one
    /// that replaced it, if any, else `program` itself.
    pub fn program_to_use(&self, program: i32) -> (r: i32)
        ensures
            r == program_in_use(self@, program),
    {
        match self.replaced.get(&program) {
            Some(p) => *p,
            None => program,
        }
    }

    /// Records that `new_program` stands in for `old_program` from now on,
    /// and returns the program that stood in for it before, if any.
    pub fn record_replacement(&mut self, old_program: i32, new_program: i32) -> (r: Option<i32>)
        ensures
            final(self)@.replaced == old(self)@.replaced.insert(old_program, new_program),
            final(self)@.shaders == old(self)@.shaders,
            final(self)@.programs == old(self)@.programs,
            r == (if old(self)@.replaced.contains_key(old_program) {
                Some(old(self)@.replaced[old_program])
            } else {
                None
            }),
    {
        self.replaced.insert(old_program, new_program)
    }
}


/// The tables after `new_program` was recorded as standing in for `old_program`.
pub open spec fn replace_view(v: RegistryView, old_program: i32, new_program: i32) -> RegistryView {
    RegistryView {
        shaders: v.shaders,
        programs: v.programs,
        replaced: v.replaced.insert(old_program, new_program),
    }
}

/// Once `new_program` is recorded for `old_program`, asking for
/// `old_program` draws with `new_program`, and every other program is
/// drawn as before.
pub proof fn lemma_replacement_reads_back(v: RegistryView, old_program: i32, new_program: i32, asked: i32)
    ensures
        program_in_use(replace_view(v, old_program, new_program), asked) == (if asked == old_program {
            new_program
        } else {
            program_in_use(v, asked)
        }),
{
}

/// Switching a program to a rebuilt shader keeps, for every program, the
/// shaders it was first linked with: the same programs can be rebuilt by
/// the same shader number again, and a reload that worked still works.
pub proof fn lemma_retarget_keeps_reloads(
    v: RegistryView,
    kind: ShaderKind,
    program: i32,
    new_shader: i32,
    any_kind: ShaderKind,
    shader: i32,
    candidate: i32,
)
    requires
        v.programs.contains_key(program),
    ensures
        reload_candidate(retarget_view(v, kind, program, new_shader), any_kind, shader, candidate)
            == reload_candidate(v, any_kind, shader, candidate),
        reload_error(retarget_view(v, kind, program, new_shader), shader) == reload_error(v, shader),
{
    let w = retarget_view(v, kind, program, new_shader);
    assert(w.programs.dom() =~= v.programs.dom());
    assert forall|k: ShaderKind, q: i32|
        #[trigger] reload_candidate(w, k, shader, q) == reload_candidate(v, k, shader, q) by {
        if q == program {
        }
    }
    if v.shaders.contains_key(shader) {
        match shader_kind_spec(v.shaders[shader]) {
            Some(k) => {
                if exists|q: i32| #[trigger] reload_candidate(v, k, shader, q) {
                    let q = choose|q: i32| #[trigger] reload_candidate(v, k, shader, q);
                    assert(reload_candidate(w, k, shader, q));
                }
                if exists|q: i32| #[trigger] reload_candidate(w, k, shader, q) {
                    let q = choose|q: i32| #[trigger] reload_candidate(w, k, shader, q);
                    assert(reload_candidate(v, k, shader, q));
                }
            },
            None => {},
        }
    }
}

/// Attaching a shader to a program other than 0 makes that program one
/// that reloading the shader may rebuild, and leaves which program is
/// drawn for which unchanged.
pub proof fn lemma_attach_makes_reloadable(v: RegistryView, program: i32, shader: i32, asked: i32)
    requires
        attach_spec(v, program, shader) is Ok,
        program != 0,
    ensures
        reload_kind(v, shader) matches Some(kind) && reload_candidate(
            attach_spec(v, program, shader)->Ok_0,
            kind,
            shader,
            program,
        ),
        reload_error(attach_spec(v, program, shader)->Ok_0, shader) is None,
        program_in_use(attach_spec(v, program, shader)->Ok_0, asked) == program_in_use(v, asked),
{
    let w = attach_spec(v, program, shader)->Ok_0;
    let kind = reload_kind(v, shader)->Some_0;
    assert(reload_candidate(w, kind, shader, program));
}

/// A whole hot reload: when `program` is rebuilt with `new_shader` in
/// place of its shader of `kind` and the rebuilt `new_program` is recorded
/// for it, the game's `program` is drawn with `new_program`, the rebuilt
/// program uses `new_shader` next to the other shader it used, and the same
/// shader number can be reloaded again.
pub proof fn lemma_hot_reload(
    v: RegistryView,
    kind: ShaderKind,
    shader: i32,
    program: i32,
    new_shader: i32,
    new_program: i32,
)
    requires
        reload_kind(v, shader) == Some(kind),
        reload_candidate(v, kind, shader, program),
    ensures
        ({
            let w = replace_view(retarget_view(v, kind, program, new_shader), program, new_program);
            let link = relink_spec(v, kind, program, new_shader);
            &&& program_in_use(w, program) == new_program
            &&& current_shader(w.programs[program], kind) == new_shader
            &&& link.program == program
            &&& kind == ShaderKind::Vertex ==> link.vertex_shader == new_shader
                && link.fragment_shader == v.programs[program].fragment_shader
            &&& kind == ShaderKind::Fragment ==> link.fragment_shader == new_shader
                && link.vertex_shader == v.programs[program].vertex_shader
            &&& link.retired_shader == current_shader(v.programs[program], kind)
            &&& reload_error(w, shader) is None
        }),
{
    lemma_retarget_keeps_reloads(v, kind, program, new_shader, kind, shader, program);
    let w = replace_view(retarget_view(v, kind, program, new_shader), program, new_program);
    assert(reload_candidate(w, kind, shader, program));
}


/// A reload changes exactly one shader of exactly one program: the
/// program's current shader of the reloaded kind becomes the rebuilt
/// shader; its current shader of the other kind and the shaders it was first
/// linked with stay as they were; every other program, every shader type and
/// every replacement stays as it was. The relink asks for exactly the
/// program's shaders after the switch, and retires the shader of the
/// reloaded kind that it used before.
pub proof fn lemma_retarget_changes_one_shader(
    v: RegistryView,
    kind: ShaderKind,
    program: i32,
    new_shader: i32,
)
    requires
        v.programs.contains_key(program),
    ensures
        ({
            let w = retarget_view(v, kind, program, new_shader);
            let before = v.programs[program];
            let after = w.programs[program];
            let link = relink_spec(v, kind, program, new_shader);
            &&& w.shaders == v.shaders
            &&& w.replaced == v.replaced
            &&& w.programs.dom() == v.programs.dom()
            &&& forall|q: i32| #[trigger] w.programs.contains_key(q) && q != program ==> w.programs[q] == v.programs[q]
            &&& after.old_vertex_shader == before.old_vertex_shader
            &&& after.old_fragment_shader == before.old_fragment_shader
            &&& kind == ShaderKind::Vertex ==> after.vertex_shader == new_shader
                && after.fragment_shader == before.fragment_shader
                && link.retired_shader == before.vertex_shader
            &&& kind == ShaderKind::Fragment ==> after.fragment_shader == new_shader
                && after.vertex_shader == before.vertex_shader
                && link.retired_shader == before.fragment_shader
            &&& link.program == program
            &&& link.vertex_shader == after.vertex_shader
            &&& link.fragment_shader == after.fragment_shader
        }),
{
    let w = retarget_view(v, kind, program, new_shader);
    assert(w.programs.dom() =~= v.programs.dom());
}

/// Two reloads of shaders of different kinds of the same program add up:
/// after the second, the program uses both rebuilt shaders, and the second
/// relink links both of them.
pub proof fn lemma_reloads_of_both_kinds_add_up(
    v: RegistryView,
    program: i32,
    first_kind: ShaderKind,
    first_shader: i32,
    second_kind: ShaderKind,
    second_shader: i32,
)
    requires
        v.programs.contains_key(program),
        first_kind != second_kind,
    ensures
        ({
            let w = retarget_view(v, first_kind, program, first_shader);
            let link = relink_spec(w, second_kind, program, second_shader);
            let x = retarget_view(w, second_kind, program, second_shader);
            &&& current_shader(x.programs[program], first_kind) == first_shader
            &&& current_shader(x.programs[program], second_kind) == second_shader
            &&& (first_kind == ShaderKind::Vertex ==> link.vertex_shader == first_shader
                && link.fragment_shader == second_shader)
            &&& (first_kind == ShaderKind::Fragment ==> link.fragment_shader == first_shader
                && link.vertex_shader == second_shader)
        }),
{
    lemma_retarget_changes_one_shader(v, first_kind, program, first_shader);
    let w = retarget_view(v, first_kind, program, first_shader);
    lemma_retarget_changes_one_shader(w, second_kind, program, second_shader);
}

/// Attaching a shader changes exactly the entry of that program: the
/// shader becomes both the first-linked and the current shader of its kind,
/// the program's shaders of the other kind stay as they were (both 0 for a
/// program that had no entry), and every other program, every shader type
/// and every replacement stays as it was.
pub proof fn lemma_attach_changes_one_kind(v: RegistryView, program: i32, shader: i32)
    requires
        attach_spec(v, program, shader) is Ok,
    ensures
        ({
            let w = attach_spec(v, program, shader)->Ok_0;
            let after = w.programs[program];
            let had = v.programs.contains_key(program);
            let before_old_vertex = if had { v.programs[program].old_vertex_shader } else { 0 };
            let before_vertex = if had { v.programs[program].vertex_shader } else { 0 };
            let before_old_fragment = if had { v.programs[program].old_fragment_shader } else { 0 };
            let before_fragment = if had { v.programs[program].fragment_shader } else { 0 };
            &&& v.shaders.contains_key(shader)
            &&& w.shaders == v.shaders
            &&& w.replaced == v.replaced
            &&& w.programs.dom() == v.programs.dom().insert(program)
            &&& forall|q: i32| #[trigger] w.programs.contains_key(q) && q != program ==> w.programs[q] == v.programs[q]
            &&& v.shaders[shader] == GL_VERTEX_SHADER ==> {
                &&& after.old_vertex_shader == shader
                &&& after.vertex_shader == shader
                &&& after.old_fragment_shader == before_old_fragment
                &&& after.fragment_shader == before_fragment
            }
            &&& v.shaders[shader] == GL_FRAGMENT_SHADER ==> {
                &&& after.old_fragment_shader == shader
                &&& after.fragment_shader == shader
                &&& after.old_vertex_shader == before_old_vertex
                &&& after.vertex_shader == before_vertex
            }
            &&& (v.shaders[shader] == GL_VERTEX_SHADER || v.shaders[shader] == GL_FRAGMENT_SHADER)
        }),
{
    let w = attach_spec(v, program, shader)->Ok_0;
    assert(w.programs.dom() =~= v.programs.dom().insert(program));
}

/// Attaching a vertex and a fragment shader to a program, in either order,
/// leaves it linked with both: reloading either of them rebuilds it.
pub proof fn lemma_attach_both_kinds_keeps_both(
    v: RegistryView,
    program: i32,
    first: i32,
    second: i32,
)
    requires
        program != 0,
        attach_spec(v, program, first) is Ok,
        attach_spec(attach_spec(v, program, first)->Ok_0, program, second) is Ok,
        reload_kind(v, first) != reload_kind(v, second),
    ensures
        ({
            let x = attach_spec(attach_spec(v, program, first)->Ok_0, program, second)->Ok_0;
            &&& reload_error(x, first) is None
            &&& reload_error(x, second) is None
        }),
{
    let w = attach_spec(v, program, first)->Ok_0;
    let x = attach_spec(w, program, second)->Ok_0;
    lemma_attach_changes_one_kind(v, program, first);
    lemma_attach_changes_one_kind(w, program, second);
    let k1 = reload_kind(v, first)->Some_0;
    let k2 = reload_kind(w, second)->Some_0;
    assert(reload_candidate(x, k1, first, program));
    assert(reload_candidate(x, k2, second, program));
}


/// A shader can be reloaded exactly when it was created as a vertex or a
/// fragment shader and some program other than 0 was first linked with it
/// as its shader of that kind; otherwise the error names the first thing
/// missing.
pub proof fn lemma_reload_error_cases(v: RegistryView, shader: i32)
    ensures
        (reload_error(v, shader) == Some(ReloadError::UnknownShader)) <==> !v.shaders.contains_key(
            shader,
        ),
        (reload_error(v, shader) == Some(ReloadError::UnknownShaderType)) <==> (
        v.shaders.contains_key(shader) && v.shaders[shader] != GL_VERTEX_SHADER
            && v.shaders[shader] != GL_FRAGMENT_SHADER),
        (reload_error(v, shader) is None) <==> (v.shaders.contains_key(shader) && ((
        v.shaders[shader] == GL_VERTEX_SHADER && exists|p: i32|
            p != 0 && #[trigger] v.programs.contains_key(p) && v.programs[p].old_vertex_shader
                == shader) || (v.shaders[shader] == GL_FRAGMENT_SHADER && exists|p: i32|
            p != 0 && #[trigger] v.programs.contains_key(p) && v.programs[p].old_fragment_shader
                == shader))),
{
    if v.shaders.contains_key(shader) {
        if v.shaders[shader] == GL_VERTEX_SHADER {
            if exists|p: i32|
                p != 0 && #[trigger] v.programs.contains_key(p) && v.programs[p].old_vertex_shader
                    == shader {
                let p = choose|p: i32|
                    p != 0 && #[trigger] v.programs.contains_key(p)
                        && v.programs[p].old_vertex_shader == shader;
                assert(reload_candidate(v, ShaderKind::Vertex, shader, p));
            }
        } else if v.shaders[shader] == GL_FRAGMENT_SHADER {
            if exists|p: i32|
                p != 0 && #[trigger] v.programs.contains_key(p)
                    && v.programs[p].old_fragment_shader == shader {
                let p = choose|p: i32|
                    p != 0 && #[trigger] v.programs.contains_key(p)
                        && v.programs[p].old_fragment_shader == shader;
                assert(reload_candidate(v, ShaderKind::Fragment, shader, p));
            }
        }
    }
}


/// Attaching fails exactly for a shader never created through the
/// interposer, or one that is neither a vertex nor a fragment shader.
pub proof fn lemma_attach_error_cases(v: RegistryView, program: i32, shader: i32)
    ensures
        (attach_spec(v, program, shader) == Err::<RegistryView, AttachError>(
            AttachError::UnknownShader,
        )) <==> !v.shaders.contains_key(shader),
        (attach_spec(v, program, shader) == Err::<RegistryView, AttachError>(
            AttachError::UnknownShaderType,
        )) <==> (v.shaders.contains_key(shader) && v.shaders[shader] != GL_VERTEX_SHADER
            && v.shaders[shader] != GL_FRAGMENT_SHADER),
        (attach_spec(v, program, shader) is Ok) <==> (v.shaders.contains_key(shader) && (
        v.shaders[shader] == GL_VERTEX_SHADER || v.shaders[shader] == GL_FRAGMENT_SHADER)),
{
}

} // verus!
