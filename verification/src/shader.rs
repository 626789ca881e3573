//! The shader program: one linked device program and the locations of the
//! uniforms that were asked for.
//!
//! Only the device knows where a uniform lives. The first time a name is
//! used, the setter answers with the [`LocationQuery`] to put to the device;
//! the answer is stored with [`Shader::cache_location`] and serves every later
//! use of the name.

use vstd::prelude::*;
use vstd::hash_map::StringHashMap;
use vstd::string::StringExecFns;
use crate::command::{Command, CommandBuffer, CommandView, ShaderStage};
use crate::device::{DeviceState, UniformValue};

verus! {

impl ShaderStage {
    /// The stage's name in diagnostics.
    pub open spec fn spec_name(self) -> Seq<char> {
        match self {
            ShaderStage::Vertex => "vertex"@,
            ShaderStage::Fragment => "fragment"@,
        }
    }

    /// The stage's name in diagnostics.
    pub fn name(self) -> (name: &'static str)
        ensures
            name@ == self.spec_name(),
    {
        match self {
            ShaderStage::Vertex => "vertex",
            ShaderStage::Fragment => "fragment",
        }
    }
}

/// Whether the compile status that the device reports means failure. The
/// device reports zero for a shader that did not compile.
pub fn compile_failed(status: i32) -> (failed: bool)
    ensures
        failed == (status == 0),
{
    status == 0
}

/// The text of the diagnostic for a shader of `stage` that did not compile.
pub open spec fn failure_text(stage: ShaderStage, log: Seq<char>) -> Seq<char> {
    "Failed to compile "@ + stage.spec_name() + " shader: "@ + log
}

/// The diagnostic for a shader of `stage` that did not compile: the stage and
/// the device's own account, `log`.
pub fn failure_message(stage: ShaderStage, log: &str) -> (message: String)
    ensures
        message@ == failure_text(stage, log@),
{
    let mut message = String::from_str("Failed to compile ");
    message.append(stage.name());
    message.append(" shader: ");
    message.append(log);
    message
}

/// Whether the link status that the device reports means failure. The device
/// reports zero for a program that did not link.
pub fn link_failed(status: i32) -> (failed: bool)
    ensures
        failed == (status == 0),
{
    status == 0
}

/// The text of the diagnostic for a program that did not link.
pub open spec fn link_failure_text(log: Seq<char>) -> Seq<char> {
    "Failed to link program: "@ + log
}

/// The diagnostic for a program that did not link: the fact and the device's
/// own account, `log`.
pub fn link_failure_message(log: &str) -> (message: String)
    ensures
        message@ == link_failure_text(log@),
{
    let mut message = String::from_str("Failed to link program: ");
    message.append(log);
    message
}

/// The question to the device where the uniform `name` of `program` lives.
#[derive(Debug, PartialEq, Eq)]
pub struct LocationQuery {
    pub program: u32,
    pub name: String,
}

/// The cache after the device answered `location` for `name`: the first
/// answer for a name stays.
pub open spec fn remember(
    locations: Map<Seq<char>, i32>,
    name: Seq<char>,
    location: i32,
) -> Map<Seq<char>, i32> {
    if locations.contains_key(name) {
        locations
    } else {
        locations.insert(name, location)
    }
}

/// The device calls that build `program` from the sources of its two stages:
/// each stage is given its source, compiled and checked, then both are
/// attached, the program is linked and checked, and the stages are released.
pub open spec fn creation_trace(
    program: u32,
    vertex_shader: u32,
    fragment_shader: u32,
    vertex_source: Seq<char>,
    fragment_source: Seq<char>,
) -> Seq<CommandView> {
    seq![
        CommandView::ShaderSource { shader: vertex_shader, source: vertex_source },
        CommandView::CompileShader { shader: vertex_shader },
        CommandView::CheckCompileStatus { shader: vertex_shader, stage: ShaderStage::Vertex },
        CommandView::ShaderSource { shader: fragment_shader, source: fragment_source },
        CommandView::CompileShader { shader: fragment_shader },
        CommandView::CheckCompileStatus { shader: fragment_shader, stage: ShaderStage::Fragment },
        CommandView::AttachShader { program, shader: vertex_shader },
        CommandView::AttachShader { program, shader: fragment_shader },
        CommandView::LinkProgram { program },
        CommandView::CheckLinkStatus { program },
        CommandView::DeleteShader { shader: vertex_shader },
        CommandView::DeleteShader { shader: fragment_shader },
    ]
}

/// Owner of one linked device program, with the uniform locations learnt so
/// far.
///
/// The program is released by [`Shader::destroy`], which consumes the owner.
pub struct Shader {
    id: u32,
    location_cache: StringHashMap<i32>,
}

impl Shader {
    /// The device's name for the program.
    pub closed spec fn handle(&self) -> u32 {
        self.id
    }

    /// The uniform locations learnt so far, by name.
    pub closed spec fn locations(&self) -> Map<Seq<char>, i32> {
        self.location_cache@
    }

    /// Takes ownership of the unused program `program` and of the unused
    /// shader objects `vertex_shader` and `fragment_shader`, and records the
    /// build of the program from the two sources. No location is known yet.
    ///
    /// A stage that does not compile, or a program that does not link, is
    /// reported when its check is replayed; the build goes on regardless and
    /// leaves a program that cannot draw.
    pub fn new(
        out: &mut CommandBuffer,
        program: u32,
        vertex_shader: u32,
        fragment_shader: u32,
        vertex_source: String,
        fragment_source: String,
    ) -> (shader: Shader)
        ensures
            shader.handle() == program,
            shader.locations() == Map::<Seq<char>, i32>::empty(),
            final(out)@ == old(out)@ + creation_trace(
                program,
                vertex_shader,
                fragment_shader,
                vertex_source@,
                fragment_source@,
            ),
    {
        let ghost expected = creation_trace(
            program,
            vertex_shader,
            fragment_shader,
            vertex_source@,
            fragment_source@,
        );
        compile_shader(out, vertex_shader, ShaderStage::Vertex, vertex_source);
        compile_shader(out, fragment_shader, ShaderStage::Fragment, fragment_source);
        out.push(Command::AttachShader { program, shader: vertex_shader });
        out.push(Command::AttachShader { program, shader: fragment_shader });
        out.push(Command::LinkProgram { program });
        out.push(Command::CheckLinkStatus { program });
        out.push(Command::DeleteShader { shader: vertex_shader });
        out.push(Command::DeleteShader { shader: fragment_shader });
        assert(out@ =~= old(out)@ + expected);
        Shader { id: program, location_cache: StringHashMap::new() }
    }

    /// Records making this the active program.
    pub fn bind(&self, out: &mut CommandBuffer)
        ensures
            final(out)@ == old(out)@.push(CommandView::UseProgram { program: self.handle() }),
    {
        out.push(Command::UseProgram { program: self.id });
    }

    /// Records leaving no program active.
    pub fn unbind(&self, out: &mut CommandBuffer)
        ensures
            final(out)@ == old(out)@.push(CommandView::UseProgram { program: 0 }),
    {
        out.push(Command::UseProgram { program: 0 });
    }

    /// The location of the uniform `name`, if the device was asked for it
    /// before.
    pub fn get_location(&self, name: &str) -> (location: Option<i32>)
        ensures
            location == (if self.locations().contains_key(name@) {
                Some(self.locations()[name@])
            } else {
                None
            }),
    {
        match self.location_cache.get(name) {
            Some(location) => Some(*location),
            None => None,
        }
    }

    /// Stores the device's answer to a [`LocationQuery`] for `name`. An
    /// answer that is already stored stays: a location holds as long as the
    /// program does.
    pub fn cache_location(&mut self, name: &str, location: i32)
        ensures
            final(self).handle() == old(self).handle(),
            final(self).locations() == remember(old(self).locations(), name@, location),
    {
        if !self.location_cache.contains_key(name) {
            self.location_cache.insert(String::from_str(name), location);
        }
    }

    /// Records the upload of an integer to the uniform `name`, or asks for the
    /// uniform's location if it is not known yet and records nothing.
    pub fn set_uniform_1_i(&self, out: &mut CommandBuffer, name: &str, value: i32) -> (status:
        Result<(), LocationQuery>)
        ensures
            self.requested(name@, status),
            final(out)@ == (match status {
                Ok(_) => old(out)@.push(
                    CommandView::UniformInt { location: self.locations()[name@], value },
                ),
                Err(_) => old(out)@,
            }),
    {
        match self.get_location(name) {
            Some(location) => {
                out.push(Command::UniformInt { location, value });
                Ok(())
            },
            None => Err(self.query(name)),
        }
    }

    /// Records the upload of a column-major 4x4 matrix to the uniform `name`,
    /// or asks for the uniform's location if it is not known yet and records
    /// nothing.
    pub fn set_uniform_mat4(&self, out: &mut CommandBuffer, name: &str, matrix: [u32; 16]) -> (status:
        Result<(), LocationQuery>)
        ensures
            self.requested(name@, status),
            final(out)@ == (match status {
                Ok(_) => old(out)@.push(
                    CommandView::UniformMat4 { location: self.locations()[name@], matrix: matrix@ },
                ),
                Err(_) => old(out)@,
            }),
    {
        match self.get_location(name) {
            Some(location) => {
                out.push(Command::UniformMat4 { location, matrix });
                Ok(())
            },
            None => Err(self.query(name)),
        }
    }

    /// Records the upload of a 3-vector to the uniform `name`, or asks for the
    /// uniform's location if it is not known yet and records nothing.
    pub fn set_uniform_vec3(&self, out: &mut CommandBuffer, name: &str, vector: [u32; 3]) -> (status:
        Result<(), LocationQuery>)
        ensures
            self.requested(name@, status),
            final(out)@ == (match status {
                Ok(_) => old(out)@.push(
                    CommandView::UniformVec3 { location: self.locations()[name@], vector: vector@ },
                ),
                Err(_) => old(out)@,
            }),
    {
        match self.get_location(name) {
            Some(location) => {
                out.push(Command::UniformVec3 { location, vector });
                Ok(())
            },
            None => Err(self.query(name)),
        }
    }

    /// What a setter answers for the uniform `name`: success exactly if the
    /// location is known, and otherwise the question for this program and this
    /// name.
    pub open spec fn requested(&self, name: Seq<char>, status: Result<(), LocationQuery>) -> bool {
        match status {
            Ok(_) => self.locations().contains_key(name),
            Err(query) => {
                &&& !self.locations().contains_key(name)
                &&& query.program == self.handle()
                &&& query.name@ == name
            },
        }
    }

    /// Records the release of the program.
    pub fn destroy(self, out: &mut CommandBuffer)
        ensures
            final(out)@ == old(out)@.push(CommandView::DeleteProgram { program: self.handle() }),
    {
        out.push(Command::DeleteProgram { program: self.id });
    }

    /// The question to the device for the location of `name`.
    pub(crate) fn query(&self, name: &str) -> (query: LocationQuery)
        ensures
            query.program == self.handle(),
            query.name@ == name@,
    {
        LocationQuery { program: self.id, name: String::from_str(name) }
    }
}

/// Records giving `shader` its source, compiling it and checking the outcome.
fn compile_shader(out: &mut CommandBuffer, shader: u32, stage: ShaderStage, source: String)
    ensures
        final(out)@ == old(out)@.push(CommandView::ShaderSource { shader, source: source@ }).push(
            CommandView::CompileShader { shader },
        ).push(CommandView::CheckCompileStatus { shader, stage }),
{
    out.push(Command::ShaderSource { shader, source });
    out.push(Command::CompileShader { shader });
    out.push(Command::CheckCompileStatus { shader, stage });
}

/// Once the device's answer for a name is stored, the name is known, and the
/// stored location outlives every later answer, for this name or another.
pub proof fn lemma_location_is_stable(
    locations: Map<Seq<char>, i32>,
    name: Seq<char>,
    location: i32,
    later_name: Seq<char>,
    later_location: i32,
)
    ensures
        remember(locations, name, location).contains_key(name),
        !locations.contains_key(name) ==> remember(locations, name, location)[name] == location,
        remember(remember(locations, name, location), later_name, later_location)[name]
            == remember(locations, name, location)[name],
        remember(remember(locations, name, location), later_name, later_location).contains_key(
            name,
        ),
{
}

/// A stored answer changes nothing for other names.
pub proof fn lemma_remember_is_local(
    locations: Map<Seq<char>, i32>,
    name: Seq<char>,
    location: i32,
    other: Seq<char>,
)
    requires
        other != name,
    ensures
        remember(locations, name, location).contains_key(other) == locations.contains_key(other),
        locations.contains_key(other) ==> remember(locations, name, location)[other]
            == locations[other],
{
}

/// The device is asked for a name at most once: after the answer is stored,
/// whatever a setter answers for the name is success, with the location that
/// was stored first.
pub proof fn lemma_stored_location_is_not_asked_again(
    before: Shader,
    after: Shader,
    name: Seq<char>,
    location: i32,
    status: Result<(), LocationQuery>,
)
    requires
        after.locations() == remember(before.locations(), name, location),
        after.requested(name, status),
    ensures
        status is Ok,
        after.locations()[name] == (if before.locations().contains_key(name) {
            before.locations()[name]
        } else {
            location
        }),
{
}

/// After a bind, an upload that a setter recorded puts the value into this
/// program's uniform at the given location, whatever was active before.
pub proof fn lemma_bound_upload_reaches_program(
    shader: Shader,
    before: DeviceState,
    upload: CommandView,
)
    requires
        upload is UniformInt || upload is UniformMat4 || upload is UniformVec3,
    ensures
        ({
            let after = before.run(
                seq![CommandView::UseProgram { program: shader.handle() }, upload],
            );
            &&& upload matches CommandView::UniformInt { location, value }
                ==> after.uniforms[(shader.handle(), location)] == UniformValue::Int(value)
            &&& upload matches CommandView::UniformMat4 { location, matrix }
                ==> after.uniforms[(shader.handle(), location)] == UniformValue::Mat4(matrix)
            &&& upload matches CommandView::UniformVec3 { location, vector }
                ==> after.uniforms[(shader.handle(), location)] == UniformValue::Vec3(vector)
            &&& after.program == shader.handle()
        }),
{
    reveal_with_fuel(DeviceState::run, 3);
}

} // verus!
