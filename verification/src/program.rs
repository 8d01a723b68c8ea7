//! Shader programs and their uniform variables.

use crate::commands::Command;
use crate::commands::CommandView;
use crate::renderer::Renderer;
use crate::values::FloatBits;
use crate::values::Mat4Bits;
use crate::values::Vec2Bits;
use std::string::FromUtf8Error;
use vstd::prelude::*;
use vstd::slice::slice_subrange;
use vstd::slice::slice_to_vec;
use vstd::utf8::decode_utf8;
use vstd::utf8::encode_utf8;
use vstd::utf8::encode_utf8_decode_utf8;
use vstd::utf8::encode_utf8_valid_utf8;
use vstd::utf8::valid_utf8;

verus! {

/// Longest uniform name, in bytes, that the runtime keeps. The host reads
/// names into a buffer of this size; what is longer is cut off.
pub const UNIFORM_NAME_CAPACITY: usize = 128;

/// `std::string::FromUtf8Error`, which says why a byte string is not UTF-8.
/// It is carried through unread: nothing is claimed of what it holds.
#[verifier::external_type_specification]
#[verifier::external_body]
pub struct ExFromUtf8Error(FromUtf8Error);

/// What can go wrong while a program is built or used.
#[derive(Debug, PartialEq, Eq)]
pub enum ProgramError {
    /// The driver's diagnostic text is not UTF-8.
    ErrorMsgConversion(FromUtf8Error),
    /// The program has no uniform of this name.
    NoSuchUniform(String),
    /// Linking failed; the text is the driver's info log.
    ProgramLinking(String),
    /// The driver gave no program object.
    ProgramCreation,
    /// Compiling a shader failed; the text is the driver's info log.
    ShaderCompilation(String),
    /// The driver gave no shader object.
    ShaderCreation,
}

/// The mathematical value of a [`ProgramError`].
pub enum ErrorView {
    ErrorMsgConversion,
    NoSuchUniform(Seq<char>),
    ProgramLinking(Seq<char>),
    ProgramCreation,
    ShaderCompilation(Seq<char>),
    ShaderCreation,
}

impl View for ProgramError {
    type V = ErrorView;

    open spec fn view(&self) -> ErrorView {
        match self {
            ProgramError::ErrorMsgConversion(_) => ErrorView::ErrorMsgConversion,
            ProgramError::NoSuchUniform(name) => ErrorView::NoSuchUniform(name@),
            ProgramError::ProgramLinking(log) => ErrorView::ProgramLinking(log@),
            ProgramError::ProgramCreation => ErrorView::ProgramCreation,
            ProgramError::ShaderCompilation(log) => ErrorView::ShaderCompilation(log@),
            ProgramError::ShaderCreation => ErrorView::ShaderCreation,
        }
    }
}

/// The text that `String::from_utf8_lossy` reads `bytes` as: the decoded
/// characters, with a replacement character for what does not decode.
pub uninterp spec fn lossy_text(bytes: Seq<u8>) -> Seq<char>;

/// The text that `bytes` are read as: what they encode where they are valid
/// UTF-8, and their lossy reading where they are not.
pub open spec fn text_of(bytes: Seq<u8>) -> Seq<char> {
    if valid_utf8(bytes) {
        decode_utf8(bytes)
    } else {
        lossy_text(bytes)
    }
}

/// Calls `String::from_utf8_lossy` and copies the result into a `String`.
///
/// Taken on trust from the standard library: the text depends on the bytes
/// alone; where they are valid UTF-8 it is the text they encode, unchanged;
/// where they are not, it is their lossy reading, of which no more is said.
#[verifier::external_body]
fn decode_lossy(bytes: &[u8]) -> (text: String)
    ensures
        text@ == text_of(bytes@),
        !valid_utf8(bytes@) ==> text@ == lossy_text(bytes@),
{
    String::from_utf8_lossy(bytes).into_owned()
}

/// Calls `String::from_utf8`.
///
/// Taken on trust from the standard library: the call succeeds exactly where
/// `bytes` are valid UTF-8, and then gives the text that they encode.
#[verifier::external_body]
pub(crate) fn decode_strict(bytes: Vec<u8>) -> (text: Result<String, FromUtf8Error>)
    ensures
        text is Ok <==> valid_utf8(bytes@),
        text matches Ok(s) ==> s@ == decode_utf8(bytes@),
{
    String::from_utf8(bytes)
}

/// Location of a uniform variable in its program; `-1` where the driver
/// has none for it.
#[derive(Clone, Copy, Debug, PartialEq, Eq, Structural)]
pub struct UniformId(pub i32);

/// One active uniform as the driver reports it.
#[derive(Clone, Debug, PartialEq, Eq)]
pub struct ActiveUniform {
    /// The bytes of its name, without a terminator.
    pub name: Vec<u8>,
    /// Its location.
    pub location: i32,
}

impl View for ActiveUniform {
    type V = (Seq<u8>, i32);

    open spec fn view(&self) -> (Seq<u8>, i32) {
        (self.name@, self.location)
    }
}

/// The mathematical values of a list of reports, in the same order.
pub open spec fn report_views(reports: Seq<ActiveUniform>) -> Seq<(Seq<u8>, i32)> {
    reports.map_values(|u: ActiveUniform| u@)
}

/// The part of a reported name that is kept: its first
/// `UNIFORM_NAME_CAPACITY` bytes.
pub open spec fn kept_name(name: Seq<u8>) -> Seq<u8> {
    if name.len() <= UNIFORM_NAME_CAPACITY {
        name
    } else {
        name.take(UNIFORM_NAME_CAPACITY as int)
    }
}

/// The cache entry of each report: the kept part of the name, read as text,
/// with the location.
pub open spec fn named(reports: Seq<(Seq<u8>, i32)>) -> Seq<(Seq<char>, i32)> {
    reports.map_values(|u: (Seq<u8>, i32)| (text_of(kept_name(u.0)), u.1))
}

/// The map from name to location that `entries` build up when each is
/// inserted in turn, a later entry replacing an earlier one of its name.
pub open spec fn locations(entries: Seq<(Seq<char>, i32)>) -> Map<Seq<char>, i32>
    decreases entries.len(),
{
    if entries.len() == 0 {
        Map::empty()
    } else {
        locations(entries.drop_last()).insert(entries.last().0, entries.last().1)
    }
}

/// Where `name` is the name of entry `at` and of none after it, the map has
/// the location of that entry.
proof fn lemma_locations_last_match(entries: Seq<(Seq<char>, i32)>, name: Seq<char>, at: int)
    requires
        0 <= at < entries.len(),
        entries[at].0 == name,
        forall|k: int| at < k < entries.len() ==> entries[k].0 != name,
    ensures
        locations(entries).contains_key(name),
        locations(entries)[name] == entries[at].1,
    decreases entries.len(),
{
    if at < entries.len() - 1 {
        lemma_locations_last_match(entries.drop_last(), name, at);
    }
}

/// Where `name` is the name of an entry, the map has it.
proof fn lemma_locations_match(entries: Seq<(Seq<char>, i32)>, name: Seq<char>, at: int)
    requires
        0 <= at < entries.len(),
        entries[at].0 == name,
    ensures
        locations(entries).contains_key(name),
    decreases entries.len(),
{
    if at < entries.len() - 1 {
        lemma_locations_match(entries.drop_last(), name, at);
    }
}

/// Where `name` is the name of no entry, the map does not have it.
proof fn lemma_locations_no_match(entries: Seq<(Seq<char>, i32)>, name: Seq<char>)
    requires
        forall|k: int| 0 <= k < entries.len() ==> entries[k].0 != name,
    ensures
        !locations(entries).contains_key(name),
    decreases entries.len(),
{
    if entries.len() > 0 {
        lemma_locations_no_match(entries.drop_last(), name);
    }
}

/// A uniform that the driver reports is cached under its name, where the
/// name takes no more than `UNIFORM_NAME_CAPACITY` bytes: after
/// `update_uniforms`, `set_uniform` finds it.
pub proof fn lemma_reported_uniform_is_cached(
    reports: Seq<(Seq<u8>, i32)>,
    at: int,
    name: Seq<char>,
)
    requires
        0 <= at < reports.len(),
        reports[at].0 == encode_utf8(name),
        encode_utf8(name).len() <= UNIFORM_NAME_CAPACITY,
    ensures
        locations(named(reports)).contains_key(name),
{
    encode_utf8_valid_utf8(name);
    encode_utf8_decode_utf8(name);
    assert(named(reports)[at].0 == name);
    lemma_locations_match(named(reports), name, at);
}

/// A name under which the driver reports no uniform is not cached: after
/// `update_uniforms`, `set_uniform` does not find it.
pub proof fn lemma_unreported_uniform_is_not_cached(reports: Seq<(Seq<u8>, i32)>, name: Seq<char>)
    requires
        forall|k: int| 0 <= k < reports.len() ==> text_of(kept_name(#[trigger] reports[k].0)) != name,
    ensures
        !locations(named(reports)).contains_key(name),
{
    assert forall|k: int| 0 <= k < named(reports).len() implies named(reports)[k].0 != name by {
        assert(named(reports)[k].0 == text_of(kept_name(reports[k].0)));
    }
    lemma_locations_no_match(named(reports), name);
}

/// The mathematical value of a [`Program`].
pub struct ProgramView {
    /// Name of the program object.
    pub id: u32,
    /// Location of every cached uniform, by name.
    pub uniforms: Map<Seq<char>, i32>,
}

/// Handle of one linked GPU program, with the locations of its uniforms.
///
/// The handle owns the program object: it is the only one for it, and
/// [`Program::release`] consumes it.
pub struct Program {
    id: u32,
    uniforms: Vec<(String, UniformId)>,
}

impl View for Program {
    type V = ProgramView;

    closed spec fn view(&self) -> ProgramView {
        ProgramView { id: self.id, uniforms: locations(entry_views(self.uniforms@)) }
    }
}

/// The mathematical values of cache entries, in the same order.
pub open spec fn entry_views(entries: Seq<(String, UniformId)>) -> Seq<(Seq<char>, i32)> {
    entries.map_values(|e: (String, UniformId)| (e.0@, e.1.0))
}

/// Handle of one GPU shader object.
///
/// The handle owns the shader: it is the only one for it, and
/// [`Shader::release`] consumes it.
pub struct Shader {
    id: u32,
}

impl Shader {
    /// Name of the shader object.
    pub closed spec fn name(&self) -> u32 {
        self.id
    }

    /// The handle of the shader object `id`, a name that the driver has just
    /// created; `ShaderCreation` where `id` is zero, which is how the driver
    /// says that it created none.
    pub fn new(id: u32) -> (created: Result<Shader, ProgramError>)
        ensures
            match created {
                Ok(shader) => id != 0 && shader.name() == id,
                Err(error) => id == 0 && error@ == ErrorView::ShaderCreation,
            },
    {
        if id != 0 {
            Ok(Shader { id })
        } else {
            Err(ProgramError::ShaderCreation)
        }
    }

    /// Name of the shader object.
    pub fn id(&self) -> (id: u32)
        ensures
            id == self.name(),
    {
        self.id
    }

    /// Gives the shader object back to the driver. The handle is consumed,
    /// so the shader is deleted once and never used after.
    pub fn release(self, renderer: &mut Renderer)
        ensures
            final(renderer)@ == old(renderer)@.push(
                (CommandView::DeleteShader { shader: self.name() }),
            ),
    {
        renderer.issue(Command::DeleteShader { shader: self.id });
    }
}

/// A value that can be uploaded to a uniform variable.
pub trait UniformType {
    /// The calls that upload this value to `location` of `program`.
    spec fn upload(&self, program: u32, location: i32) -> Seq<CommandView>;

    /// Uploads this value to the uniform `uniform_id` of `program`.
    fn set_uniform(&self, renderer: &mut Renderer, program: &Program, uniform_id: UniformId)
        ensures
            final(renderer)@ == old(renderer)@ + self.upload(program@.id, uniform_id.0),
    ;
}

impl UniformType for FloatBits {
    open spec fn upload(&self, program: u32, location: i32) -> Seq<CommandView> {
        seq![CommandView::ProgramUniform1f { program, location, v0: self.0 }]
    }

    fn set_uniform(&self, renderer: &mut Renderer, program: &Program, uniform_id: UniformId) {
        renderer.issue(
            Command::ProgramUniform1f { program: program.id, location: uniform_id.0, v0: self.0 },
        );
        assert(renderer@ =~= old(renderer)@ + self.upload(program@.id, uniform_id.0));
    }
}

impl UniformType for Vec2Bits {
    open spec fn upload(&self, program: u32, location: i32) -> Seq<CommandView> {
        seq![CommandView::ProgramUniform2fv { program, location, count: 1, value: self.0@ }]
    }

    fn set_uniform(&self, renderer: &mut Renderer, program: &Program, uniform_id: UniformId) {
        let value = slice_to_vec(self.0.as_slice());
        renderer.issue(
            Command::ProgramUniform2fv {
                program: program.id,
                location: uniform_id.0,
                count: 1,
                value,
            },
        );
        assert(renderer@ =~= old(renderer)@ + self.upload(program@.id, uniform_id.0));
    }
}

impl UniformType for Mat4Bits {
    open spec fn upload(&self, program: u32, location: i32) -> Seq<CommandView> {
        seq![
            CommandView::ProgramUniformMatrix4fv {
                program,
                location,
                count: 1,
                transpose: false,
                value: self.0@,
            },
        ]
    }

    fn set_uniform(&self, renderer: &mut Renderer, program: &Program, uniform_id: UniformId) {
        let value = slice_to_vec(self.0.as_slice());
        renderer.issue(
            Command::ProgramUniformMatrix4fv {
                program: program.id,
                location: uniform_id.0,
                count: 1,
                transpose: false,
                value,
            },
        );
        assert(renderer@ =~= old(renderer)@ + self.upload(program@.id, uniform_id.0));
    }
}

impl Program {
    /// The handle of the program object `id`, a name that the driver has just
    /// created, with no uniform cached; `ProgramCreation` where `id` is
    /// zero, which is how the driver says that it created none.
    pub fn new(id: u32) -> (created: Result<Program, ProgramError>)
        ensures
            match created {
                Ok(program) => id != 0 && program@ == (ProgramView { id, uniforms: Map::empty() }),
                Err(error) => id == 0 && error@ == ErrorView::ProgramCreation,
            },
    {
        if id != 0 {
            let program = Program { id, uniforms: Vec::new() };
            assert(entry_views(program.uniforms@) =~= Seq::empty());
            Ok(program)
        } else {
            Err(ProgramError::ProgramCreation)
        }
    }

    /// Name of the program object.
    pub fn id(&self) -> (id: u32)
        ensures
            id == self@.id,
    {
        self.id
    }

    /// Makes the program the current program.
    pub fn apply(&self, renderer: &mut Renderer)
        ensures
            final(renderer)@ == old(renderer)@.push((CommandView::UseProgram { program: self@.id })),
    {
        renderer.issue(Command::UseProgram { program: self.id });
    }

    /// The cached location of the uniform `name`, if there is one.
    pub fn location(&self, name: &str) -> (found: Option<UniformId>)
        ensures
            match found {
                Some(id) => self@.uniforms.contains_key(name@) && self@.uniforms[name@] == id.0,
                None => !self@.uniforms.contains_key(name@),
            },
    {
        let wanted: String = name.to_owned();
        let ghost entries = entry_views(self.uniforms@);
        let mut i: usize = self.uniforms.len();
        while i > 0
            invariant
                i <= self.uniforms.len(),
                wanted@ == name@,
                entries == entry_views(self.uniforms@),
                forall|k: int| i <= k < entries.len() ==> entries[k].0 != name@,
            decreases i,
        {
            i -= 1;
            if self.uniforms[i].0 == wanted {
                proof {
                    lemma_locations_last_match(entries, name@, i as int);
                }
                return Some(self.uniforms[i].1);
            }
        }
        proof {
            lemma_locations_no_match(entries, name@);
        }
        None
    }

    /// Uploads `value` to the uniform `name` and tells whether the program
    /// has a uniform of that name. Where it has none, nothing is issued.
    pub fn set_uniform<U: UniformType>(&self, renderer: &mut Renderer, name: &str, value: &U) -> (found:
        bool)
        ensures
            found == self@.uniforms.contains_key(name@),
            found ==> final(renderer)@ == old(renderer)@ + value.upload(
                self@.id,
                self@.uniforms[name@],
            ),
            !found ==> final(renderer)@ == old(renderer)@,
    {
        match self.location(name) {
            Some(uniform_id) => {
                value.set_uniform(renderer, self, uniform_id);
                true
            },
            None => false,
        }
    }

    /// Replaces the cache by `entries`, inserted in turn.
    pub fn cache_uniforms(&mut self, entries: Vec<(String, UniformId)>)
        ensures
            final(self)@ == (ProgramView {
                id: old(self)@.id,
                uniforms: locations(entry_views(entries@)),
            }),
    {
        self.uniforms = entries;
    }

    /// Replaces the cache by what the driver reports of the program after
    /// its last link: one entry per active uniform, under the kept part of
    /// its name.
    pub fn update_uniforms(&mut self, active: Vec<ActiveUniform>)
        ensures
            final(self)@ == (ProgramView {
                id: old(self)@.id,
                uniforms: locations(named(report_views(active@))),
            }),
    {
        let mut entries: Vec<(String, UniformId)> = Vec::new();
        let mut i: usize = 0;
        while i < active.len()
            invariant
                i <= active.len(),
                entry_views(entries@) == named(report_views(active@.take(i as int))),
            decreases active.len() - i,
        {
            let report = &active[i];
            let kept = if report.name.len() <= UNIFORM_NAME_CAPACITY {
                report.name.as_slice()
            } else {
                slice_subrange(report.name.as_slice(), 0, UNIFORM_NAME_CAPACITY)
            };
            let name = decode_lossy(kept);
            let ghost before = entries@;
            entries.push((name, UniformId(report.location)));
            proof {
                let done = active@.take(i as int);
                let next = active@.take(i + 1);
                assert(next == done.push(active@[i as int]));
                assert(kept@ == kept_name(active@[i as int].name@));
                assert(entry_views(entries@) =~= entry_views(before).push(
                    (text_of(kept_name(active@[i as int].name@)), active@[i as int].location),
                ));
                assert(named(report_views(next)) =~= named(report_views(done)).push(
                    (text_of(kept_name(active@[i as int].name@)), active@[i as int].location),
                ));
            }
            i += 1;
        }
        assert(active@.take(i as int) == active@);
        self.cache_uniforms(entries);
    }

    /// Gives the program object back to the driver. The handle is consumed,
    /// so the program is deleted once and never used after.
    pub fn release(self, renderer: &mut Renderer)
        ensures
            final(renderer)@ == old(renderer)@.push(
                (CommandView::DeleteProgram { program: self@.id }),
            ),
    {
        renderer.issue(Command::DeleteProgram { program: self.id });
    }
}

} // verus!
