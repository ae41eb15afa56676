//! Shader programs: a loader that registers them by name at startup, and the
//! read-only manager it is finished into.
use vstd::prelude::*;

use crate::loader::registry::NameTable;

verus! {

/// A compiled shader stage, by its backend handle.
#[derive(Clone, Copy, Debug, PartialEq, Eq, Structural)]
pub struct Shader {
    id: u32,
}

impl View for Shader {
    type V = u32;

    closed spec fn view(&self) -> u32 {
        self.id
    }
}

impl Shader {
    /// The shader stage with backend handle `id`.
    pub fn new(id: u32) -> (s: Shader)
        ensures
            s@ == id,
    {
        Shader { id }
    }

    pub fn get_id(&self) -> (r: u32)
        ensures
            r == self@,
    {
        self.id
    }
}

/// A linked shader program, by its backend handle.
#[derive(Clone, Copy, Debug, PartialEq, Eq, Structural)]
pub struct ShaderProgram {
    id: u32,
}

impl View for ShaderProgram {
    type V = u32;

    closed spec fn view(&self) -> u32 {
        self.id
    }
}

impl ShaderProgram {
    /// The program with backend handle `id`.
    pub fn new(id: u32) -> (p: ShaderProgram)
        ensures
            p@ == id,
    {
        ShaderProgram { id }
    }

    pub fn get_id(&self) -> (r: u32)
        ensures
            r == self@,
    {
        self.id
    }
}

/// The programs registered under a name, with the first registration of each
/// name kept.
pub open spec fn register<R>(table: Map<Seq<char>, R>, name: Seq<char>, value: R) -> Map<
    Seq<char>,
    R,
> {
    if table.contains_key(name) {
        table
    } else {
        table.insert(name, value)
    }
}

/// Collects shader programs by name during startup.
pub struct ShaderLoader {
    programs: NameTable<ShaderProgram>,
}

impl View for ShaderLoader {
    type V = Map<Seq<char>, ShaderProgram>;

    closed spec fn view(&self) -> Map<Seq<char>, ShaderProgram> {
        self.programs@
    }
}

impl ShaderLoader {
    #[verifier::type_invariant]
    closed spec fn well_formed(self) -> bool {
        self.programs.wf()
    }

    /// A loader with no program.
    pub fn new() -> (l: ShaderLoader)
        ensures
            l@ == Map::<Seq<char>, ShaderProgram>::empty(),
    {
        ShaderLoader { programs: NameTable::new() }
    }

    /// Registers `program` under `program_name`; a name registered before
    /// keeps its first program.
    pub fn add_shader_program(self, program_name: &str, program: ShaderProgram) -> (l:
        ShaderLoader)
        ensures
            l@ == register(self@, program_name@, program),
    {
        proof {
            use_type_invariant(&self);
        }
        let mut programs = self.programs;
        programs.insert_if_absent(program_name, program);
        ShaderLoader { programs }
    }

    /// The read-only manager of the programs registered so far.
    pub fn finish(&self) -> (m: ShaderManager)
        ensures
            m@ == self@,
    {
        proof {
            use_type_invariant(self);
        }
        ShaderManager::new(self.programs.snapshot())
    }
}

/// Read-only lookup of shader programs by name.
pub struct ShaderManager {
    programs: NameTable<ShaderProgram>,
}

impl View for ShaderManager {
    type V = Map<Seq<char>, ShaderProgram>;

    closed spec fn view(&self) -> Map<Seq<char>, ShaderProgram> {
        self.programs@
    }
}

impl ShaderManager {
    #[verifier::type_invariant]
    closed spec fn well_formed(self) -> bool {
        self.programs.wf()
    }

    pub fn new(programs: NameTable<ShaderProgram>) -> (m: ShaderManager)
        requires
            programs.wf(),
        ensures
            m@ == programs@,
    {
        ShaderManager { programs }
    }

    /// The program registered under `program_name`, if any.
    pub fn try_get_shader_program(&self, program_name: &str) -> (r: Option<&ShaderProgram>)
        ensures
            match r {
                Some(p) => self@.contains_key(program_name@) && *p == self@[program_name@],
                None => !self@.contains_key(program_name@),
            },
    {
        proof {
            use_type_invariant(self);
        }
        self.programs.get(program_name)
    }

    /// The program registered under `program_name`, which must exist.
    pub fn get_shader_program(&self, program_name: &str) -> (r: &ShaderProgram)
        requires
            self@.contains_key(program_name@),
        ensures
            *r == self@[program_name@],
    {
        self.try_get_shader_program(program_name).unwrap()
    }
}

} // verus!
