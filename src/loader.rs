//! Loading of named GPU resources at startup.
use vstd::prelude::*;

use crate::loader::shaders::register;

pub mod registry;
pub mod shaders;
pub mod textures;

verus! {

/// Declares `std::io::Error` so that a load error can carry the I/O error
/// that caused it; the library only moves such values, and assumes nothing
/// of them.
#[verifier::external_type_specification]
#[verifier::external_body]
pub struct ExIoError(std::io::Error);

/// Why an asset could not be loaded.
#[derive(Debug)]
pub enum Error {
    /// The asset could not be read.
    Io(std::io::Error),
    /// A text asset holds a nul byte, so it cannot be handed to the backend
    /// as a C string.
    FileContainsNil,
}

impl From<std::io::Error> for Error {
    fn from(other: std::io::Error) -> (r: Error) {
        Error::Io(other)
    }
}

impl vstd::std_specs::convert::FromSpecImpl<std::io::Error> for Error {
    open spec fn obeys_from_spec() -> bool {
        true
    }

    open spec fn from_spec(v: std::io::Error) -> Error {
        Error::Io(v)
    }
}

/// Checks the bytes of a text asset (a shader stage's source): they are
/// accepted exactly when none of them is a nul byte.
pub fn check_text_source(buffer: &Vec<u8>) -> (r: Result<(), Error>)
    ensures
        r is Ok <==> !buffer@.contains(0u8),
        r is Err ==> r == Err::<(), Error>(Error::FileContainsNil),
{
    let mut i: usize = 0;
    while i < buffer.len()
        invariant
            i <= buffer@.len(),
            forall|j: int| 0 <= j < i ==> buffer@[j] != 0u8,
        decreases buffer@.len() - i,
    {
        if buffer[i] == 0 {
            return Err(Error::FileContainsNil);
        }
        i = i + 1;
    }
    Ok(())
}

/// The table that successive registrations of `(name, resource)` build,
/// each through a loader's insert-if-absent step.
pub open spec fn registrations<R>(regs: Seq<(Seq<char>, R)>) -> Map<Seq<char>, R>
    decreases regs.len(),
{
    if regs.len() == 0 {
        Map::empty()
    } else {
        register(registrations(regs.drop_last()), regs.last().0, regs.last().1)
    }
}

/// Every registered name keeps the resource of its first registration,
/// whatever is registered under it later.
pub proof fn lemma_first_registration_wins<R>(regs: Seq<(Seq<char>, R)>, i: int)
    requires
        0 <= i < regs.len(),
        forall|j: int| 0 <= j < i ==> (#[trigger] regs[j]).0 != regs[i].0,
    ensures
        registrations(regs).contains_key(regs[i].0),
        registrations(regs)[regs[i].0] == regs[i].1,
    decreases regs.len(),
{
    let before = regs.drop_last();
    if i < regs.len() - 1 {
        assert forall|j: int| 0 <= j < i implies (#[trigger] before[j]).0 != before[i].0 by {
            assert(before[j] == regs[j]);
        }
        lemma_first_registration_wins(before, i);
    } else {
        lemma_unregistered_name_absent(before, regs[i].0);
    }
}

/// A name that was never registered is in no table built from the
/// registrations.
pub proof fn lemma_unregistered_name_absent<R>(regs: Seq<(Seq<char>, R)>, name: Seq<char>)
    requires
        forall|j: int| 0 <= j < regs.len() ==> (#[trigger] regs[j]).0 != name,
    ensures
        !registrations(regs).contains_key(name),
    decreases regs.len(),
{
    if regs.len() > 0 {
        let before = regs.drop_last();
        assert forall|j: int| 0 <= j < before.len() implies (#[trigger] before[j]).0 != name by {
            assert(before[j] == regs[j]);
        }
        lemma_unregistered_name_absent(before, name);
    }
}

} // verus!
