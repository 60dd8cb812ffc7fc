use crate::header::MachHeader;
use crate::load_commands::{LoadCommand, Section};
use crate::symbols::Symtab;
use vstd::prelude::*;

verus! {

/// A decoded image: the header, the load commands with, for each, its
/// sections and its trailing string bytes, and the symbol table.
pub struct MachO {
    pub header: Option<MachHeader>,
    pub load_commands: Option<(Vec<LoadCommand>, Vec<Vec<Section>>, Vec<Vec<u8>>)>,
    pub symtab: Option<Symtab>,
}

impl MachO {
    /// A document with nothing decoded yet.
    pub fn new() -> (r: Self)
        ensures
            r.header is None,
            r.load_commands is None,
            r.symtab is None,
    {
        MachO { header: None, load_commands: None, symtab: None }
    }
}

} // verus!
