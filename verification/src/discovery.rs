//! Which files count as plugin modules.

use vstd::prelude::*;

verus! {

/// Whether `name` is the name of a plugin module: a file name whose
/// extension is `clap`. The extension is what follows the last dot, and a
/// dot at the very start of a name begins no extension.
pub open spec fn is_module_name(name: Seq<u8>) -> bool {
    &&& name.len() > 5
    &&& name[name.len() - 5] == 0x2e
    &&& name[name.len() - 4] == 0x63
    &&& name[name.len() - 3] == 0x6c
    &&& name[name.len() - 2] == 0x61
    &&& name[name.len() - 1] == 0x70
}

/// Whether the file name `name`, given as its bytes, has the extension `clap`.
pub fn has_module_extension(name: &[u8]) -> (is_module: bool)
    ensures
        is_module == is_module_name(name@),
{
    let len: usize = name.len();
    len > 5 && name[len - 5] == 0x2e && name[len - 4] == 0x63 && name[len - 3] == 0x6c && name[len
        - 2] == 0x61 && name[len - 1] == 0x70
}

} // verus!
