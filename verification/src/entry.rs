//! Names under which the entry points of a graph-description module are
//! exported.

use vstd::prelude::*;
use vstd::string::*;

verus! {

/// Symbol of a module's table of entry points.
pub const ENTRY_TABLE_NAME: &'static str = "rpsl_M_entry_tbl";

/// Symbol of a module's identifier.
pub const MODULE_ID_NAME: &'static str = "rpsl_M_module_id";

/// The exported symbol of entry `entry` of module `module`:
/// `rpsl_M_<module>_E_<entry>`.
pub open spec fn entry_symbol(module: Seq<char>, entry: Seq<char>) -> Seq<char> {
    "rpsl_M_"@ + module + "_E_"@ + entry
}

/// Builds the exported symbol of an entry point from the names of its
/// module and of the entry.
pub fn entry_name(module_name: &str, entry: &str) -> (symbol: String)
    ensures
        symbol@ == entry_symbol(module_name@, entry@),
{
    let mut symbol = "rpsl_M_".to_owned();
    symbol.append(module_name);
    symbol.append("_E_");
    symbol.append(entry);
    symbol
}

/// An entry symbol is ten characters longer than the two names together,
/// begins with `rpsl_M_`, and holds the module's name right after that.
pub proof fn lemma_entry_symbol_shape(module: Seq<char>, entry: Seq<char>)
    ensures
        entry_symbol(module, entry).len() == 10 + module.len() + entry.len(),
        entry_symbol(module, entry).subrange(0, 7) == "rpsl_M_"@,
        entry_symbol(module, entry).subrange(7, 7 + module.len() as int) == module,
        entry_symbol(module, entry).skip(10 + module.len() as int) == entry,
{
    reveal_strlit("rpsl_M_");
    reveal_strlit("_E_");
    let symbol = entry_symbol(module, entry);
    assert(symbol.subrange(0, 7) =~= "rpsl_M_"@);
    assert(symbol.subrange(7, 7 + module.len() as int) =~= module);
    assert(symbol.skip(10 + module.len() as int) =~= entry);
}

} // verus!
