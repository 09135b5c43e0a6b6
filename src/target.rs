use vstd::prelude::*;
use std::collections::BTreeMap;

verus! {

/// `defmt_elf2table::Table`, the trace-decode table, carried through unopened.
#[verifier::external_type_specification]
#[verifier::external_body]
pub struct ExTable(defmt_elf2table::Table);

/// `defmt_elf2table::Location`, a source location, carried through unopened.
#[verifier::external_type_specification]
#[verifier::external_body]
pub struct ExLocation(defmt_elf2table::Location);

/// `anyhow::Error`, the trace parser's error, carried through unopened.
#[verifier::external_type_specification]
#[verifier::external_body]
pub struct ExAnyhowError(anyhow::Error);

/// Where to look for the RTT control block on the target.
#[derive(Clone, Copy, Debug, PartialEq, Eq, Structural)]
pub enum ScanRegion {
    /// At this address.
    Exact(u32),
    /// Anywhere in RAM.
    Ram,
}

/// The symbol table that `goblin` reads from an ELF image, as names (when
/// readable) and values; `None` when the image does not parse.
pub uninterp spec fn elf_symbols(elf: Seq<u8>) -> Option<Seq<(Option<Seq<char>>, u64)>>;

/// A symbol list as names and values.
pub open spec fn symbol_views(syms: Seq<(Option<String>, u64)>) -> Seq<(Option<Seq<char>>, u64)> {
    syms.map_values(
        |e: (Option<String>, u64)|
            (
                match e.0 {
                    Some(n) => Some(n@),
                    None => None,
                },
                e.1,
            ),
    )
}

/// Relies on `goblin::elf::Elf::parse` and `Strtab::get`: the symbols of a
/// parsed image depend on its bytes alone.
#[verifier::external_body]
fn read_elf_symbols(elf: &Vec<u8>) -> (r: Option<Vec<(Option<String>, u64)>>)
    ensures
        match r {
            Some(v) => elf_symbols(elf@) == Some(symbol_views(v@)),
            None => elf_symbols(elf@) is None,
        },
{
    match goblin::elf::Elf::parse(elf.as_slice()) {
        Ok(binary) => Some(
            binary.syms.iter().map(
                |sym| (binary.strtab.get(sym.st_name).and_then(|n| n.ok()).map(|n| n.to_owned()), sym.st_value),
            ).collect(),
        ),
        Err(_) => None,
    }
}

/// The value of the first symbol named `_SEGGER_RTT`, the RTT control block.
pub open spec fn rtt_symbol(syms: Seq<(Option<Seq<char>>, u64)>) -> Option<u64>
    decreases syms.len(),
{
    if syms.len() == 0 {
        None
    } else if syms[0].0 == Some("_SEGGER_RTT"@) {
        Some(syms[0].1)
    } else {
        rtt_symbol(syms.skip(1))
    }
}

/// Finds the address of the RTT control block in a symbol list.
pub fn find_rtt_symbol(syms: &Vec<(Option<String>, u64)>) -> (r: Option<u64>)
    ensures
        r == rtt_symbol(symbol_views(syms@)),
{
    let target = "_SEGGER_RTT".to_owned();
    let ghost all = symbol_views(syms@);
    let mut i: usize = 0;
    assert(all.skip(0) =~= all);
    while i < syms.len()
        invariant
            i <= syms.len(),
            all == symbol_views(syms@),
            target@ == "_SEGGER_RTT"@,
            rtt_symbol(all) == rtt_symbol(all.skip(i as int)),
        decreases syms.len() - i,
    {
        let ghost rest = all.skip(i as int);
        assert(rest.skip(1) =~= all.skip(i + 1));
        assert(rest[0] == all[i as int]);
        let found = match &syms[i].0 {
            Some(name) => *name == target,
            None => false,
        };
        if found {
            return Some(syms[i].1);
        }
        i = i + 1;
    }
    assert(all.skip(i as int).len() == 0);
    None
}

/// Where the RTT control block lies for a given symbol address.
pub open spec fn region_for(addr: Option<u64>) -> ScanRegion {
    match addr {
        Some(a) => ScanRegion::Exact(a as u32),
        None => ScanRegion::Ram,
    }
}

/// The region to search for the RTT control block, given the ELF image if it
/// could be read: the address of its `_SEGGER_RTT` symbol, else all of RAM.
pub fn rtt_scan_region(elf: Option<Vec<u8>>) -> (r: ScanRegion)
    ensures
        r == match elf {
            None => ScanRegion::Ram,
            Some(b) => match elf_symbols(b@) {
                None => ScanRegion::Ram,
                Some(syms) => region_for(rtt_symbol(syms)),
            },
        },
{
    match elf {
        None => ScanRegion::Ram,
        Some(bytes) => match read_elf_symbols(&bytes) {
            None => ScanRegion::Ram,
            Some(syms) => match find_rtt_symbol(&syms) {
                Some(a) => ScanRegion::Exact(a as u32),
                None => ScanRegion::Ram,
            },
        },
    }
}

/// Why the trace-decode table could not be loaded.
#[derive(Debug)]
pub enum TraceError {
    /// The image or its trace metadata is malformed.
    Parse(anyhow::Error),
    /// The image holds no trace section.
    NoSection,
}

/// The trace-decode table, with the source locations of its entries when
/// those are complete.
pub struct TraceTable {
    pub table: defmt_elf2table::Table,
    pub locations: Option<BTreeMap<u64, defmt_elf2table::Location>>,
}

/// What `defmt_elf2table::parse` finds in an ELF image: `None` when it
/// fails, `Some(false)` when the image holds no trace section, `Some(true)`
/// when it yields a table.
pub uninterp spec fn trace_parse_status(elf: Seq<u8>) -> Option<bool>;

/// Relies on `defmt_elf2table::parse`: reads the trace table of an ELF
/// image; what it finds depends on the image's bytes alone.
#[verifier::external_body]
fn parse_table(elf: &Vec<u8>) -> (r: Result<Option<defmt_elf2table::Table>, anyhow::Error>)
    ensures
        match trace_parse_status(elf@) {
            None => r is Err,
            Some(found) => r matches Ok(t) && (t is Some <==> found),
        },
{
    defmt_elf2table::parse(elf.as_slice())
}

/// Relies on `defmt_elf2table::get_locations`: reads the source locations
/// of the table's entries from the image's debug information.
#[verifier::external_body]
fn read_locations(elf: &Vec<u8>, table: &defmt_elf2table::Table) -> Result<
    BTreeMap<u64, defmt_elf2table::Location>,
    anyhow::Error,
> {
    defmt_elf2table::get_locations(elf.as_slice(), table)
}

/// Relies on `defmt_decoder::Table::is_empty`: whether the table has no entries.
#[verifier::external_body]
fn table_is_empty(table: &defmt_elf2table::Table) -> bool {
    table.is_empty()
}

/// Relies on `defmt_decoder::Table::indices`: the indices of the table's log entries.
#[verifier::external_body]
fn table_indices(table: &defmt_elf2table::Table) -> Vec<usize> {
    table.indices().collect()
}

/// The table out of the parser's answer: a missing section and a parse
/// failure are both errors.
pub fn table_outcome(parsed: Result<Option<defmt_elf2table::Table>, anyhow::Error>) -> (r: Result<
    defmt_elf2table::Table,
    TraceError,
>)
    ensures
        match parsed {
            Ok(Some(t)) => r == Ok::<defmt_elf2table::Table, TraceError>(t),
            Ok(None) => r matches Err(TraceError::NoSection),
            Err(e) => r matches Err(TraceError::Parse(x)) && x == e,
        },
{
    match parsed {
        Ok(Some(t)) => Ok(t),
        Ok(None) => Err(TraceError::NoSection),
        Err(e) => Err(TraceError::Parse(e)),
    }
}

/// Whether source locations are complete: not when a non-empty table found
/// none at all, and otherwise only when every entry index has one.
pub open spec fn locations_complete(
    table_empty: bool,
    indices: Seq<usize>,
    locations: Map<u64, defmt_elf2table::Location>,
) -> bool {
    &&& !(!table_empty && locations.is_empty())
    &&& forall|k: int| 0 <= k < indices.len() ==> locations.contains_key(#[trigger] indices[k] as u64)
}

/// Whether source locations are kept: not when a non-empty table found none
/// at all, and otherwise only when every entry index has one.
pub fn keep_locations(
    table_empty: bool,
    indices: &Vec<usize>,
    locations: &BTreeMap<u64, defmt_elf2table::Location>,
) -> (r: bool)
    ensures
        r == locations_complete(table_empty, indices@, locations@),
{
    broadcast use vstd::laws_cmp::group_laws_cmp;
    broadcast use vstd::std_specs::btree::axiom_contains_deref_key;

    if !table_empty && locations.is_empty() {
        return false;
    }
    let mut k: usize = 0;
    while k < indices.len()
        invariant
            k <= indices.len(),
            forall|m: int|
                0 <= m < k ==> locations@.contains_key(#[trigger] indices@[m] as u64),
        decreases indices.len() - k,
    {
        let key = indices[k] as u64;
        if !locations.contains_key(&key) {
            return false;
        }
        k = k + 1;
    }
    true
}

/// Puts the table together with its source locations: a failure to read
/// them is a parse error, and incomplete ones are dropped.
pub fn with_locations(
    table: defmt_elf2table::Table,
    table_empty: bool,
    indices: &Vec<usize>,
    located: Result<BTreeMap<u64, defmt_elf2table::Location>, anyhow::Error>,
) -> (r: Result<TraceTable, TraceError>)
    ensures
        match located {
            Ok(l) => r matches Ok(t) && t.table == table && if locations_complete(
                table_empty,
                indices@,
                l@,
            ) {
                t.locations == Some(l)
            } else {
                t.locations is None
            },
            Err(e) => r matches Err(TraceError::Parse(x)) && x == e,
        },
{
    match located {
        Ok(locations) => {
            let keep = keep_locations(table_empty, indices, &locations);
            Ok(TraceTable { table, locations: if keep { Some(locations) } else { None } })
        },
        Err(e) => Err(TraceError::Parse(e)),
    }
}

/// Loads the trace-decode table from an ELF image. A missing trace section
/// or malformed trace data is an error; source locations are dropped when
/// incomplete.
pub fn load_trace_table(elf: &Vec<u8>) -> (r: Result<TraceTable, TraceError>)
    ensures
        trace_parse_status(elf@) is None ==> r matches Err(TraceError::Parse(_)),
        trace_parse_status(elf@) == Some(false) ==> r matches Err(TraceError::NoSection),
        trace_parse_status(elf@) == Some(true) ==> !(r matches Err(TraceError::NoSection)),
{
    let table = match table_outcome(parse_table(elf)) {
        Ok(t) => t,
        Err(e) => return Err(e),
    };
    let located = read_locations(elf, &table);
    let indices = table_indices(&table);
    let empty = table_is_empty(&table);
    with_locations(table, empty, &indices, located)
}

} // verus!
