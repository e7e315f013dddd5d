//! The vendor resolver: the name of the manufacturer that a MAC address's
//! prefix was assigned to, looked up in a CSV table.

use vstd::prelude::*;

use crate::mac::{oui_text, MacAddress};

verus! {

/// The csv crate's error, carried as an opaque value.
#[verifier::external_type_specification]
#[verifier::external_body]
pub struct ExCsvError(csv::Error);

/// The records of CSV `data` after its header row, each as its fields in
/// order, as the csv crate reads them.
pub uninterp spec fn csv_records(data: Seq<u8>) -> Seq<Seq<Seq<char>>>;

/// Whether the csv crate reads CSV `data` without error.
pub uninterp spec fn csv_accepts(data: Seq<u8>) -> bool;

/// The text of each field of each record.
pub open spec fn records_view(v: Seq<Vec<String>>) -> Seq<Seq<Seq<char>>> {
    v.map_values(|rec: Vec<String>| rec@.map_values(|f: String| f@))
}

/// The text of an optional string.
pub open spec fn opt_text(o: Option<String>) -> Option<Seq<char>> {
    match o {
        Some(s) => Some(s@),
        None => None,
    }
}

/// Relies on `csv::Reader::from_reader` (its header row skipped, the
/// default) and `Reader::records`: every record after the header, each
/// converted to its fields; an error where the data does not parse.
#[verifier::external_body]
fn read_csv_records(data: &[u8]) -> (r: Result<Vec<Vec<String>>, csv::Error>)
    ensures
        (r is Ok) == csv_accepts(data@),
        r is Ok ==> records_view(r->Ok_0@) == csv_records(data@),
{
    let mut reader = csv::Reader::from_reader(data);
    reader.records().map(|rec| rec.map(|fields| fields.iter().map(String::from).collect())).collect()
}

/// One row of the table: an OUI as six upper-case hexadecimal digits and the
/// vendor's name.
pub struct VendorRow {
    pub oui: String,
    pub name: String,
}

/// The row that a record gives: column 1 is the OUI, column 2 the name.
/// A missing OUI reads as empty and matches no address; a missing name reads
/// as `(no vendor)`.
pub open spec fn row_of(rec: Seq<Seq<char>>) -> (Seq<char>, Seq<char>) {
    (
        if rec.len() > 1 { rec[1] } else { Seq::empty() },
        if rec.len() > 2 { rec[2] } else { "(no vendor)"@ },
    )
}

/// The rows of a list of records.
pub open spec fn rows_of(recs: Seq<Seq<Seq<char>>>) -> Seq<(Seq<char>, Seq<char>)> {
    recs.map_values(|rec: Seq<Seq<char>>| row_of(rec))
}

/// The name of the first row, from the top, whose OUI equals `oui`.
pub open spec fn find_vendor(rows: Seq<(Seq<char>, Seq<char>)>, oui: Seq<char>) -> Option<Seq<char>>
    decreases rows.len(),
{
    if rows.len() == 0 {
        None
    } else if rows[0].0 == oui {
        Some(rows[0].1)
    } else {
        find_vendor(rows.drop_first(), oui)
    }
}

/// What a lookup of `mac` gives on a table, or on no table at all.
pub open spec fn vendor_lookup(table: Option<Seq<(Seq<char>, Seq<char>)>>, mac: MacAddress) -> Option<Seq<char>> {
    match table {
        Some(rows) => find_vendor(rows, oui_text(mac)),
        None => None,
    }
}

/// A vendor table, loaded once and read only afterwards; or no table, when
/// it could not be loaded.
pub struct Vendor {
    table: Option<Vec<VendorRow>>,
}

impl View for Vendor {
    type V = Option<Seq<(Seq<char>, Seq<char>)>>;

    closed spec fn view(&self) -> Self::V {
        match self.table {
            Some(rows) => Some(rows@.map_values(|r: VendorRow| (r.oui@, r.name@))),
            None => None,
        }
    }
}

impl Vendor {
    /// A resolver over the table in CSV `data` (a header row, then one row
    /// per OUI); without a table where the data does not parse.
    pub fn new(data: &[u8]) -> (r: Vendor)
        ensures
            (r@ is Some) == csv_accepts(data@),
            r@ is Some ==> r@ == Some(rows_of(csv_records(data@))),
    {
        match read_csv_records(data) {
            Ok(records) => Vendor::from_records(records),
            Err(_) => Vendor::unavailable(),
        }
    }

    /// A resolver over records already read, each as its fields.
    pub fn from_records(records: Vec<Vec<String>>) -> (r: Vendor)
        ensures
            r@ == Some(rows_of(records_view(records@))),
    {
        let mut rows: Vec<VendorRow> = Vec::new();
        let mut i: usize = 0;
        while i < records.len()
            invariant
                i <= records@.len(),
                rows@.map_values(|r: VendorRow| (r.oui@, r.name@)) =~= rows_of(
                    records_view(records@),
                ).subrange(0, i as int),
            decreases records@.len() - i,
        {
            let rec = &records[i];
            let oui = if rec.len() > 1 {
                rec[1].clone()
            } else {
                String::new()
            };
            let name = if rec.len() > 2 {
                rec[2].clone()
            } else {
                String::from_str("(no vendor)")
            };
            let ghost before = rows@;
            rows.push(VendorRow { oui, name });
            proof {
                let ghost f = |r: VendorRow| (r.oui@, r.name@);
                assert(rows@.map_values(f) =~= before.map_values(f).push(f(rows@[i as int])));
                assert(rows_of(records_view(records@)).subrange(0, i + 1) =~= rows_of(records_view(records@)).subrange(0, i as int).push(row_of(records@[i as int]@.map_values(|f: String| f@))));
            }
            i = i + 1;
        }
        Vendor { table: Some(rows) }
    }

    /// A resolver without a table: every lookup gives `None`.
    pub fn unavailable() -> (r: Vendor)
        ensures
            r@ is None,
    {
        Vendor { table: None }
    }

    /// Whether a table is loaded.
    pub fn has_vendor_db(&self) -> (r: bool)
        ensures
            r == self@ is Some,
    {
        self.table.is_some()
    }

    /// The vendor of `mac`: the name of the first row whose OUI equals the
    /// address's OUI; `None` when no row matches or no table is loaded.
    /// The table is scanned from its first row on every call.
    pub fn search_by_mac(&self, mac_address: &MacAddress) -> (r: Option<String>)
        ensures
            opt_text(r) == vendor_lookup(self@, *mac_address),
    {
        match &self.table {
            None => None,
            Some(rows) => {
                let vendor_oui = mac_address.oui();
                let ghost view = self@.unwrap();
                let mut i: usize = 0;
                assert(view.skip(0) =~= view);
                while i < rows.len()
                    invariant
                        i <= rows@.len(),
                        self.table == Some(*rows),
                        view == rows@.map_values(|r: VendorRow| (r.oui@, r.name@)),
                        vendor_oui@ == oui_text(*mac_address),
                        find_vendor(view, vendor_oui@) == find_vendor(view.skip(i as int), vendor_oui@),
                    decreases rows@.len() - i,
                {
                    assert(view.skip(i as int)[0] == view[i as int]);
                    if rows[i].oui == vendor_oui {
                        return Some(rows[i].name.clone());
                    }
                    assert(view.skip(i as int).drop_first() =~= view.skip(i + 1));
                    i = i + 1;
                }
                None
            },
        }
    }
}

/// A lookup of a MAC whose OUI is stored in row `k`, and in no row above it,
/// gives that row's vendor name.
pub proof fn lemma_lookup_finds_matching_row(v: Vendor, mac: MacAddress, k: int)
    requires
        v@ is Some,
        0 <= k < v@.unwrap().len(),
        v@.unwrap()[k].0 == oui_text(mac),
        forall|j: int| 0 <= j < k ==> #[trigger] v@.unwrap()[j].0 != oui_text(mac),
    ensures
        vendor_lookup(v@, mac) == Some(v@.unwrap()[k].1),
{
    lemma_find_vendor_at(v@.unwrap(), oui_text(mac), k);
}

/// A lookup of a MAC whose OUI no row stores gives `None`.
pub proof fn lemma_lookup_without_match(v: Vendor, mac: MacAddress)
    requires
        v@ is Some ==> forall|j: int| 0 <= j < v@.unwrap().len() ==> #[trigger] v@.unwrap()[j].0 != oui_text(mac),
    ensures
        vendor_lookup(v@, mac) is None,
{
    if v@ is Some {
        lemma_find_vendor_none(v@.unwrap(), oui_text(mac));
    }
}

proof fn lemma_find_vendor_at(rows: Seq<(Seq<char>, Seq<char>)>, oui: Seq<char>, k: int)
    requires
        0 <= k < rows.len(),
        rows[k].0 == oui,
        forall|j: int| 0 <= j < k ==> #[trigger] rows[j].0 != oui,
    ensures
        find_vendor(rows, oui) == Some(rows[k].1),
    decreases k,
{
    if k > 0 {
        assert(rows[0].0 != oui);
        let rest = rows.drop_first();
        assert forall|j: int| 0 <= j < k - 1 implies #[trigger] rest[j].0 != oui by {
            assert(rest[j] == rows[j + 1]);
        }
        lemma_find_vendor_at(rest, oui, k - 1);
    }
}

proof fn lemma_find_vendor_none(rows: Seq<(Seq<char>, Seq<char>)>, oui: Seq<char>)
    requires
        forall|j: int| 0 <= j < rows.len() ==> #[trigger] rows[j].0 != oui,
    ensures
        find_vendor(rows, oui) is None,
    decreases rows.len(),
{
    if rows.len() > 0 {
        assert(rows[0].0 != oui);
        let rest = rows.drop_first();
        assert forall|j: int| 0 <= j < rest.len() implies #[trigger] rest[j].0 != oui by {
            assert(rest[j] == rows[j + 1]);
        }
        lemma_find_vendor_none(rest, oui);
    }
}

} // verus!
