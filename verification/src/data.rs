//! The data table: one column of readings for each parameter.
use crate::limits::LimitsTable;
use crate::qtable::Filter;
use crate::text::texts;
use vstd::prelude::*;

verus! {

/// One column of the data: a parameter, its filter, and its readings as the
/// data file has them.
#[derive(Debug, Clone, PartialEq)]
pub struct Data {
    pub name: String,
    pub filt: Filter,
    pub vals: Vec<String>,
}

/// The columns of the data, in the order of the file.
pub type DataTable = Vec<Data>;

/// Whether every cell of a record is empty.
pub open spec fn blank(record: Seq<String>) -> bool {
    forall|i: int| 0 <= i < record.len() ==> (#[trigger] record[i])@.len() == 0
}

/// The places of the headers that name a parameter: those that are not empty.
pub open spec fn named_columns(headers: Seq<String>) -> Seq<int>
    decreases headers.len(),
{
    if headers.len() == 0 {
        Seq::empty()
    } else {
        let before = named_columns(headers.drop_last());
        if headers.last()@.len() == 0 {
            before
        } else {
            before.push(headers.len() - 1)
        }
    }
}

/// The values of the column `at`: the cell at `at` of each record that is
/// not blank and has such a cell, in the order of the records.
pub open spec fn column_values(records: Seq<Vec<String>>, at: int) -> Seq<Seq<char>>
    decreases records.len(),
{
    if records.len() == 0 {
        Seq::empty()
    } else {
        let before = column_values(records.drop_last(), at);
        let record = records.last()@;
        if !blank(record) && 0 <= at < record.len() {
            before.push(record[at]@)
        } else {
            before
        }
    }
}

/// The filter of the parameter `par`: the one that its limits name, or else
/// the general one.
pub open spec fn filter_for(limits: Map<Seq<char>, crate::limits::Limits>, par: Seq<char>, flt: Filter) -> Filter {
    if limits.dom().contains(par) && limits[par].filter() is Some {
        limits[par].filter().unwrap()
    } else {
        flt
    }
}

/// Whether every cell of a record is empty.
fn is_blank(record: &Vec<String>) -> (empty: bool)
    ensures
        empty == blank(record@),
{
    let mut i: usize = 0;
    while i < record.len()
        invariant
            i <= record@.len(),
            forall|j: int| 0 <= j < i ==> (#[trigger] record@[j])@.len() == 0,
        decreases record@.len() - i,
    {
        if record[i].as_str().unicode_len() > 0 {
            return false;
        }
        i += 1;
    }
    true
}

/// The values of the column `at`.
fn values_of(records: &Vec<Vec<String>>, at: usize) -> (vals: Vec<String>)
    ensures
        texts(vals@) == column_values(records@, at as int),
{
    let mut vals: Vec<String> = Vec::new();
    let mut r: usize = 0;
    while r < records.len()
        invariant
            r <= records@.len(),
            texts(vals@) == column_values(records@.take(r as int), at as int),
        decreases records@.len() - r,
    {
        proof {
            assert(records@.take(r as int + 1).drop_last() =~= records@.take(r as int));
        }
        let record: &Vec<String> = &records[r];
        if !is_blank(record) && at < record.len() {
            vals.push(record[at].clone());
        }
        r += 1;
        assert(texts(vals@) =~= column_values(records@.take(r as int), at as int));
    }
    proof {
        assert(records@.take(r as int) =~= records@);
    }
    vals
}

/// The data table of a file with these headers and records: a column for
/// each header that is not empty, with the filter of its parameter and its
/// values. Blank records are left out.
pub fn add_data(
    headers: &Vec<String>,
    records: &Vec<Vec<String>>,
    limitstable: &LimitsTable,
    filter: &Filter,
) -> (table: DataTable)
    ensures
        table@.len() == named_columns(headers@).len(),
        forall|k: int|
            0 <= k < table@.len() ==> {
                let at = named_columns(headers@)[k];
                &&& 0 <= at < headers@.len()
                &&& (#[trigger] table@[k]).name@ == headers@[at]@
                &&& table@[k].filt == filter_for(limitstable@, headers@[at]@, *filter)
                &&& texts(table@[k].vals@) == column_values(records@, at)
            },
{
    let mut table: Vec<Data> = Vec::new();
    let mut i: usize = 0;
    while i < headers.len()
        invariant
            i <= headers@.len(),
            table@.len() == named_columns(headers@.take(i as int)).len(),
            forall|k: int|
                0 <= k < table@.len() ==> {
                    let at = named_columns(headers@.take(i as int))[k];
                    &&& 0 <= at < i
                    &&& (#[trigger] table@[k]).name@ == headers@[at]@
                    &&& table@[k].filt == filter_for(limitstable@, headers@[at]@, *filter)
                    &&& texts(table@[k].vals@) == column_values(records@, at)
                },
        decreases headers@.len() - i,
    {
        proof {
            assert(headers@.take(i as int + 1).drop_last() =~= headers@.take(i as int));
        }
        let h: &String = &headers[i];
        if h.as_str().unicode_len() > 0 {
            let filt: Filter = limitstable.get_filter(h.as_str(), filter);
            table.push(Data { name: h.clone(), filt, vals: values_of(records, i) });
        }
        i += 1;
    }
    proof {
        assert(headers@.take(i as int) =~= headers@);
    }
    table
}

} // verus!
