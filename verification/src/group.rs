//! Groups of records that share the values of chosen columns.
use crate::config::QTableProps;
use crate::data::{Data, DataTable};
use crate::text::{decimal, digits, filled, pad_left, same, texts};
use vstd::prelude::*;
use vstd::string::StringExecFns;

verus! {

/// A column to group by.
#[derive(Debug, Clone, PartialEq)]
pub enum GroupBy {
    /// By its number, counted from one.
    ColNumber(usize),
    /// By its name.
    ColName(String),
}

/// The records that share one key.
#[derive(Debug, Clone, PartialEq)]
pub struct Group {
    /// The group's number among the groups, right-aligned, and `>`.
    pub name: String,
    /// The key: `column=value` of each grouping column, joined by `, `.
    pub group: String,
    /// The records of the group, ascending.
    pub indices: Vec<usize>,
}

/// The groups of a data table, in the order in which their keys first occur.
#[derive(Debug, Clone, PartialEq)]
pub struct Groups {
    pub groups: Vec<Group>,
}

/// The place of the last column of `table` that is named `p`.
pub open spec fn last_named(table: Seq<Data>, p: Seq<char>) -> Option<int>
    decreases table.len(),
{
    if table.len() == 0 {
        None
    } else if table.last().name@ == p {
        Some(table.len() - 1)
    } else {
        last_named(table.drop_last(), p)
    }
}

/// The number of the column that `g` selects, counted from one; none for a
/// name that no column has.
pub open spec fn selected(table: Seq<Data>, g: GroupBy) -> Option<usize> {
    match g {
        GroupBy::ColNumber(u) => Some(u),
        GroupBy::ColName(p) => match last_named(table, p@) {
            Some(k) => Some((k + 1) as usize),
            None => None,
        },
    }
}

/// The first selector of `sel` that names a column that `table` lacks.
pub open spec fn unknown(table: Seq<Data>, sel: Seq<GroupBy>) -> Option<int>
    decreases sel.len(),
{
    if sel.len() == 0 {
        None
    } else {
        match unknown(table, sel.drop_last()) {
            Some(i) => Some(i),
            None => if selected(table, sel.last()) is None {
                Some(sel.len() - 1)
            } else {
                None
            },
        }
    }
}

/// The column numbers that `sel` selects, each once, in the order in which
/// they first occur.
pub open spec fn numbers(table: Seq<Data>, sel: Seq<GroupBy>) -> Seq<usize>
    decreases sel.len(),
{
    if sel.len() == 0 {
        Seq::empty()
    } else {
        let before = numbers(table, sel.drop_last());
        match selected(table, sel.last()) {
            Some(u) => if before.contains(u) {
                before
            } else {
                before.push(u)
            },
            None => before,
        }
    }
}

/// The first of `nums` that is no column number of a table of `columns`
/// columns.
pub open spec fn misplaced(columns: nat, nums: Seq<usize>) -> Option<int>
    decreases nums.len(),
{
    if nums.len() == 0 {
        None
    } else {
        match misplaced(columns, nums.drop_last()) {
            Some(i) => Some(i),
            None => if nums.last() < 1 || nums.last() > columns {
                Some(nums.len() - 1)
            } else {
                None
            },
        }
    }
}

/// `column=value`.
pub open spec fn pair(column: Seq<char>, value: Seq<char>) -> Seq<char> {
    column + "="@ + value
}

/// The key of each record: for the first column `column=value`, and for each
/// further column, as far as it has a value in that record, `, column=value`
/// behind it.
pub open spec fn keys(table: Seq<Data>, nums: Seq<usize>) -> Seq<Seq<char>>
    decreases nums.len(),
{
    if nums.len() == 0 {
        Seq::empty()
    } else {
        let data = table[nums.last() - 1];
        if nums.len() == 1 {
            Seq::new(data.vals@.len(), |m: int| pair(data.name@, data.vals@[m]@))
        } else {
            let before = keys(table, nums.drop_last());
            Seq::new(
                before.len(),
                |m: int|
                    if m < data.vals@.len() {
                        before[m] + ", "@ + pair(data.name@, data.vals@[m]@)
                    } else {
                        before[m]
                    },
            )
        }
    }
}

/// The distinct keys, in the order in which they first occur.
pub open spec fn distinct(keys: Seq<Seq<char>>) -> Seq<Seq<char>>
    decreases keys.len(),
{
    if keys.len() == 0 {
        Seq::empty()
    } else {
        let before = distinct(keys.drop_last());
        if before.contains(keys.last()) {
            before
        } else {
            before.push(keys.last())
        }
    }
}

/// The records whose key is `key`, ascending.
pub open spec fn records(keys: Seq<Seq<char>>, key: Seq<char>) -> Seq<int>
    decreases keys.len(),
{
    if keys.len() == 0 {
        Seq::empty()
    } else {
        let before = records(keys.drop_last(), key);
        if keys.last() == key {
            before.push(keys.len() - 1)
        } else {
            before
        }
    }
}

/// The name of the group at `i`: its number, counted from one, right-aligned
/// in two characters, and `>`.
pub open spec fn group_name(i: nat) -> Seq<char> {
    filled(digits(i + 1), 2, ' ') + ">"@
}

/// The message for a grouping column that the data lacks.
pub open spec fn not_found(p: Seq<char>) -> Seq<char> {
    "groupby column '"@ + p + "' not found in datafile."@
}

/// The message for a column number under one.
pub open spec fn too_low(g: usize) -> Seq<char> {
    "group_by '"@ + digits(g as nat)
        + "' is lower than 1,\n       allowed is from 1 to length of number of columns of the data file."@
}

/// The message for a column number over the number of columns.
pub open spec fn too_high(g: usize) -> Seq<char> {
    "group_by '"@ + digits(g as nat)
        + "' is greater than the numbers of parameters,\n       allowed is from 1 to length of number of columns of the data file."@
}

/// The name under which the selector `g` fails.
pub open spec fn selector_name(g: GroupBy) -> Seq<char> {
    match g {
        GroupBy::ColNumber(_) => Seq::empty(),
        GroupBy::ColName(p) => p@,
    }
}

/// What grouping `table` by `sel` gives: the key of each record, or the
/// message of the first fault. A name that the data lacks is found before a
/// number that is out of range.
pub open spec fn grouping(table: Seq<Data>, sel: Seq<GroupBy>) -> Result<Seq<Seq<char>>, Seq<char>> {
    match unknown(table, sel) {
        Some(i) => Err(not_found(selector_name(sel[i]))),
        None => {
            let nums = numbers(table, sel);
            match misplaced(table.len(), nums) {
                Some(j) => if nums[j] < 1 {
                    Err(too_low(nums[j]))
                } else {
                    Err(too_high(nums[j]))
                },
                None => Ok(keys(table, nums)),
            }
        },
    }
}

/// The indices `v` as mathematical integers.
pub open spec fn places(v: Seq<usize>) -> Seq<int> {
    Seq::new(v.len(), |i: int| v[i] as int)
}

/// The indices behind one more index are the integers behind one more.
pub proof fn lemma_places_push(v: Seq<usize>, x: usize)
    ensures
        places(v.push(x)) == places(v).push(x as int),
{
    assert(places(v.push(x)) =~= places(v).push(x as int));
}

impl Groups {
    /// Whether these are the groups of records with the keys `keys`.
    pub open spec fn partition(&self, keys: Seq<Seq<char>>) -> bool {
        &&& self.groups@.len() == distinct(keys).len()
        &&& forall|i: int|
            0 <= i < self.groups@.len() ==> {
                &&& (#[trigger] self.groups@[i]).group@ == distinct(keys)[i]
                &&& self.groups@[i].name@ == group_name(i as nat)
                &&& places(self.groups@[i].indices@) == records(keys, distinct(keys)[i])
            }
    }
}

/// Three texts in a row.
fn joined(a: &str, b: &str, c: &str) -> (text: String)
    ensures
        text@ == a@ + b@ + c@,
{
    let mut text: String = String::from_str(a);
    text.append(b);
    text.append(c);
    text
}

/// Finds the last column that is named `p`.
fn find_column(datatable: &DataTable, p: &str) -> (at: Option<usize>)
    ensures
        at is None ==> last_named(datatable@, p@) is None,
        at is Some ==> last_named(datatable@, p@) == Some(at.unwrap() as int) && at.unwrap()
            < datatable@.len(),
{
    let mut at: Option<usize> = None;
    let mut i: usize = 0;
    while i < datatable.len()
        invariant
            i <= datatable@.len(),
            at is None ==> last_named(datatable@.take(i as int), p@) is None,
            at is Some ==> last_named(datatable@.take(i as int), p@) == Some(at.unwrap() as int)
                && at.unwrap() < i,
        decreases datatable@.len() - i,
    {
        proof {
            assert(datatable@.take(i as int + 1).drop_last() =~= datatable@.take(i as int));
        }
        if same(datatable[i].name.as_str(), p) {
            at = Some(i);
        }
        i += 1;
    }
    proof {
        assert(datatable@.take(i as int) =~= datatable@);
    }
    at
}

/// Whether `u` is among `nums`.
fn holds(nums: &Vec<usize>, u: usize) -> (found: bool)
    ensures
        found == nums@.contains(u),
{
    let mut i: usize = 0;
    while i < nums.len()
        invariant
            i <= nums@.len(),
            forall|j: int| 0 <= j < i ==> nums@[j] != u,
        decreases nums@.len() - i,
    {
        if nums[i] == u {
            return true;
        }
        i += 1;
    }
    false
}

/// The column numbers that the selectors select.
fn resolve(datatable: &DataTable, group_by: &Vec<GroupBy>) -> (r: Result<Vec<usize>, String>)
    ensures
        match unknown(datatable@, group_by@) {
            Some(i) => r is Err && r->Err_0@ == not_found(selector_name(group_by@[i])),
            None => r is Ok && r->Ok_0@ == numbers(datatable@, group_by@),
        },
{
    let mut nums: Vec<usize> = Vec::new();
    let mut i: usize = 0;
    while i < group_by.len()
        invariant
            i <= group_by@.len(),
            unknown(datatable@, group_by@.take(i as int)) is None,
            nums@ == numbers(datatable@, group_by@.take(i as int)),
        decreases group_by@.len() - i,
    {
        proof {
            assert(group_by@.take(i as int + 1).drop_last() =~= group_by@.take(i as int));
        }
        let u: usize = match &group_by[i] {
            GroupBy::ColNumber(u) => *u,
            GroupBy::ColName(p) => match find_column(datatable, p.as_str()) {
                Some(k) => {
                    let columns: usize = datatable.len();
                    assert(k < columns);
                    k + 1
                },
                None => {
                    proof {
                        lemma_unknown_stays(datatable@, group_by@, i as int + 1);
                    }
                    return Err(
                        joined("groupby column '", p.as_str(), "' not found in datafile."),
                    );
                },
            },
        };
        if !holds(&nums, u) {
            nums.push(u);
        }
        i += 1;
    }
    proof {
        assert(group_by@.take(i as int) =~= group_by@);
    }
    Ok(nums)
}

/// The keys of the records, for the column numbers `nums`.
fn row_keys(datatable: &DataTable, nums: &Vec<usize>) -> (r: Result<Vec<String>, String>)
    ensures
        match misplaced(datatable@.len(), nums@) {
            Some(j) => r is Err && r->Err_0@ == (if nums@[j] < 1 {
                too_low(nums@[j])
            } else {
                too_high(nums@[j])
            }),
            None => r is Ok && texts(r->Ok_0@) == keys(datatable@, nums@),
        },
{
    let mut rows: Vec<String> = Vec::new();
    let mut j: usize = 0;
    while j < nums.len()
        invariant
            j <= nums@.len(),
            misplaced(datatable@.len(), nums@.take(j as int)) is None,
            texts(rows@) == keys(datatable@, nums@.take(j as int)),
        decreases nums@.len() - j,
    {
        proof {
            assert(nums@.take(j as int + 1).drop_last() =~= nums@.take(j as int));
        }
        let g: usize = nums[j];
        if g < 1 {
            proof {
                lemma_misplaced_stays(datatable@.len(), nums@, j as int + 1);
            }
            let number: String = decimal(g as u128);
            return Err(
                joined(
                    "group_by '",
                    number.as_str(),
                    "' is lower than 1,\n       allowed is from 1 to length of number of columns of the data file.",
                ),
            );
        }
        if g > datatable.len() {
            proof {
                lemma_misplaced_stays(datatable@.len(), nums@, j as int + 1);
            }
            let number: String = decimal(g as u128);
            return Err(
                joined(
                    "group_by '",
                    number.as_str(),
                    "' is greater than the numbers of parameters,\n       allowed is from 1 to length of number of columns of the data file.",
                ),
            );
        }
        let data: &Data = &datatable[g - 1];
        let ghost before = texts(rows@);
        let mut next: Vec<String> = Vec::new();
        let bound: usize = if j == 0 { data.vals.len() } else { rows.len() };
        let mut m: usize = 0;
        while m < bound
            invariant
                m <= bound,
                bound == (if j == 0 { data.vals@.len() } else { rows@.len() }),
                before == texts(rows@),
                next@.len() == m,
                forall|n: int|
                    0 <= n < m ==> (#[trigger] next@[n])@ == (if j == 0 {
                        pair(data.name@, data.vals@[n]@)
                    } else if n < data.vals@.len() {
                        before[n] + ", "@ + pair(data.name@, data.vals@[n]@)
                    } else {
                        before[n]
                    }),
            decreases bound - m,
        {
            let mut key: String = String::new();
            if j > 0 {
                key.append(rows[m].as_str());
                assert(key@ =~= before[m as int]);
            }
            if m < data.vals.len() {
                if j > 0 {
                    key.append(", ");
                }
                key.append(data.name.as_str());
                key.append("=");
                key.append(data.vals[m].as_str());
            }
            proof {
                if j == 0 {
                    assert(key@ =~= pair(data.name@, data.vals@[m as int]@));
                } else if m < data.vals@.len() {
                    assert(key@ =~= before[m as int] + ", "@ + pair(
                        data.name@,
                        data.vals@[m as int]@,
                    ));
                }
            }
            next.push(key);
            m += 1;
        }
        rows = next;
        j += 1;
        proof {
            assert(texts(rows@) =~= keys(datatable@, nums@.take(j as int)));
        }
    }
    proof {
        assert(nums@.take(j as int) =~= nums@);
    }
    Ok(rows)
}

/// A number that is out of range among the first `n` is the one that is out
/// of range among all.
proof fn lemma_misplaced_stays(columns: nat, nums: Seq<usize>, n: int)
    requires
        0 <= n <= nums.len(),
        misplaced(columns, nums.take(n)) is Some,
    ensures
        misplaced(columns, nums) == misplaced(columns, nums.take(n)),
    decreases nums.len() - n,
{
    if n < nums.len() {
        assert(nums.take(n + 1).drop_last() =~= nums.take(n));
        lemma_misplaced_stays(columns, nums, n + 1);
    } else {
        assert(nums.take(n) =~= nums);
    }
}

/// Whether `key` is among `list`.
fn listed(list: &Vec<String>, key: &String) -> (found: bool)
    ensures
        found == texts(list@).contains(key@),
{
    let mut i: usize = 0;
    while i < list.len()
        invariant
            i <= list@.len(),
            forall|j: int| 0 <= j < i ==> texts(list@)[j] != key@,
        decreases list@.len() - i,
    {
        if list[i] == *key {
            assert(texts(list@)[i as int] == key@);
            return true;
        }
        i += 1;
    }
    false
}

/// The groups of records with the given keys.
fn split(rows: &Vec<String>) -> (groups: Groups)
    ensures
        groups.partition(texts(rows@)),
{
    let mut splits: Vec<String> = Vec::new();
    let mut k: usize = 0;
    while k < rows.len()
        invariant
            k <= rows@.len(),
            texts(splits@) == distinct(texts(rows@).take(k as int)),
        decreases rows@.len() - k,
    {
        proof {
            assert(texts(rows@).take(k as int + 1).drop_last() =~= texts(rows@).take(k as int));
        }
        if !listed(&splits, &rows[k]) {
            splits.push(rows[k].clone());
            assert(texts(splits@) =~= distinct(texts(rows@).take(k as int + 1)));
        }
        k += 1;
    }
    proof {
        assert(texts(rows@).take(k as int) =~= texts(rows@));
    }
    let mut groups: Vec<Group> = Vec::new();
    let mut i: usize = 0;
    while i < splits.len()
        invariant
            i <= splits@.len(),
            texts(splits@) == distinct(texts(rows@)),
            groups@.len() == i,
            forall|n: int|
                0 <= n < i ==> {
                    &&& (#[trigger] groups@[n]).group@ == distinct(texts(rows@))[n]
                    &&& groups@[n].name@ == group_name(n as nat)
                    &&& places(groups@[n].indices@) == records(
                        texts(rows@),
                        distinct(texts(rows@))[n],
                    )
                },
        decreases splits@.len() - i,
    {
        let key: &String = &splits[i];
        assert(key@ == texts(splits@)[i as int]);
        let mut indices: Vec<usize> = Vec::new();
        let mut m: usize = 0;
        while m < rows.len()
            invariant
                m <= rows@.len(),
                places(indices@) == records(texts(rows@).take(m as int), key@),
            decreases rows@.len() - m,
        {
            proof {
                assert(texts(rows@).take(m as int + 1).drop_last() =~= texts(rows@).take(
                    m as int,
                ));
            }
            if rows[m] == *key {
                indices.push(m);
            }
            assert(texts(rows@)[m as int] == rows@[m as int]@);
            m += 1;
            assert(places(indices@) =~= records(texts(rows@).take(m as int), key@));
        }
        proof {
            assert(texts(rows@).take(m as int) =~= texts(rows@));
        }
        let number: String = decimal((i as u128) + 1);
        let mut name: String = pad_left(number.as_str(), 2, false);
        name.append(">");
        groups.push(Group { name, group: key.clone(), indices });
        i += 1;
    }
    Groups { groups }
}

impl Groups {
    /// Groups the records of `datatable` by the columns that the options
    /// select. Without a selector there is no group.
    pub fn new(datatable: &DataTable, qtableprops: &QTableProps) -> (r: Result<Groups, String>)
        ensures
            match grouping(datatable@, qtableprops.group_by@) {
                Ok(keys) => r is Ok && r->Ok_0.partition(keys),
                Err(message) => r is Err && r->Err_0@ == message,
            },
            qtableprops.group_by@.len() == 0 ==> r is Ok && r->Ok_0.groups@.len() == 0,
    {
        let nums: Vec<usize> = match resolve(datatable, &qtableprops.group_by) {
            Ok(nums) => nums,
            Err(message) => {
                return Err(message);
            },
        };
        match row_keys(datatable, &nums) {
            Ok(rows) => Ok(split(&rows)),
            Err(message) => Err(message),
        }
    }
}

/// The records of a key are records with that key, and a key has records
/// just when it is among the distinct keys.
pub proof fn lemma_records(keys: Seq<Seq<char>>, key: Seq<char>)
    ensures
        forall|n: int|
            0 <= n < records(keys, key).len() ==> 0 <= (#[trigger] records(keys, key)[n])
                < keys.len() && keys[records(keys, key)[n]] == key,
        (records(keys, key).len() > 0) == distinct(keys).contains(key),
    decreases keys.len(),
{
    if keys.len() > 0 {
        let before = distinct(keys.drop_last());
        lemma_records(keys.drop_last(), key);
        let earlier = records(keys.drop_last(), key);
        assert forall|n: int| 0 <= n < records(keys, key).len() implies (#[trigger] records(
            keys,
            key,
        )[n]) < keys.len() && 0 <= records(keys, key)[n] && keys[records(keys, key)[n]]
            == key by {
            if n < earlier.len() {
                assert(records(keys, key)[n] == earlier[n]);
                assert(keys.drop_last()[earlier[n]] == key);
            }
        }
        if before.contains(keys.last()) {
        } else {
            let after = before.push(keys.last());
            assert(after[before.len() as int] == keys.last());
            if before.contains(key) {
                let n = choose|n: int| 0 <= n < before.len() && before[n] == key;
                assert(after[n] == key);
            }
            if after.contains(key) && key != keys.last() {
                let n = choose|n: int| 0 <= n < after.len() && after[n] == key;
                assert(before[n] == key);
            }
        }
    }
}

/// The groups stand in the order in which their keys first occur among the
/// records, whatever the keys are: of two groups, the earlier one has the
/// earlier first record.
pub proof fn lemma_groups_in_order_of_discovery(keys: Seq<Seq<char>>, i: int, j: int)
    requires
        0 <= i < j < distinct(keys).len(),
    ensures
        records(keys, distinct(keys)[i]).len() > 0,
        records(keys, distinct(keys)[j]).len() > 0,
        records(keys, distinct(keys)[i])[0] < records(keys, distinct(keys)[j])[0],
    decreases keys.len(),
{
    let rest = keys.drop_last();
    let before = distinct(rest);
    let a = distinct(keys)[i];
    let b = distinct(keys)[j];
    lemma_records(rest, a);
    lemma_records(rest, b);
    if j < before.len() {
        assert(before[i] == a && before[j] == b);
        assert(before.contains(a) && before.contains(b));
        lemma_groups_in_order_of_discovery(rest, i, j);
        assert(records(keys, a)[0] == records(rest, a)[0]);
        assert(records(keys, b)[0] == records(rest, b)[0]);
    } else {
        assert(before[i] == a);
        assert(before.contains(a));
        assert(b == keys.last());
        assert(!before.contains(b));
        assert(records(rest, a)[0] < rest.len());
        assert(records(keys, a)[0] == records(rest, a)[0]);
        assert(records(rest, b).len() == 0);
        assert(records(keys, b)[0] == rest.len());
    }
}

/// Every record is in the group of its key.
pub proof fn lemma_every_record_is_grouped(keys: Seq<Seq<char>>, m: int)
    requires
        0 <= m < keys.len(),
    ensures
        distinct(keys).contains(keys[m]),
        records(keys, keys[m]).contains(m),
    decreases keys.len(),
{
    let rest = keys.drop_last();
    let before = distinct(rest);
    if m < keys.len() - 1 {
        lemma_every_record_is_grouped(rest, m);
        let n = choose|n: int| 0 <= n < before.len() && before[n] == keys[m];
        assert(distinct(keys)[n] == keys[m]);
        let r = choose|r: int|
            0 <= r < records(rest, keys[m]).len() && records(rest, keys[m])[r] == m;
        assert(records(keys, keys[m])[r] == m);
    } else {
        if before.contains(keys.last()) {
        } else {
            assert(distinct(keys)[before.len() as int] == keys.last());
        }
        let last = records(rest, keys[m]).len() as int;
        assert(records(keys, keys[m])[last] == m);
    }
}

/// A selector that fails among the first `n` is the one that fails among all.
proof fn lemma_unknown_stays(table: Seq<Data>, sel: Seq<GroupBy>, n: int)
    requires
        0 <= n <= sel.len(),
        unknown(table, sel.take(n)) is Some,
    ensures
        unknown(table, sel) == unknown(table, sel.take(n)),
        unknown(table, sel).unwrap() < n,
        sel.take(n)[unknown(table, sel).unwrap()] == sel[unknown(table, sel).unwrap()],
    decreases sel.len() - n,
{
    lemma_unknown_bound(table, sel.take(n));
    if n < sel.len() {
        assert(sel.take(n + 1).drop_last() =~= sel.take(n));
        lemma_unknown_stays(table, sel, n + 1);
    } else {
        assert(sel.take(n) =~= sel);
    }
}

/// The selector that fails is one of the selectors.
proof fn lemma_unknown_bound(table: Seq<Data>, sel: Seq<GroupBy>)
    ensures
        unknown(table, sel) is Some ==> 0 <= unknown(table, sel).unwrap() < sel.len(),
    decreases sel.len(),
{
    if sel.len() > 0 {
        lemma_unknown_bound(table, sel.drop_last());
    }
}

} // verus!
