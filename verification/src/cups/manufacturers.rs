//! The catalog as it is shown: the drivers of each manufacturer together,
//! the manufacturers in alphabetical order.

use crate::cups::catalog::PpdView;
use crate::cups::{ppd_views, PpdInfo};
use crate::text::{
    compare, lemma_text_lt_asymmetric, lemma_text_lt_irreflexive, lemma_text_lt_transitive,
    text_lt, TextOrder,
};
use vstd::prelude::*;

verus! {

/// One driver in the list of a manufacturer.
#[derive(Debug, PartialEq, Eq)]
pub struct ModelEntry {
    /// The text that is shown for the driver.
    pub display_model: String,
    /// The name under which the driver is asked for.
    pub driver_name: String,
}

/// The drivers of one manufacturer.
#[derive(Debug, PartialEq, Eq)]
pub struct ManufacturerGroup {
    pub name: String,
    /// The drivers in the order in which the catalog holds them.
    pub models: Vec<ModelEntry>,
}

/// What an entry says, as mathematical values.
pub struct ModelView {
    pub display_model: Seq<char>,
    pub driver_name: Seq<char>,
}

/// What a group says, as mathematical values.
pub struct GroupView {
    pub name: Seq<char>,
    pub models: Seq<ModelView>,
}

impl View for ModelEntry {
    type V = ModelView;

    open spec fn view(&self) -> ModelView {
        ModelView { display_model: self.display_model@, driver_name: self.driver_name@ }
    }
}

impl View for ManufacturerGroup {
    type V = GroupView;

    open spec fn view(&self) -> GroupView {
        GroupView { name: self.name@, models: self.models@.map_values(|m: ModelEntry| m@) }
    }
}

/// What each group of a list says.
pub open spec fn group_views(list: Seq<ManufacturerGroup>) -> Seq<GroupView> {
    list.map_values(|g: ManufacturerGroup| g@)
}

/// The entry under which a record is listed.
pub open spec fn entry_of(record: PpdView) -> ModelView {
    ModelView { display_model: record.make_and_model, driver_name: record.name }
}

/// The entries of the records of one manufacturer, in the order of the
/// catalog. Each record gives one entry: equal records are listed twice.
pub open spec fn models_of(catalog: Seq<PpdView>, make: Seq<char>) -> Seq<ModelView>
    decreases catalog.len(),
{
    if catalog.len() == 0 {
        Seq::empty()
    } else if catalog.last().make == make {
        models_of(catalog.drop_last(), make).push(entry_of(catalog.last()))
    } else {
        models_of(catalog.drop_last(), make)
    }
}

/// Some record of the catalog is of this manufacturer.
pub open spec fn has_make(catalog: Seq<PpdView>, make: Seq<char>) -> bool {
    exists|k: int| 0 <= k < catalog.len() && (#[trigger] catalog[k]).make == make
}

/// The groups stand in strictly ascending order of their names.
pub open spec fn ascending(groups: Seq<GroupView>) -> bool {
    forall|i: int, j: int|
        0 <= i < j < groups.len() ==> text_lt((#[trigger] groups[i]).name, (#[trigger] groups[j]).name)
}

/// Some group carries this name.
pub open spec fn has_group(groups: Seq<GroupView>, name: Seq<char>) -> bool {
    exists|i: int| 0 <= i < groups.len() && (#[trigger] groups[i]).name == name
}

/// `groups` is the catalog by manufacturer: one group for each manufacturer
/// that occurs, none for any other, the groups in ascending order of their
/// names, each with the entries of its manufacturer in catalog order.
pub open spec fn is_grouping(groups: Seq<GroupView>, catalog: Seq<PpdView>) -> bool {
    &&& ascending(groups)
    &&& forall|i: int|
        0 <= i < groups.len() ==> has_make(catalog, (#[trigger] groups[i]).name)
            && groups[i].models == models_of(catalog, groups[i].name)
    &&& forall|k: int| 0 <= k < catalog.len() ==> has_group(groups, (#[trigger] catalog[k]).make)
}

/// A manufacturer without a record has no entries.
pub proof fn lemma_models_of_absent(catalog: Seq<PpdView>, make: Seq<char>)
    requires
        !has_make(catalog, make),
    ensures
        models_of(catalog, make) == Seq::<ModelView>::empty(),
    decreases catalog.len(),
{
    if catalog.len() > 0 {
        let shorter = catalog.drop_last();
        assert(catalog[catalog.len() - 1].make != make);
        assert(!has_make(shorter, make)) by {
            if has_make(shorter, make) {
                let k = choose|k: int| 0 <= k < shorter.len() && (#[trigger] shorter[k]).make == make;
                assert(catalog[k].make == make);
            }
        }
        lemma_models_of_absent(shorter, make);
    }
}

/// Takes one more record into groups that are the grouping of `catalog`.
fn add_record(
    groups: &mut Vec<ManufacturerGroup>,
    record: &PpdInfo,
    Ghost(catalog): Ghost<Seq<PpdView>>,
)
    requires
        is_grouping(group_views(old(groups)@), catalog),
    ensures
        is_grouping(group_views(final(groups)@), catalog.push(record@)),
{
    let ghost before = group_views(groups@);
    let ghost longer = catalog.push(record@);
    let ghost make = record.make@;
    assert(longer.drop_last() =~= catalog);
    let mut p: usize = 0;
    let mut found = false;
    while p < groups.len()
        invariant_except_break
            !found,
        invariant
            p <= groups.len(),
            make == record.make@,
            group_views(groups@) == before,
            forall|j: int| 0 <= j < p ==> text_lt((#[trigger] before[j]).name, make),
        ensures
            found ==> p < groups.len() && before[p as int].name == make,
            !found && p < groups.len() ==> text_lt(make, before[p as int].name),
        decreases groups.len() - p,
    {
        assert(before[p as int] == groups@[p as int]@);
        match compare(groups[p].name.as_str(), record.make.as_str()) {
            TextOrder::Before => {
                p += 1;
            },
            TextOrder::Same => {
                found = true;
                break ;
            },
            TextOrder::After => {
                break ;
            },
        }
    }
    let entry = ModelEntry {
        display_model: record.make_and_model.clone(),
        driver_name: record.name.clone(),
    };
    assert(entry@ == entry_of(record@));
    proof {
        // No group on the other side of the place carries the name of the
        // new record, and those behind the place come after it.
        assert forall|j: int| 0 <= j < before.len() && j != p implies (#[trigger] before[j]).name
            != make && (j > p ==> text_lt(make, before[j].name)) by {
            lemma_text_lt_irreflexive(make);
            if j > p {
                if found {
                    assert(text_lt(before[p as int].name, before[j].name));
                } else {
                    lemma_text_lt_transitive(make, before[p as int].name, before[j].name);
                }
            }
        }
    }
    if found {
        groups[p].models.push(entry);
        proof {
            let after = group_views(groups@);
            assert(after.len() == before.len());
            assert forall|i: int| 0 <= i < after.len() implies (#[trigger] after[i]).name
                == before[i].name by {}
            assert(after[p as int].models =~= before[p as int].models.push(entry@));
            assert forall|i: int| 0 <= i < after.len() implies has_make(
                longer,
                (#[trigger] after[i]).name,
            ) && after[i].models == models_of(longer, after[i].name) by {
                lemma_has_make_grows(catalog, record@, before[i].name);
                if i != p {
                    assert(after[i] == before[i]);
                }
            }
            assert forall|k: int| 0 <= k < longer.len() implies has_group(
                after,
                (#[trigger] longer[k]).make,
            ) by {
                if k < catalog.len() {
                    assert(has_group(before, catalog[k].make));
                    let i = choose|i: int|
                        0 <= i < before.len() && (#[trigger] before[i]).name == catalog[k].make;
                    assert(after[i].name == longer[k].make);
                } else {
                    assert(after[p as int].name == longer[k].make);
                }
            }
            assert(ascending(after)) by {
                assert forall|i: int, j: int| 0 <= i < j < after.len() implies text_lt(
                    (#[trigger] after[i]).name,
                    (#[trigger] after[j]).name,
                ) by {
                    assert(text_lt(before[i].name, before[j].name));
                }
            }
        }
    } else {
        let mut models: Vec<ModelEntry> = Vec::new();
        models.push(entry);
        let group = ManufacturerGroup { name: record.make.clone(), models };
        groups.insert(p, group);
        proof {
            let after = group_views(groups@);
            assert(after =~= before.insert(p as int, group@));
            assert(!has_make(catalog, make)) by {
                if has_make(catalog, make) {
                    let k = choose|k: int| 0 <= k < catalog.len() && (#[trigger] catalog[k]).make == make;
                    assert(has_group(before, catalog[k].make));
                    let i = choose|i: int|
                        0 <= i < before.len() && (#[trigger] before[i]).name == make;
                    lemma_text_lt_irreflexive(make);
                    assert(i == p);
                }
            }
            lemma_models_of_absent(catalog, make);
            assert(group@.models =~= Seq::<ModelView>::empty().push(entry@));
            assert(longer[catalog.len() as int].make == make);
            assert forall|i: int| 0 <= i < after.len() implies has_make(
                longer,
                (#[trigger] after[i]).name,
            ) && after[i].models == models_of(longer, after[i].name) by {
                if i < p {
                    assert(after[i] == before[i]);
                    lemma_has_make_grows(catalog, record@, before[i].name);
                } else if i > p {
                    assert(after[i] == before[i - 1]);
                    lemma_has_make_grows(catalog, record@, before[i - 1].name);
                }
            }
            assert forall|k: int| 0 <= k < longer.len() implies has_group(
                after,
                (#[trigger] longer[k]).make,
            ) by {
                if k < catalog.len() {
                    assert(has_group(before, catalog[k].make));
                    let i = choose|i: int|
                        0 <= i < before.len() && (#[trigger] before[i]).name == catalog[k].make;
                    if i < p {
                        assert(after[i].name == longer[k].make);
                    } else {
                        assert(after[i + 1].name == longer[k].make);
                    }
                } else {
                    assert(after[p as int].name == longer[k].make);
                }
            }
            assert(ascending(after)) by {
                assert forall|i: int, j: int| 0 <= i < j < after.len() implies text_lt(
                    (#[trigger] after[i]).name,
                    (#[trigger] after[j]).name,
                ) by {
                    let oi = if i < p { i } else { i - 1 };
                    let oj = if j < p { j } else { j - 1 };
                    if i != p && j != p {
                        assert(after[i] == before[oi]);
                        assert(after[j] == before[oj]);
                        assert(text_lt(before[oi].name, before[oj].name));
                    } else if i == p {
                        assert(after[j] == before[oj]);
                    } else {
                        assert(after[i] == before[oi]);
                    }
                }
            }
        }
    }
}

/// A manufacturer that has a record keeps it when the catalog grows.
proof fn lemma_has_make_grows(catalog: Seq<PpdView>, record: PpdView, make: Seq<char>)
    requires
        has_make(catalog, make),
    ensures
        has_make(catalog.push(record), make),
{
    let k = choose|k: int| 0 <= k < catalog.len() && (#[trigger] catalog[k]).make == make;
    assert(catalog.push(record)[k].make == make);
}

/// Two groupings of one catalog carry the same names in their first `n`
/// places.
proof fn lemma_same_names(g1: Seq<GroupView>, g2: Seq<GroupView>, catalog: Seq<PpdView>, n: int)
    requires
        is_grouping(g1, catalog),
        is_grouping(g2, catalog),
        0 <= n <= g1.len(),
        n <= g2.len(),
    ensures
        forall|i: int| 0 <= i < n ==> (#[trigger] g1[i]).name == g2[i].name,
    decreases n,
{
    if n > 0 {
        lemma_same_names(g1, g2, catalog, n - 1);
        let m = n - 1;
        let a = g1[m].name;
        let b = g2[m].name;
        lemma_text_lt_irreflexive(a);
        lemma_text_lt_irreflexive(b);
        lemma_text_lt_asymmetric(a, b);
        // where the name of the one stands in the other
        assert(has_make(catalog, a));
        let ka = choose|k: int| 0 <= k < catalog.len() && (#[trigger] catalog[k]).make == a;
        assert(has_group(g2, catalog[ka].make));
        let j = choose|j: int| 0 <= j < g2.len() && (#[trigger] g2[j]).name == a;
        assert(has_make(catalog, b));
        let kb = choose|k: int| 0 <= k < catalog.len() && (#[trigger] catalog[k]).make == b;
        assert(has_group(g1, catalog[kb].make));
        let i = choose|i: int| 0 <= i < g1.len() && (#[trigger] g1[i]).name == b;
        if j < m {
            assert(g1[j].name == g2[j].name);
            assert(text_lt(g1[j].name, g1[m].name));
        }
        if i < m {
            assert(g1[i].name == g2[i].name);
            assert(text_lt(g2[i].name, g2[m].name));
        }
        if j > m {
            assert(text_lt(g2[m].name, g2[j].name));
            if i > m {
                assert(text_lt(g1[m].name, g1[i].name));
            }
        }
    }
}

/// A catalog has one grouping only: what `group_by_manufacturer` promises
/// of its result leaves no choice.
pub proof fn lemma_grouping_unique(g1: Seq<GroupView>, g2: Seq<GroupView>, catalog: Seq<PpdView>)
    requires
        is_grouping(g1, catalog),
        is_grouping(g2, catalog),
    ensures
        g1 == g2,
{
    let n = if g1.len() <= g2.len() {
        g1.len() as int
    } else {
        g2.len() as int
    };
    lemma_same_names(g1, g2, catalog, n);
    if g1.len() < g2.len() {
        let b = g2[n].name;
        lemma_text_lt_irreflexive(b);
        assert(has_make(catalog, b));
        let kb = choose|k: int| 0 <= k < catalog.len() && (#[trigger] catalog[k]).make == b;
        assert(has_group(g1, catalog[kb].make));
        let i = choose|i: int| 0 <= i < g1.len() && (#[trigger] g1[i]).name == b;
        assert(g1[i].name == g2[i].name);
        assert(text_lt(g2[i].name, g2[n].name));
    }
    if g2.len() < g1.len() {
        let a = g1[n].name;
        lemma_text_lt_irreflexive(a);
        assert(has_make(catalog, a));
        let ka = choose|k: int| 0 <= k < catalog.len() && (#[trigger] catalog[k]).make == a;
        assert(has_group(g2, catalog[ka].make));
        let j = choose|j: int| 0 <= j < g2.len() && (#[trigger] g2[j]).name == a;
        assert(g1[j].name == g2[j].name);
        assert(text_lt(g1[j].name, g1[n].name));
    }
    assert forall|i: int| 0 <= i < g1.len() implies g1[i] == g2[i] by {
        assert(g1[i].name == g2[i].name);
        assert(g1[i].models == models_of(catalog, g1[i].name));
        assert(g2[i].models == models_of(catalog, g2[i].name));
    }
    assert(g1 =~= g2);
}

/// The catalog by manufacturer.
///
/// Every manufacturer that occurs in the catalog gets one group. Its
/// entries are those of its records, one for each record, in the order of
/// the catalog. The groups are sorted by name, in the order in which
/// strings sort. The catalog itself is left as it is.
pub fn group_by_manufacturer(catalog: &Vec<PpdInfo>) -> (res: Vec<ManufacturerGroup>)
    ensures
        is_grouping(group_views(res@), ppd_views(catalog@)),
{
    let mut groups: Vec<ManufacturerGroup> = Vec::new();
    let ghost all = ppd_views(catalog@);
    let mut k: usize = 0;
    while k < catalog.len()
        invariant
            k <= catalog.len(),
            all == ppd_views(catalog@),
            is_grouping(group_views(groups@), all.take(k as int)),
        decreases catalog.len() - k,
    {
        add_record(&mut groups, &catalog[k], Ghost(all.take(k as int)));
        assert(all.take(k as int).push(catalog[k as int]@) =~= all.take(k + 1));
        k += 1;
    }
    assert(all.take(k as int) =~= all);
    groups
}

} // verus!
