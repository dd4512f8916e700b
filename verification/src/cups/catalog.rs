//! How the driver records are read out of a flat run of attributes.
//!
//! The server lists its drivers as attributes of the printer group, one
//! after the other, with nothing that marks where a record ends. The
//! reading goes by the order in which the server is known to send them:
//! `ppd-name` opens a record, `ppd-product` closes it.

use crate::cups::enums::ipp_tag::IPPTag;
use crate::cups::ipp_attribute::AttributeView;
use vstd::prelude::*;

verus! {

/// What a driver record says, as mathematical values.
pub struct PpdView {
    pub name: Seq<char>,
    pub make_and_model: Seq<char>,
    pub make: Seq<char>,
    pub product: Seq<char>,
}

/// The fields of a driver record that an attribute can carry.
pub enum PpdField {
    Name,
    MakeAndModel,
    Make,
    Product,
}

impl PpdView {
    /// The record with every field empty.
    pub open spec fn empty() -> PpdView {
        PpdView {
            name: Seq::empty(),
            make_and_model: Seq::empty(),
            make: Seq::empty(),
            product: Seq::empty(),
        }
    }
}

/// The field that a name stands for, if it stands for one.
pub open spec fn field_named(name: Seq<char>) -> Option<PpdField> {
    if name == "ppd-name"@ {
        Some(PpdField::Name)
    } else if name == "ppd-make-and-model"@ {
        Some(PpdField::MakeAndModel)
    } else if name == "ppd-make"@ {
        Some(PpdField::Make)
    } else if name == "ppd-product"@ {
        Some(PpdField::Product)
    } else {
        None
    }
}

/// The field of a driver record that an attribute carries. Only a named
/// attribute of the printer group carries one.
pub open spec fn ppd_field(a: AttributeView) -> Option<PpdField> {
    match a.name {
        Some(name) if a.group_tag == IPPTag::Printer => field_named(name),
        _ => None,
    }
}

/// The first value of an attribute, or the empty text if it has none.
pub open spec fn value_or_empty(a: AttributeView) -> Seq<char> {
    match a.string_value() {
        Some(v) => v,
        None => Seq::empty(),
    }
}

/// The attribute closes a record.
pub open spec fn closes_record(a: AttributeView) -> bool {
    ppd_field(a) == Some(PpdField::Product)
}

/// The record in the making after `a` was read into `current`.
pub open spec fn absorb(current: PpdView, a: AttributeView) -> PpdView {
    match ppd_field(a) {
        Some(PpdField::Name) => PpdView { name: value_or_empty(a), ..PpdView::empty() },
        Some(PpdField::MakeAndModel) => PpdView { make_and_model: value_or_empty(a), ..current },
        Some(PpdField::Make) => PpdView { make: value_or_empty(a), ..current },
        Some(PpdField::Product) => PpdView { product: value_or_empty(a), ..current },
        None => current,
    }
}

/// The record in the making after all of `attrs` were read.
pub open spec fn pending(attrs: Seq<AttributeView>) -> PpdView
    decreases attrs.len(),
{
    if attrs.len() == 0 {
        PpdView::empty()
    } else {
        absorb(pending(attrs.drop_last()), attrs.last())
    }
}

/// The records that a run of attributes holds: one for each attribute that
/// closes a record, as the record in the making stands at that point.
pub open spec fn catalog_of(attrs: Seq<AttributeView>) -> Seq<PpdView>
    decreases attrs.len(),
{
    if attrs.len() == 0 {
        Seq::empty()
    } else if closes_record(attrs.last()) {
        catalog_of(attrs.drop_last()).push(pending(attrs))
    } else {
        catalog_of(attrs.drop_last())
    }
}

/// The text that a field has after the first `end` attributes were read:
/// the value of the last of them that carries the field, or the empty text
/// if none does or if a `ppd-name` has opened a new record since.
pub open spec fn field_at(attrs: Seq<AttributeView>, field: PpdField, end: int) -> Seq<char>
    decreases end,
{
    if end <= 0 || end > attrs.len() {
        Seq::empty()
    } else if ppd_field(attrs[end - 1]) == Some(field) {
        value_or_empty(attrs[end - 1])
    } else if ppd_field(attrs[end - 1]) == Some(PpdField::Name) {
        Seq::empty()
    } else {
        field_at(attrs, field, end - 1)
    }
}

/// The record as it stands after the first `end` attributes were read,
/// field by field.
pub open spec fn record_at(attrs: Seq<AttributeView>, end: int) -> PpdView {
    PpdView {
        name: field_at(attrs, PpdField::Name, end),
        make_and_model: field_at(attrs, PpdField::MakeAndModel, end),
        make: field_at(attrs, PpdField::Make, end),
        product: field_at(attrs, PpdField::Product, end),
    }
}

/// Each field of the record in the making is the value that was read for
/// it last, unless a `ppd-name` has come since and emptied it.
pub proof fn lemma_pending_is_record_at(attrs: Seq<AttributeView>, end: int)
    requires
        0 <= end <= attrs.len(),
    ensures
        pending(attrs.take(end)) == record_at(attrs, end),
    decreases end,
{
    if end > 0 {
        lemma_pending_is_record_at(attrs, end - 1);
        assert(attrs.take(end).drop_last() =~= attrs.take(end - 1));
        assert(attrs.take(end).last() == attrs[end - 1]);
    }
}

/// Reading on never changes what was read: the records of a shorter run
/// stand at the front of those of the longer one.
pub proof fn lemma_catalog_grows(attrs: Seq<AttributeView>, end: int)
    requires
        0 <= end <= attrs.len(),
    ensures
        catalog_of(attrs.take(end)).is_prefix_of(catalog_of(attrs)),
    decreases attrs.len() - end,
{
    if end == attrs.len() {
        assert(attrs.take(end) =~= attrs);
    } else {
        lemma_catalog_grows(attrs, end + 1);
        assert(attrs.take(end + 1).drop_last() =~= attrs.take(end));
    }
}

/// The catalog holds one record for each `ppd-product` of the printer
/// group and no other: where the attribute at `at` closes a record, the
/// records read up to it are those read before it and the record as it
/// stands there; where it closes none, they are those read before it.
pub proof fn lemma_record_of_closing(attrs: Seq<AttributeView>, at: int)
    requires
        0 <= at < attrs.len(),
    ensures
        closes_record(attrs[at]) ==> catalog_of(attrs.take(at + 1)) == catalog_of(
            attrs.take(at),
        ).push(record_at(attrs, at + 1)),
        !closes_record(attrs[at]) ==> catalog_of(attrs.take(at + 1)) == catalog_of(attrs.take(at)),
{
    assert(attrs.take(at + 1).drop_last() =~= attrs.take(at));
    assert(attrs.take(at + 1).last() == attrs[at]);
    lemma_pending_is_record_at(attrs, at + 1);
}

/// The attributes of the printer group among `attrs`, in their order.
pub open spec fn printer_part(attrs: Seq<AttributeView>) -> Seq<AttributeView>
    decreases attrs.len(),
{
    if attrs.len() == 0 {
        Seq::empty()
    } else if attrs.last().group_tag == IPPTag::Printer {
        printer_part(attrs.drop_last()).push(attrs.last())
    } else {
        printer_part(attrs.drop_last())
    }
}

/// An attribute that carries no field of a record changes nothing, wherever
/// in the run it is put: neither the records read nor the one in the making.
pub proof fn lemma_insert_without_field(attrs: Seq<AttributeView>, i: int, a: AttributeView)
    requires
        0 <= i <= attrs.len(),
        ppd_field(a) is None,
    ensures
        catalog_of(attrs.insert(i, a)) == catalog_of(attrs),
        pending(attrs.insert(i, a)) == pending(attrs),
    decreases attrs.len(),
{
    let longer = attrs.insert(i, a);
    if i == attrs.len() {
        assert(longer.drop_last() =~= attrs);
    } else {
        assert(longer.drop_last() =~= attrs.drop_last().insert(i, a));
        assert(longer.last() == attrs.last());
        lemma_insert_without_field(attrs.drop_last(), i, a);
    }
}

/// Attributes of other groups than the printer group may be put anywhere
/// between those of a run: the records read stay the same.
pub proof fn lemma_insert_other_group(attrs: Seq<AttributeView>, i: int, a: AttributeView)
    requires
        0 <= i <= attrs.len(),
        a.group_tag != IPPTag::Printer,
    ensures
        catalog_of(attrs.insert(i, a)) == catalog_of(attrs),
{
    lemma_insert_without_field(attrs, i, a);
}

/// The records read out of a run are those read out of its printer group
/// alone.
pub proof fn lemma_catalog_of_printer_part(attrs: Seq<AttributeView>)
    ensures
        catalog_of(attrs) == catalog_of(printer_part(attrs)),
        pending(attrs) == pending(printer_part(attrs)),
    decreases attrs.len(),
{
    if attrs.len() > 0 {
        lemma_catalog_of_printer_part(attrs.drop_last());
        if attrs.last().group_tag == IPPTag::Printer {
            assert(printer_part(attrs).drop_last() =~= printer_part(attrs.drop_last()));
        }
    }
}

/// Two runs that hold the same attributes of the printer group in the same
/// order give the same records, however the attributes of other groups are
/// woven in between.
pub proof fn lemma_catalog_under_interleaving(a: Seq<AttributeView>, b: Seq<AttributeView>)
    requires
        printer_part(a) == printer_part(b),
    ensures
        catalog_of(a) == catalog_of(b),
{
    lemma_catalog_of_printer_part(a);
    lemma_catalog_of_printer_part(b);
}

/// Attributes behind the last `ppd-product` add no record: a record that is
/// still open when the run ends is dropped.
pub proof fn lemma_open_tail_dropped(attrs: Seq<AttributeView>, tail: Seq<AttributeView>)
    requires
        forall|i: int| 0 <= i < tail.len() ==> !closes_record(#[trigger] tail[i]),
    ensures
        catalog_of(attrs + tail) == catalog_of(attrs),
    decreases tail.len(),
{
    if tail.len() == 0 {
        assert(attrs + tail =~= attrs);
    } else {
        assert((attrs + tail).drop_last() =~= attrs + tail.drop_last());
        assert((attrs + tail).last() == tail[tail.len() - 1]);
        lemma_open_tail_dropped(attrs, tail.drop_last());
    }
}

/// Every attribute that closes a record adds exactly one to the catalog:
/// the record in the making, with the product that the attribute carries.
pub proof fn lemma_closing_attribute(attrs: Seq<AttributeView>, a: AttributeView)
    requires
        closes_record(a),
    ensures
        catalog_of(attrs.push(a)) == catalog_of(attrs).push(
            PpdView { product: value_or_empty(a), ..pending(attrs) },
        ),
{
    assert(attrs.push(a).drop_last() =~= attrs);
}

} // verus!
