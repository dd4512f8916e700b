//! One attribute of a message: a tagged name with its values.

use crate::cups::enums::ipp_tag::IPPTag;
use vstd::prelude::*;

verus! {

/// An attribute as it stands in a message.
///
/// One without a name carries no data: it marks the place where the group
/// named by its tag begins.
#[derive(Debug, PartialEq, Eq)]
pub struct IppAttribute {
    /// The section of the message that the attribute belongs to.
    pub group_tag: IPPTag,
    /// The type of the values.
    pub value_tag: IPPTag,
    pub name: Option<String>,
    /// The language of a text or name value that is qualified by one.
    pub language: Option<String>,
    /// The values, each as text. An attribute made by `Ipp::add_string`
    /// has exactly one.
    pub values: Vec<String>,
}

/// What an attribute says, as mathematical values.
pub struct AttributeView {
    pub group_tag: IPPTag,
    pub value_tag: IPPTag,
    pub name: Option<Seq<char>>,
    pub language: Option<Seq<char>>,
    pub values: Seq<Seq<char>>,
}

/// The characters of a text that may be absent.
pub open spec fn opt_text(text: Option<String>) -> Option<Seq<char>> {
    match text {
        Some(s) => Some(s@),
        None => None,
    }
}

/// The characters of each text of a list.
pub open spec fn texts(list: Seq<String>) -> Seq<Seq<char>> {
    list.map_values(|s: String| s@)
}

impl AttributeView {
    /// The first value, which is the only one that a reader of the
    /// attribute is given; `None` when there is no value at all.
    pub open spec fn string_value(self) -> Option<Seq<char>> {
        if self.values.len() > 0 {
            Some(self.values[0])
        } else {
            None
        }
    }

    /// The attribute that `Ipp::add_string` makes of its arguments.
    pub open spec fn single(
        group_tag: IPPTag,
        value_tag: IPPTag,
        name: Option<Seq<char>>,
        language: Option<Seq<char>>,
        value: Seq<char>,
    ) -> AttributeView {
        AttributeView { group_tag, value_tag, name, language, values: seq![value] }
    }
}

impl View for IppAttribute {
    type V = AttributeView;

    open spec fn view(&self) -> AttributeView {
        AttributeView {
            group_tag: self.group_tag,
            value_tag: self.value_tag,
            name: opt_text(self.name),
            language: opt_text(self.language),
            values: texts(self.values@),
        }
    }
}

/// A copy of a text that may be absent.
pub fn copy_opt_text(text: &Option<String>) -> (res: Option<String>)
    ensures
        res == *text,
{
    match text {
        Some(s) => Some(s.clone()),
        None => None,
    }
}

/// A copy of a list of texts.
pub fn copy_texts(list: &Vec<String>) -> (res: Vec<String>)
    ensures
        res@ == list@,
{
    let mut out: Vec<String> = Vec::new();
    let mut i: usize = 0;
    while i < list.len()
        invariant
            i <= list.len(),
            out@ == list@.subrange(0, i as int),
        decreases list.len() - i,
    {
        out.push(list[i].clone());
        assert(list@.subrange(0, i + 1) =~= list@.subrange(0, i as int).push(list@[i as int]));
        i += 1;
    }
    assert(list@.subrange(0, list.len() as int) =~= list@);
    out
}

impl IppAttribute {
    /// The group that the attribute belongs to.
    pub fn get_group_tag(&self) -> (res: IPPTag)
        ensures
            res == self@.group_tag,
    {
        self.group_tag
    }

    /// The first value of the attribute. Further values are not handed
    /// out; an attribute without values gives `None`.
    pub fn get_string(&self) -> (res: Option<String>)
        ensures
            opt_text(res) == self@.string_value(),
    {
        if self.values.len() > 0 {
            Some(self.values[0].clone())
        } else {
            None
        }
    }

    /// The name of the attribute; `None` for a group separator.
    pub fn get_name(&self) -> (res: Option<String>)
        ensures
            opt_text(res) == self@.name,
    {
        copy_opt_text(&self.name)
    }
}

impl Clone for IppAttribute {
    fn clone(&self) -> (res: Self)
        ensures
            res@ == self@,
    {
        IppAttribute {
            group_tag: self.group_tag,
            value_tag: self.value_tag,
            name: copy_opt_text(&self.name),
            language: copy_opt_text(&self.language),
            values: copy_texts(&self.values),
        }
    }
}

} // verus!
