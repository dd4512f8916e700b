//! A message: the attributes of a request or of an answer, in wire order,
//! with the position of a reader that walks them.

use crate::cups::c_interop::{attribute_views, IppT};
use crate::cups::enums::ipp_operations::IppOp;
use crate::cups::enums::ipp_tag::IPPTag;
use crate::cups::ipp_attribute::{AttributeView, IppAttribute};
use crate::text::{has_interior_nul, has_nul};
use vstd::prelude::*;

verus! {

/// A message under construction or under reading.
///
/// The order of the attributes is the order in which they were added, and
/// it is the order in which they go over the wire.
#[derive(Debug)]
pub struct Ipp {
    operation: IppOp,
    attributes: Vec<IppAttribute>,
    /// Where the attribute handed out last stands; `None` before the walk
    /// has begun and after it has run off the end.
    current: Option<usize>,
}

/// What a message says, as mathematical values.
pub struct MessageView {
    pub operation: IppOp,
    pub attributes: Seq<AttributeView>,
    /// The index of the attribute handed out last, if the walk stands on one.
    pub current: Option<int>,
}

/// The characters of a borrowed text that may be absent.
pub open spec fn opt_str(text: Option<&str>) -> Option<Seq<char>> {
    match text {
        Some(s) => Some(s@),
        None => None,
    }
}

/// What the attribute behind a handle says.
pub open spec fn handle_view(handle: Option<&IppAttribute>) -> Option<AttributeView> {
    match handle {
        Some(a) => Some(a@),
        None => None,
    }
}

impl MessageView {
    /// A new request for `operation`: no attribute yet, no walk begun.
    pub open spec fn fresh(operation: IppOp) -> MessageView {
        MessageView { operation, attributes: Seq::empty(), current: None }
    }

    /// The message after `add_string` with these arguments: one attribute
    /// more at the end, or the same message if the value holds a NUL.
    pub open spec fn with_string(
        self,
        group_tag: IPPTag,
        value_tag: IPPTag,
        name: Option<Seq<char>>,
        language: Option<Seq<char>>,
        value: Seq<char>,
    ) -> MessageView {
        if has_nul(value) {
            self
        } else {
            MessageView {
                attributes: self.attributes.push(
                    AttributeView::single(group_tag, value_tag, name, language, value),
                ),
                ..self
            }
        }
    }

    /// The message after the walk was begun anew.
    pub open spec fn at_first(self) -> MessageView {
        MessageView {
            current: if self.attributes.len() > 0 {
                Some(0int)
            } else {
                None
            },
            ..self
        }
    }

    /// The message after one step of the walk. A walk that has not begun,
    /// or that has ended, stays where it is.
    pub open spec fn at_next(self) -> MessageView {
        MessageView {
            current: match self.current {
                Some(i) => if 0 <= i && i + 1 < self.attributes.len() {
                    Some(i + 1)
                } else {
                    None
                },
                None => None,
            },
            ..self
        }
    }

    /// The attribute under the reading position.
    pub open spec fn under_cursor(self) -> Option<AttributeView> {
        match self.current {
            Some(i) => if 0 <= i < self.attributes.len() {
                Some(self.attributes[i])
            } else {
                None
            },
            None => None,
        }
    }

    /// How many steps the walk can still take.
    pub open spec fn remaining(self) -> nat {
        match self.current {
            Some(i) => if 0 <= i < self.attributes.len() {
                (self.attributes.len() - i) as nat
            } else {
                0
            },
            None => 0,
        }
    }

    /// What `get_next_attribute` hands out, call after call, until it
    /// first answers `None`.
    pub open spec fn rest(self) -> Seq<AttributeView>
        decreases self.remaining(),
    {
        match self.at_next().under_cursor() {
            Some(a) => seq![a] + self.at_next().rest(),
            None => Seq::empty(),
        }
    }

    /// What a full walk hands out: the answer of `get_first_attribute`,
    /// then those of `get_next_attribute` until it first answers `None`.
    pub open spec fn replay(self) -> Seq<AttributeView> {
        match self.at_first().under_cursor() {
            Some(a) => seq![a] + self.at_first().rest(),
            None => Seq::empty(),
        }
    }
}

/// The arguments of one call of `add_string`.
pub struct StringCall {
    pub group_tag: IPPTag,
    pub value_tag: IPPTag,
    pub name: Option<Seq<char>>,
    pub language: Option<Seq<char>>,
    pub value: Seq<char>,
}

impl StringCall {
    /// The attribute that the call adds when its value can be sent.
    pub open spec fn attribute(self) -> AttributeView {
        AttributeView::single(self.group_tag, self.value_tag, self.name, self.language, self.value)
    }
}

/// The attributes that a run of `add_string` calls adds: one for each call
/// whose value holds no NUL, in the order of the calls.
pub open spec fn added_by(calls: Seq<StringCall>) -> Seq<AttributeView>
    decreases calls.len(),
{
    if calls.len() == 0 {
        Seq::empty()
    } else if has_nul(calls.last().value) {
        added_by(calls.drop_last())
    } else {
        added_by(calls.drop_last()).push(calls.last().attribute())
    }
}

impl MessageView {
    /// The message after a run of `add_string` calls.
    pub open spec fn with_strings(self, calls: Seq<StringCall>) -> MessageView
        decreases calls.len(),
    {
        if calls.len() == 0 {
            self
        } else {
            let c = calls.last();
            self.with_strings(calls.drop_last()).with_string(
                c.group_tag,
                c.value_tag,
                c.name,
                c.language,
                c.value,
            )
        }
    }

    /// From an attribute on, the steps of the walk hand out the attributes
    /// that stand behind it, in their order.
    pub proof fn lemma_rest_is_tail(self, i: int)
        requires
            self.current == Some(i),
            0 <= i < self.attributes.len(),
        ensures
            self.rest() == self.attributes.skip(i + 1),
        decreases self.attributes.len() - i,
    {
        if i + 1 < self.attributes.len() {
            self.at_next().lemma_rest_is_tail(i + 1);
            assert(self.attributes.skip(i + 1) =~= seq![self.attributes[i + 1]]
                + self.attributes.skip(i + 2));
        } else {
            assert(self.attributes.skip(i + 1) =~= Seq::empty());
        }
    }

    /// A full walk hands out every attribute of the message once, in wire
    /// order, wherever an earlier walk has stopped.
    pub proof fn lemma_replay_is_attributes(self)
        ensures
            self.replay() == self.attributes,
    {
        if self.attributes.len() > 0 {
            self.at_first().lemma_rest_is_tail(0);
            assert(self.attributes =~= seq![self.attributes[0]] + self.attributes.skip(1));
        } else {
            assert(self.attributes =~= Seq::empty());
        }
    }

    /// A run of `add_string` calls leaves what was there and puts behind it
    /// what the calls add; operation and reading position stay.
    pub proof fn lemma_with_strings(self, calls: Seq<StringCall>)
        ensures
            self.with_strings(calls).attributes == self.attributes + added_by(calls),
            self.with_strings(calls).operation == self.operation,
            self.with_strings(calls).current == self.current,
        decreases calls.len(),
    {
        if calls.len() == 0 {
            assert(self.attributes + added_by(calls) =~= self.attributes);
        } else {
            self.lemma_with_strings(calls.drop_last());
            assert(self.with_strings(calls).attributes =~= self.attributes + added_by(calls));
        }
    }

    /// Whatever run of `add_string` calls is made on a fresh message, a walk
    /// over it with `get_first_attribute` and `get_next_attribute` hands out
    /// exactly the attributes added, in the order of the calls, each with
    /// the group, type, name, language and value it was added with.
    pub proof fn lemma_replay_returns_added(operation: IppOp, calls: Seq<StringCall>)
        ensures
            Self::fresh(operation).with_strings(calls).replay() == added_by(calls),
    {
        let m = Self::fresh(operation);
        m.lemma_with_strings(calls);
        m.with_strings(calls).lemma_replay_is_attributes();
        assert(m.attributes + added_by(calls) =~= added_by(calls));
    }
}

impl View for Ipp {
    type V = MessageView;

    closed spec fn view(&self) -> MessageView {
        MessageView {
            operation: self.operation,
            attributes: attribute_views(self.attributes@),
            current: match self.current {
                Some(i) => Some(i as int),
                None => None,
            },
        }
    }
}

impl Ipp {
    /// A new request for `op`, without attributes.
    pub fn new(op: IppOp) -> (res: Self)
        ensures
            res@ == MessageView::fresh(op),
    {
        let res = Ipp { operation: op, attributes: Vec::new(), current: None };
        assert(res@.attributes =~= Seq::empty());
        res
    }

    /// Takes over a message that the transport handed back. `None`, the
    /// sign that no message came, stays `None`.
    pub fn from_raw(raw: Option<IppT>) -> (res: Option<Self>)
        ensures
            match raw {
                Some(r) => res matches Some(m) && m@ == (MessageView {
                    operation: r.operation,
                    attributes: attribute_views(r.attributes@),
                    current: None,
                }),
                None => res is None,
            },
    {
        match raw {
            Some(r) => Some(Ipp { operation: r.operation, attributes: r.attributes, current: None }),
            None => None,
        }
    }

    /// Gives the message up to the transport; the reading position is lost.
    pub fn into_raw(self) -> (res: IppT)
        ensures
            res.operation == self@.operation,
            attribute_views(res.attributes@) == self@.attributes,
    {
        IppT { operation: self.operation, attributes: self.attributes }
    }

    /// The operation that the message was made for.
    pub fn operation(&self) -> (res: IppOp)
        ensures
            res == self@.operation,
    {
        self.operation
    }

    /// The number of attributes in the message.
    pub fn len(&self) -> (res: usize)
        ensures
            res == self@.attributes.len(),
    {
        self.attributes.len()
    }

    /// Adds one attribute with a single text value at the end of the
    /// message and hands back a handle to it.
    ///
    /// Group, type, name and language are stored as they are given. A value
    /// that holds a NUL cannot be sent: nothing is added then, and the
    /// answer is `None`.
    pub fn add_string(
        &mut self,
        group: IPPTag,
        value_tag: IPPTag,
        name: Option<&str>,
        language: Option<&str>,
        value: &str,
    ) -> (res: Option<&IppAttribute>)
        ensures
            final(self)@ == old(self)@.with_string(
                group,
                value_tag,
                opt_str(name),
                opt_str(language),
                value@,
            ),
            handle_view(res) == if has_nul(value@) {
                None
            } else {
                Some(
                    AttributeView::single(group, value_tag, opt_str(name), opt_str(language), value@),
                )
            },
    {
        if has_interior_nul(value) {
            return None;
        }
        let attr = IppAttribute {
            group_tag: group,
            value_tag,
            name: match name {
                Some(s) => Some(s.to_owned()),
                None => None,
            },
            language: match language {
                Some(s) => Some(s.to_owned()),
                None => None,
            },
            values: vec![value.to_owned()],
        };
        assert(attr@.values =~= seq![value@]);
        let ghost before = self.attributes@;
        self.attributes.push(attr);
        assert(attribute_views(self.attributes@) =~= attribute_views(before).push(attr@));
        let last = self.attributes.len() - 1;
        Some(&self.attributes[last])
    }

    /// Begins the walk anew and hands out the first attribute, or `None`
    /// if the message has none.
    pub fn get_first_attribute(&mut self) -> (res: Option<&IppAttribute>)
        ensures
            final(self)@ == old(self)@.at_first(),
            handle_view(res) == final(self)@.under_cursor(),
    {
        if self.attributes.len() > 0 {
            self.current = Some(0);
            Some(&self.attributes[0])
        } else {
            self.current = None;
            None
        }
    }

    /// Hands out the attribute after the one handed out last, or `None` at
    /// the end. After a `None` every further call answers `None`, until
    /// the walk is begun anew.
    pub fn get_next_attribute(&mut self) -> (res: Option<&IppAttribute>)
        ensures
            final(self)@ == old(self)@.at_next(),
            handle_view(res) == final(self)@.under_cursor(),
    {
        let current = self.current;
        match current {
            Some(i) => {
                let len = self.attributes.len();
                if i < len && i + 1 < len {
                    self.current = Some(i + 1);
                    Some(&self.attributes[i + 1])
                } else {
                    self.current = None;
                    None
                }
            },
            None => None,
        }
    }
}

} // verus!
