use vstd::prelude::*;
use crate::ascii::HYPHEN;
use crate::rfc5424::structured_data_element::element_rendering;
use crate::rfc5424::structured_data_element::ParameterModel;
use crate::rfc5424::structured_data_element::StructuredDataElement;

verus! {

/// What stands where a message has nothing to say: `-`.
pub const NILVALUE: u8 = HYPHEN;

/// An element as an id and its parameters.
pub type ElementModel = (Seq<u8>, Seq<ParameterModel>);

/// Whether no two of the elements have the same id.
pub open spec fn has_distinct_ids(elements: Seq<ElementModel>) -> bool {
    forall|i: int, j: int|
        0 <= i < j < elements.len() ==> (#[trigger] elements[i]).0 != (#[trigger] elements[j]).0
}

/// Whether one of the elements has the id `id`.
pub open spec fn has_id(elements: Seq<ElementModel>, id: Seq<u8>) -> bool {
    exists|i: int| 0 <= i < elements.len() && (#[trigger] elements[i]).0 == id
}

/// Elements as they stand in a message, one after the other.
pub open spec fn elements_rendering(elements: Seq<ElementModel>) -> Seq<u8>
    decreases elements.len(),
{
    if elements.len() == 0 {
        Seq::empty()
    } else {
        elements_rendering(elements.drop_last()) + element_rendering(
            elements.last().0,
            elements.last().1,
        )
    }
}

/// Structured data as it stands in a message: `-` where there is none, and else the
/// elements, one after the other.
pub open spec fn structured_data_rendering(elements: Seq<ElementModel>) -> Seq<u8> {
    if elements.len() == 0 {
        seq![NILVALUE]
    } else {
        elements_rendering(elements)
    }
}

/// A set of structured data elements: no two of them have the same id.
///
/// The order of the elements means nothing to a collector. They are kept, and written,
/// in the order in which they were put in, so that a set is always written the same way.
#[derive(Debug)]
pub struct StructuredData {
    elements: Vec<StructuredDataElement>,
}

impl View for StructuredData {
    type V = Seq<ElementModel>;

    closed spec fn view(&self) -> Seq<ElementModel> {
        Seq::new(
            self.elements@.len(),
            |i: int| (self.elements@[i].id(), self.elements@[i].parameters()),
        )
    }
}

impl StructuredData {
    #[verifier::type_invariant]
    spec fn distinct(&self) -> bool {
        has_distinct_ids(self@)
    }

    /// The set as it stands in a message.
    pub open spec fn rendering(&self) -> Seq<u8> {
        structured_data_rendering(self@)
    }

    /// The empty set.
    pub fn new() -> (structured_data: StructuredData)
        ensures
            structured_data@ == Seq::<ElementModel>::empty(),
    {
        let structured_data = StructuredData { elements: Vec::new() };
        structured_data
    }

    pub fn len(&self) -> (length: usize)
        ensures
            length == self@.len(),
            has_distinct_ids(self@),
    {
        proof {
            use_type_invariant(self);
        }
        self.elements.len()
    }

    pub fn is_empty(&self) -> (empty: bool)
        ensures
            empty == (self@.len() == 0),
    {
        self.elements.len() == 0
    }

    /// Whether the set holds an element with the id of `element`.
    pub fn contains(&self, element: &StructuredDataElement) -> (found: bool)
        ensures
            found == has_id(self@, element.id()),
    {
        let mut i: usize = 0;
        while i < self.elements.len()
            invariant
                i <= self.elements@.len(),
                forall|k: int| 0 <= k < i ==> (#[trigger] self@[k]).0 != element.id(),
            decreases self.elements@.len() - i,
        {
            if self.elements[i] == *element {
                assert(self@[i as int].0 == element.id());
                return true;
            }
            i = i + 1;
        }
        false
    }

    /// Puts `element` into the set, unless the set holds an element with its id
    /// already: the set is then left as it is. Says whether the element was put in.
    pub fn insert(&mut self, element: StructuredDataElement) -> (inserted: bool)
        ensures
            inserted == !has_id(old(self)@, element.id()),
            inserted ==> final(self)@ == old(self)@.push((element.id(), element.parameters())),
            !inserted ==> final(self)@ == old(self)@,
            has_distinct_ids(final(self)@),
    {
        proof {
            use_type_invariant(&*self);
        }
        if self.contains(&element) {
            false
        } else {
            let ghost before = self@;
            let ghost model = (element.id(), element.parameters());
            let mut elements: Vec<StructuredDataElement> = Vec::new();
            std::mem::swap(&mut elements, &mut self.elements);
            elements.push(element);
            proof {
                let after = Seq::new(
                    elements@.len(),
                    |i: int| (elements@[i].id(), elements@[i].parameters()),
                );
                assert forall|i: int, j: int| 0 <= i < j < after.len() implies (#[trigger] after[i]).0
                    != (#[trigger] after[j]).0 by {
                    if j < before.len() {
                        assert(before[i].0 != before[j].0);
                    } else {
                        assert(before[i].0 != model.0);
                    }
                }
            }
            std::mem::swap(&mut elements, &mut self.elements);
            true
        }
    }
}

/// Appends the structured data of a message to `writer`: `-` for the empty set, and
/// else each element, in the order in which the set holds them.
pub fn write_structured_data_elements(writer: &mut Vec<u8>, structured_data_elements: &StructuredData)
    ensures
        final(writer)@ == old(writer)@ + structured_data_elements.rendering(),
{
    if structured_data_elements.is_empty() {
        writer.push(NILVALUE);
        return ;
    }
    let mut i: usize = 0;
    while i < structured_data_elements.elements.len()
        invariant
            i <= structured_data_elements.elements@.len(),
            writer@ == old(writer)@ + elements_rendering(structured_data_elements@.take(i as int)),
        decreases structured_data_elements.elements@.len() - i,
    {
        structured_data_elements.elements[i].write(writer);
        proof {
            let model = structured_data_elements@;
            assert(model.take(i + 1).drop_last() =~= model.take(i as int));
        }
        i = i + 1;
    }
    assert(structured_data_elements@.take(i as int) =~= structured_data_elements@);
}

} // verus!
