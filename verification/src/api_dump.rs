//! The offline dump: the classes, their properties and the value types, as
//! the static source states them.

use vstd::prelude::*;

use crate::database::{
    class_valid, valid, ClassDescriptorView, PropertyDescriptorView, ReflectionDatabaseView,
    Scriptability,
};
use crate::variant::VariantType;

verus! {

/// One property as the dump states it. A field that the dump leaves out is
/// `None`.
#[derive(Debug, Clone, PartialEq, Eq)]
pub struct DumpProperty {
    pub name: Option<String>,
    pub value_type: Option<VariantType>,
}

/// One class as the dump states it. A name that the dump leaves out is
/// `None`.
#[derive(Debug, Clone, PartialEq, Eq)]
pub struct DumpClass {
    pub name: Option<String>,
    pub properties: Vec<DumpProperty>,
}

/// The dump: its classes in the order of the document.
#[derive(Debug, Clone, PartialEq, Eq)]
pub struct Dump {
    pub classes: Vec<DumpClass>,
}

/// A property is complete where the dump states its name and its value
/// type.
pub open spec fn property_complete(property: DumpProperty) -> bool {
    property.name is Some && property.value_type is Some
}

/// A class is complete where the dump states its name and each of its
/// properties is complete.
pub open spec fn class_complete(class: DumpClass) -> bool {
    &&& class.name is Some
    &&& forall|i: int|
        0 <= i < class.properties@.len() ==> property_complete(#[trigger] class.properties@[i])
}

/// A dump is well-formed where each of its classes is complete.
pub open spec fn dump_complete(dump: Dump) -> bool {
    forall|i: int| 0 <= i < dump.classes@.len() ==> class_complete(#[trigger] dump.classes@[i])
}

/// The descriptor that a complete property of the dump gives: its name and
/// value type, out of the reach of scripts.
pub open spec fn baseline_property(property: DumpProperty) -> PropertyDescriptorView {
    PropertyDescriptorView {
        name: property.name->0@,
        value_type: property.value_type,
        scriptability: Scriptability::NotScriptable,
    }
}

/// The descriptors that a list of complete properties gives, by their
/// names. Of two properties of one name the later one stays.
pub open spec fn baseline_properties(properties: Seq<DumpProperty>) -> Map<
    Seq<char>,
    PropertyDescriptorView,
>
    decreases properties.len(),
{
    if properties.len() == 0 {
        Map::empty()
    } else {
        baseline_properties(properties.drop_last()).insert(
            properties.last().name->0@,
            baseline_property(properties.last()),
        )
    }
}

/// The descriptor that a complete class of the dump gives: its name and
/// properties, without default values.
pub open spec fn baseline_class(class: DumpClass) -> ClassDescriptorView {
    ClassDescriptorView {
        name: class.name->0@,
        properties: baseline_properties(class.properties@),
        default_properties: Map::empty(),
    }
}

/// The descriptors that a list of complete classes gives, by their names.
/// Of two classes of one name the later one stays.
pub open spec fn baseline_classes(classes: Seq<DumpClass>) -> Map<Seq<char>, ClassDescriptorView>
    decreases classes.len(),
{
    if classes.len() == 0 {
        Map::empty()
    } else {
        baseline_classes(classes.drop_last()).insert(
            classes.last().name->0@,
            baseline_class(classes.last()),
        )
    }
}

/// The properties that a list of complete properties gives are each filed
/// under their own name, with a resolved value type and out of the reach of
/// scripts.
pub proof fn lemma_baseline_properties(properties: Seq<DumpProperty>)
    requires
        forall|i: int| 0 <= i < properties.len() ==> property_complete(#[trigger] properties[i]),
    ensures
        forall|p: Seq<char>| #[trigger]
            baseline_properties(properties).contains_key(p) ==> {
                &&& baseline_properties(properties)[p].name == p
                &&& baseline_properties(properties)[p].value_type is Some
                &&& baseline_properties(properties)[p].scriptability
                    == Scriptability::NotScriptable
            },
    decreases properties.len(),
{
    if properties.len() > 0 {
        assert(property_complete(properties[properties.len() - 1]));
        assert forall|i: int| 0 <= i < properties.drop_last().len() implies property_complete(
            #[trigger] properties.drop_last()[i],
        ) by {
            assert(properties.drop_last()[i] == properties[i]);
        }
        lemma_baseline_properties(properties.drop_last());
    }
}

/// The classes that a well-formed dump gives keep every structural
/// invariant of a database.
pub proof fn lemma_baseline_is_valid(classes: Seq<DumpClass>, studio_version: [u32; 4])
    requires
        forall|i: int| 0 <= i < classes.len() ==> class_complete(#[trigger] classes[i]),
    ensures
        valid(ReflectionDatabaseView { studio_version, classes: baseline_classes(classes) }),
    decreases classes.len(),
{
    if classes.len() > 0 {
        let last = classes.last();
        assert(class_complete(classes[classes.len() - 1]));
        assert forall|i: int| 0 <= i < classes.drop_last().len() implies class_complete(
            #[trigger] classes.drop_last()[i],
        ) by {
            assert(classes.drop_last()[i] == classes[i]);
        }
        lemma_baseline_is_valid(classes.drop_last(), studio_version);
        lemma_baseline_properties(last.properties@);
        let before = ReflectionDatabaseView {
            studio_version,
            classes: baseline_classes(classes.drop_last()),
        };
        assert forall|c: Seq<char>| #[trigger]
            baseline_classes(classes).contains_key(c) implies class_valid(
            c,
            baseline_classes(classes)[c],
        ) by {
            if c != last.name->0@ {
                assert(before.classes.contains_key(c));
            }
        }
    }
}

} // verus!
