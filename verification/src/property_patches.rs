//! The hand-written corrections to the baseline, by class and property.

use vstd::prelude::*;

use crate::database::{
    ClassDescriptorView, PropertyDescriptorView, ReflectionDatabaseView, Scriptability,
};
use crate::string_map::StringMap;
use crate::variant::{Variant, VariantType};

verus! {

/// What a correction overrides of one property. A field that is `None`
/// overrides nothing.
#[derive(Debug, Clone, PartialEq)]
pub struct PropertyPatch {
    /// The value type of the property.
    pub value_type: Option<VariantType>,
    /// The default value of the property.
    pub default_value: Option<Variant>,
    /// The scriptability of the property.
    pub scriptability: Option<Scriptability>,
}

impl View for PropertyPatch {
    type V = PropertyPatch;

    open spec fn view(&self) -> PropertyPatch {
        *self
    }
}

/// The corrections of a patch file: by the name of the class, and for each
/// class by the name of the property.
#[derive(Debug, Clone)]
pub struct PropertyPatches {
    pub classes: StringMap<StringMap<PropertyPatch>>,
}

impl View for PropertyPatches {
    type V = Map<Seq<char>, Map<Seq<char>, PropertyPatch>>;

    open spec fn view(&self) -> Map<Seq<char>, Map<Seq<char>, PropertyPatch>> {
        self.classes@
    }
}

/// Whether the class has every property that the corrections name.
pub open spec fn properties_exist(
    class: ClassDescriptorView,
    patches: Map<Seq<char>, PropertyPatch>,
) -> bool {
    forall|p: Seq<char>| #[trigger] patches.contains_key(p) ==> class.properties.contains_key(p)
}

/// Whether the database has every class that the corrections name, and each
/// such class every property that they name.
pub open spec fn targets_exist(
    database: ReflectionDatabaseView,
    patches: Map<Seq<char>, Map<Seq<char>, PropertyPatch>>,
) -> bool {
    forall|c: Seq<char>| #[trigger]
        patches.contains_key(c) ==> database.classes.contains_key(c) && properties_exist(
            database.classes[c],
            patches[c],
        )
}

/// The descriptor after a correction: each field that the correction holds
/// replaces the field of the descriptor; the name stays.
pub open spec fn property_overridden(
    property: PropertyDescriptorView,
    patch: PropertyPatch,
) -> PropertyDescriptorView {
    PropertyDescriptorView {
        name: property.name,
        value_type: if patch.value_type is Some {
            patch.value_type
        } else {
            property.value_type
        },
        scriptability: if patch.scriptability is Some {
            patch.scriptability->0
        } else {
            property.scriptability
        },
    }
}

/// The class after the corrections to its properties.
pub open spec fn class_overridden(
    class: ClassDescriptorView,
    patches: Map<Seq<char>, PropertyPatch>,
) -> ClassDescriptorView {
    ClassDescriptorView {
        name: class.name,
        properties: Map::new(
            |p: Seq<char>| class.properties.contains_key(p),
            |p: Seq<char>|
                if patches.contains_key(p) {
                    property_overridden(class.properties[p], patches[p])
                } else {
                    class.properties[p]
                },
        ),
        default_properties: Map::new(
            |p: Seq<char>|
                class.default_properties.contains_key(p) || (patches.contains_key(p)
                    && patches[p].default_value is Some),
            |p: Seq<char>|
                if patches.contains_key(p) && patches[p].default_value is Some {
                    patches[p].default_value->0
                } else {
                    class.default_properties[p]
                },
        ),
    }
}

/// The database after the corrections of a patch file.
pub open spec fn database_overridden(
    database: ReflectionDatabaseView,
    patches: Map<Seq<char>, Map<Seq<char>, PropertyPatch>>,
) -> ReflectionDatabaseView {
    ReflectionDatabaseView {
        studio_version: database.studio_version,
        classes: Map::new(
            |c: Seq<char>| database.classes.contains_key(c),
            |c: Seq<char>|
                if patches.contains_key(c) {
                    class_overridden(database.classes[c], patches[c])
                } else {
                    database.classes[c]
                },
        ),
    }
}

/// The class after the correction of one property that it has.
pub open spec fn property_patched(
    class: ClassDescriptorView,
    name: Seq<char>,
    patch: PropertyPatch,
) -> ClassDescriptorView {
    ClassDescriptorView {
        name: class.name,
        properties: class.properties.insert(
            name,
            property_overridden(class.properties[name], patch),
        ),
        default_properties: if patch.default_value is Some {
            class.default_properties.insert(name, patch.default_value->0)
        } else {
            class.default_properties
        },
    }
}

/// Overriding with one more property is overriding with the others first
/// and with that property then.
pub proof fn lemma_override_one_more(
    class: ClassDescriptorView,
    patches: Map<Seq<char>, PropertyPatch>,
    name: Seq<char>,
    patch: PropertyPatch,
)
    requires
        !patches.contains_key(name),
        class.properties.contains_key(name),
    ensures
        class_overridden(class, patches.insert(name, patch)) == property_patched(
            class_overridden(class, patches),
            name,
            patch,
        ),
{
    let all = class_overridden(class, patches.insert(name, patch));
    let stepwise = property_patched(class_overridden(class, patches), name, patch);
    assert(all.properties =~= stepwise.properties);
    assert(all.default_properties =~= stepwise.default_properties);
}

/// Overriding with the corrections of one more class is overriding with
/// those of the others first and then replacing that class.
pub proof fn lemma_override_one_more_class(
    database: ReflectionDatabaseView,
    patches: Map<Seq<char>, Map<Seq<char>, PropertyPatch>>,
    name: Seq<char>,
    class_patches: Map<Seq<char>, PropertyPatch>,
)
    requires
        !patches.contains_key(name),
        database.classes.contains_key(name),
    ensures
        database_overridden(database, patches.insert(name, class_patches)).classes
            == database_overridden(database, patches).classes.insert(
            name,
            class_overridden(database.classes[name], class_patches),
        ),
        database_overridden(database, patches).classes[name] == database.classes[name],
{
    assert(database_overridden(database, patches.insert(name, class_patches)).classes
        =~= database_overridden(database, patches).classes.insert(
        name,
        class_overridden(database.classes[name], class_patches),
    ));
}

/// A correction that holds a default value and nothing else, for a property
/// that the class has, leaves the descriptor of the property as it was, its
/// scriptability with it, and makes the value the default value of the
/// property.
pub proof fn lemma_default_only_patch(
    database: ReflectionDatabaseView,
    patches: Map<Seq<char>, Map<Seq<char>, PropertyPatch>>,
    class_name: Seq<char>,
    property_name: Seq<char>,
    value: Variant,
)
    requires
        database.classes.contains_key(class_name),
        database.classes[class_name].properties.contains_key(property_name),
        patches.contains_key(class_name),
        patches[class_name].contains_key(property_name),
        patches[class_name][property_name] == (PropertyPatch {
            value_type: None,
            default_value: Some(value),
            scriptability: None,
        }),
    ensures
        database_overridden(database, patches).classes.contains_key(class_name),
        database_overridden(database, patches).classes[class_name].properties.contains_key(
            property_name,
        ),
        database_overridden(database, patches).classes[class_name].properties[property_name]
            == database.classes[class_name].properties[property_name],
        database_overridden(database, patches).classes[class_name].default_properties.contains_key(
            property_name,
        ),
        database_overridden(
            database,
            patches,
        ).classes[class_name].default_properties[property_name] == value,
{
}

/// Corrections add no class and no property, and take none away.
pub proof fn lemma_override_creates_nothing(
    database: ReflectionDatabaseView,
    patches: Map<Seq<char>, Map<Seq<char>, PropertyPatch>>,
)
    ensures
        database_overridden(database, patches).classes.dom() == database.classes.dom(),
        forall|c: Seq<char>| #[trigger]
            database.classes.contains_key(c) ==> database_overridden(
                database,
                patches,
            ).classes[c].properties.dom() == database.classes[c].properties.dom(),
{
    assert(database_overridden(database, patches).classes.dom() =~= database.classes.dom());
    assert forall|c: Seq<char>| #[trigger]
        database.classes.contains_key(c) implies database_overridden(
        database,
        patches,
    ).classes[c].properties.dom() == database.classes[c].properties.dom() by {
        assert(database_overridden(database, patches).classes[c].properties.dom()
            =~= database.classes[c].properties.dom());
    }
}

} // verus!
