//! The reflection database, its descriptors, and the check of its
//! structural invariants.

use vstd::prelude::*;

use crate::api_dump::{
    baseline_class, baseline_classes, baseline_properties, class_complete, dump_complete,
    lemma_baseline_is_valid, property_complete, Dump, DumpClass,
};
use crate::error::PipelineError;
use crate::property_patches::{
    class_overridden, database_overridden, lemma_override_one_more,
    lemma_override_one_more_class, properties_exist, property_patched, targets_exist,
    PropertyPatch, PropertyPatches,
};
use crate::string_map::{lemma_holds_of_every_key, str_eq, StringMap};
use crate::variant::{Variant, VariantType};

verus! {

/// Who may read and write a property from scripts.
#[derive(Debug, Clone, Copy, PartialEq, Eq, Structural)]
pub enum Scriptability {
    /// Scripts can neither read nor write the property.
    NotScriptable,
    /// Scripts can read and write the property.
    ReadWrite,
    /// Scripts can only read the property.
    Read,
    /// Scripts can only write the property.
    Write,
    /// Scripts reach the property only through other means than assignment.
    Custom,
}

/// What is known of one property of a class.
#[derive(Debug, Clone, PartialEq, Eq)]
pub struct PropertyDescriptor {
    /// The name of the property.
    pub name: String,
    /// The declared kind of the values of the property; `None` as long as it
    /// is not resolved.
    pub value_type: Option<VariantType>,
    /// Who may read and write the property.
    pub scriptability: Scriptability,
}

/// The mathematical content of a `PropertyDescriptor`.
#[verifier::ext_equal]
pub struct PropertyDescriptorView {
    pub name: Seq<char>,
    pub value_type: Option<VariantType>,
    pub scriptability: Scriptability,
}

impl View for PropertyDescriptor {
    type V = PropertyDescriptorView;

    open spec fn view(&self) -> PropertyDescriptorView {
        PropertyDescriptorView {
            name: self.name@,
            value_type: self.value_type,
            scriptability: self.scriptability,
        }
    }
}

/// What is known of one class: its properties, and the default values of
/// properties. The two maps share the space of property names and are
/// otherwise independent.
#[derive(Debug, Clone)]
pub struct ClassDescriptor {
    /// The name of the class.
    pub name: String,
    /// The descriptor of each property, by the property's name.
    pub properties: StringMap<PropertyDescriptor>,
    /// The default value of properties, by the property's name.
    pub default_properties: StringMap<Variant>,
}

/// The mathematical content of a `ClassDescriptor`.
#[verifier::ext_equal]
pub struct ClassDescriptorView {
    pub name: Seq<char>,
    pub properties: Map<Seq<char>, PropertyDescriptorView>,
    pub default_properties: Map<Seq<char>, Variant>,
}

impl View for ClassDescriptor {
    type V = ClassDescriptorView;

    open spec fn view(&self) -> ClassDescriptorView {
        ClassDescriptorView {
            name: self.name@,
            properties: self.properties@,
            default_properties: self.default_properties@,
        }
    }
}

/// The catalogue: the version of the host it describes, and the descriptor
/// of each class, by the class's name.
#[derive(Debug, Clone)]
pub struct ReflectionDatabase {
    /// The version of the host, in four components.
    pub studio_version: [u32; 4],
    /// The descriptor of each class, by the class's name.
    pub classes: StringMap<ClassDescriptor>,
}

/// The mathematical content of a `ReflectionDatabase`.
#[verifier::ext_equal]
pub struct ReflectionDatabaseView {
    pub studio_version: [u32; 4],
    pub classes: Map<Seq<char>, ClassDescriptorView>,
}

impl View for ReflectionDatabase {
    type V = ReflectionDatabaseView;

    open spec fn view(&self) -> ReflectionDatabaseView {
        ReflectionDatabaseView { studio_version: self.studio_version, classes: self.classes@ }
    }
}

/// A property is in order where it is filed under its own name and its
/// value type is resolved.
pub open spec fn property_valid(key: Seq<char>, property: PropertyDescriptorView) -> bool {
    &&& property.name == key
    &&& property.value_type is Some
}

/// The default value filed under `key` is in order where the class has a
/// property of that name, and the value is of the kind that the property
/// declares.
pub open spec fn default_valid(class: ClassDescriptorView, key: Seq<char>) -> bool {
    &&& class.properties.contains_key(key)
    &&& class.properties[key].value_type == Some(class.default_properties[key].kind())
}

/// A class is in order where it is filed under its own name, each of its
/// properties is in order and each of its default values is in order.
pub open spec fn class_valid(key: Seq<char>, class: ClassDescriptorView) -> bool {
    &&& class.name == key
    &&& forall|p: Seq<char>| #[trigger]
        class.properties.contains_key(p) ==> property_valid(p, class.properties[p])
    &&& forall|p: Seq<char>| #[trigger]
        class.default_properties.contains_key(p) ==> default_valid(class, p)
}

/// The structural invariants of a database: each of its classes is in
/// order.
pub open spec fn valid(database: ReflectionDatabaseView) -> bool {
    forall|c: Seq<char>| #[trigger]
        database.classes.contains_key(c) ==> class_valid(c, database.classes[c])
}

impl PropertyDescriptor {
    /// The descriptor of a property that scripts cannot reach.
    pub fn new(name: String, value_type: Option<VariantType>) -> (descriptor: PropertyDescriptor)
        ensures
            descriptor@ == (PropertyDescriptorView {
                name: name@,
                value_type,
                scriptability: Scriptability::NotScriptable,
            }),
    {
        PropertyDescriptor { name, value_type, scriptability: Scriptability::NotScriptable }
    }
}

impl ClassDescriptor {
    /// The descriptor of a class without properties.
    pub fn new(name: String) -> (class: ClassDescriptor)
        ensures
            class@ == (ClassDescriptorView {
                name: name@,
                properties: Map::empty(),
                default_properties: Map::empty(),
            }),
    {
        ClassDescriptor { name, properties: StringMap::new(), default_properties: StringMap::new() }
    }

    /// The descriptor that a class of the dump gives, or `None` where the
    /// class is not complete.
    pub fn from_dump(dump_class: &DumpClass) -> (class: Option<ClassDescriptor>)
        ensures
            class is Some <==> class_complete(*dump_class),
            class is Some ==> class->0@ == baseline_class(*dump_class),
    {
        let name = match &dump_class.name {
            Some(name) => name.clone(),
            None => {
                return None;
            },
        };
        let mut properties: StringMap<PropertyDescriptor> = StringMap::new();
        let count = dump_class.properties.len();
        let mut i: usize = 0;
        while i < count
            invariant
                i <= count,
                count == dump_class.properties@.len(),
                properties@ == baseline_properties(dump_class.properties@.take(i as int)),
                forall|j: int|
                    0 <= j < i ==> property_complete(#[trigger] dump_class.properties@[j]),
            decreases count - i,
        {
            let dump_property = &dump_class.properties[i];
            let property_name = match &dump_property.name {
                Some(property_name) => property_name,
                None => {
                    return None;
                },
            };
            if dump_property.value_type.is_none() {
                return None;
            }
            proof {
                let next = dump_class.properties@.take(i as int + 1);
                assert(next.drop_last() =~= dump_class.properties@.take(i as int));
                assert(next.last() == dump_class.properties@[i as int]);
            }
            properties.insert(
                property_name.clone(),
                PropertyDescriptor::new(property_name.clone(), dump_property.value_type),
            );
            i += 1;
        }
        proof {
            assert(dump_class.properties@.take(count as int) =~= dump_class.properties@);
        }
        Some(ClassDescriptor { name, properties, default_properties: StringMap::new() })
    }

    /// The name of a property that the corrections name and the class does
    /// not have, if there is one.
    pub fn missing_property(&self, patches: &StringMap<PropertyPatch>) -> (missing: Option<String>)
        ensures
            missing is None <==> properties_exist(self@, patches@),
            missing is Some ==> patches@.contains_key(missing->0@)
                && !self@.properties.contains_key(missing->0@),
    {
        let count = patches.len();
        let mut i: usize = 0;
        while i < count
            invariant
                i <= count,
                count == patches.keys().len(),
                patches.keys().to_set() == patches@.dom(),
                forall|j: int|
                    0 <= j < i ==> self@.properties.contains_key(#[trigger] patches.keys()[j]),
            decreases count - i,
        {
            let name = patches.key_at(i);
            if !self.properties.contains_key(name.as_str()) {
                return Some(name.clone());
            }
            i += 1;
        }
        proof {
            lemma_holds_of_every_key(patches, |p: Seq<char>| self@.properties.contains_key(p));
        }
        None
    }

    /// Overrides the properties of the class with the corrections.
    pub fn apply_patches(&mut self, patches: StringMap<PropertyPatch>)
        requires
            properties_exist(old(self)@, patches@),
        ensures
            final(self)@ == class_overridden(old(self)@, patches@),
    {
        let mut remaining = patches;
        proof {
            assert(patches@.remove_keys(remaining@.dom()) =~= Map::<
                Seq<char>,
                PropertyPatch,
            >::empty());
            let start = class_overridden(old(self)@, Map::empty());
            assert(start.properties =~= old(self)@.properties);
            assert(start.default_properties =~= old(self)@.default_properties);
        }
        loop
            invariant
                properties_exist(old(self)@, patches@),
                remaining@.submap_of(patches@),
                self@ == class_overridden(old(self)@, patches@.remove_keys(remaining@.dom())),
            ensures
                self@ == class_overridden(old(self)@, patches@),
            decreases remaining.keys().len(),
        {
            let ghost done = patches@.remove_keys(remaining@.dom());
            let ghost before = self@;
            match remaining.pop() {
                None => {
                    proof {
                        assert(patches@.remove_keys(remaining@.dom()) =~= patches@);
                    }
                    break ;
                },
                Some((name, patch)) => {
                    proof {
                        assert(patches@.contains_key(name@));
                        assert(patches@.remove_keys(remaining@.dom()) =~= done.insert(
                            name@,
                            patch,
                        ));
                        lemma_override_one_more(old(self)@, done, name@, patch);
                        assert(before.properties.contains_key(name@));
                    }
                    if let Some(descriptor) = self.properties.get_mut(name.as_str()) {
                        if let Some(value_type) = patch.value_type {
                            descriptor.value_type = Some(value_type);
                        }
                        if let Some(scriptability) = patch.scriptability {
                            descriptor.scriptability = scriptability;
                        }
                    }
                    if let Some(default_value) = patch.default_value {
                        self.default_properties.insert(name, default_value);
                    }
                    proof {
                        assert(self@.properties =~= property_patched(
                            before,
                            name@,
                            patch,
                        ).properties);
                    }
                },
            }
        }
    }

    /// Whether the class is in order when filed under `key`.
    pub fn is_valid(&self, key: &str) -> (ok: bool)
        ensures
            ok == class_valid(key@, self@),
    {
        if !str_eq(self.name.as_str(), key) {
            return false;
        }
        let count = self.properties.len();
        let mut i: usize = 0;
        while i < count
            invariant
                i <= count,
                count == self.properties.keys().len(),
                self.properties.keys().to_set() == self.properties@.dom(),
                forall|j: int|
                    0 <= j < i ==> property_valid(
                        #[trigger] self.properties.keys()[j],
                        self.properties@[self.properties.keys()[j]],
                    ),
            decreases count - i,
        {
            let name = self.properties.key_at(i);
            let property = self.properties.value_at(i);
            if !(property.name == *name) || property.value_type.is_none() {
                proof {
                    let p = self.properties.keys()[i as int];
                    assert(self@.properties.contains_key(p));
                    assert(!property_valid(p, self@.properties[p]));
                }
                return false;
            }
            i += 1;
        }
        proof {
            lemma_holds_of_every_key(
                &self.properties,
                |p: Seq<char>| property_valid(p, self@.properties[p]),
            );
        }
        let count = self.default_properties.len();
        let mut i: usize = 0;
        while i < count
            invariant
                i <= count,
                count == self.default_properties.keys().len(),
                self.default_properties.keys().to_set() == self.default_properties@.dom(),
                forall|j: int|
                    0 <= j < i ==> default_valid(
                        self@,
                        #[trigger] self.default_properties.keys()[j],
                    ),
            decreases count - i,
        {
            let name = self.default_properties.key_at(i);
            let value = self.default_properties.value_at(i);
            let matches = match self.properties.get(name.as_str()) {
                Some(property) => match property.value_type {
                    Some(declared) => declared == value.ty(),
                    None => false,
                },
                None => false,
            };
            if !matches {
                proof {
                    let p = self.default_properties.keys()[i as int];
                    assert(self@.default_properties.contains_key(p));
                    assert(!default_valid(self@, p));
                }
                return false;
            }
            i += 1;
        }
        proof {
            lemma_holds_of_every_key(
                &self.default_properties,
                |p: Seq<char>| default_valid(self@, p),
            );
        }
        true
    }
}

impl ReflectionDatabase {
    /// The database without classes, for the host version 0.0.0.0.
    pub fn new() -> (database: ReflectionDatabase)
        ensures
            database@ == (ReflectionDatabaseView {
                studio_version: [0u32, 0u32, 0u32, 0u32],
                classes: Map::empty(),
            }),
    {
        let database = ReflectionDatabase {
            studio_version: [0, 0, 0, 0],
            classes: StringMap::new(),
        };
        proof {
            assert(database@.studio_version@ =~= seq![0u32, 0u32, 0u32, 0u32]);
        }
        database
    }

    /// Fills the database from the dump, from scratch: the classes are those
    /// of the dump and no others, each with its properties and their value
    /// types, every property out of the reach of scripts and without a
    /// default value; such a database keeps every structural invariant. A
    /// dump that is not well-formed is refused as a whole, and the database
    /// stays as it was.
    pub fn populate_from_dump(&mut self, dump: &Dump) -> (outcome: Result<(), PipelineError>)
        ensures
            outcome is Ok <==> dump_complete(*dump),
            outcome is Ok ==> final(self)@ == (ReflectionDatabaseView {
                studio_version: old(self)@.studio_version,
                classes: baseline_classes(dump.classes@),
            }),
            outcome is Ok ==> valid(final(self)@),
            outcome is Err ==> outcome->Err_0 == PipelineError::SourceMalformed && final(self)@
                == old(self)@,
    {
        let mut classes: StringMap<ClassDescriptor> = StringMap::new();
        let count = dump.classes.len();
        let mut i: usize = 0;
        while i < count
            invariant
                i <= count,
                count == dump.classes@.len(),
                classes@ == baseline_classes(dump.classes@.take(i as int)),
                forall|j: int| 0 <= j < i ==> class_complete(#[trigger] dump.classes@[j]),
            decreases count - i,
        {
            let class = match ClassDescriptor::from_dump(&dump.classes[i]) {
                Some(class) => class,
                None => {
                    return Err(PipelineError::SourceMalformed);
                },
            };
            proof {
                let next = dump.classes@.take(i as int + 1);
                assert(next.drop_last() =~= dump.classes@.take(i as int));
                assert(next.last() == dump.classes@[i as int]);
            }
            classes.insert(class.name.clone(), class);
            i += 1;
        }
        proof {
            assert(dump.classes@.take(count as int) =~= dump.classes@);
            lemma_baseline_is_valid(dump.classes@, self.studio_version);
        }
        self.classes = classes;
        Ok(())
    }

    /// A class, or a property of a class, that the corrections name and the
    /// database does not have, as the error that reports it; `None` where
    /// every target exists.
    pub fn missing_target(&self, patches: &PropertyPatches) -> (missing: Option<PipelineError>)
        ensures
            missing is None <==> targets_exist(self@, patches@),
            missing is Some ==> {
                &&& missing->0 matches PipelineError::PatchTargetMissing {
                    class_name,
                    property_name,
                }
                &&& patches@.contains_key(class_name@)
                &&& match property_name {
                    None => !self@.classes.contains_key(class_name@),
                    Some(property_name) => {
                        &&& self@.classes.contains_key(class_name@)
                        &&& patches@[class_name@].contains_key(property_name@)
                        &&& !self@.classes[class_name@].properties.contains_key(property_name@)
                    },
                }
            },
    {
        let count = patches.classes.len();
        let mut i: usize = 0;
        while i < count
            invariant
                i <= count,
                count == patches.classes.keys().len(),
                patches.classes.keys().to_set() == patches@.dom(),
                forall|j: int|
                    0 <= j < i ==> {
                        let c = #[trigger] patches.classes.keys()[j];
                        self@.classes.contains_key(c) && properties_exist(
                            self@.classes[c],
                            patches@[c],
                        )
                    },
            decreases count - i,
        {
            let class_name = patches.classes.key_at(i);
            let class_patches = patches.classes.value_at(i);
            match self.classes.get(class_name.as_str()) {
                None => {
                    return Some(
                        PipelineError::PatchTargetMissing {
                            class_name: class_name.clone(),
                            property_name: None,
                        },
                    );
                },
                Some(class) => {
                    if let Some(property_name) = class.missing_property(class_patches) {
                        return Some(
                            PipelineError::PatchTargetMissing {
                                class_name: class_name.clone(),
                                property_name: Some(property_name),
                            },
                        );
                    }
                },
            }
            i += 1;
        }
        proof {
            lemma_holds_of_every_key(
                &patches.classes,
                |c: Seq<char>|
                    self@.classes.contains_key(c) && properties_exist(
                        self@.classes[c],
                        patches@[c],
                    ),
            );
        }
        None
    }

    /// Applies the hand-written corrections over the baseline. Each field
    /// that a correction holds overwrites the field of the property it
    /// names; a default value becomes the default value of that property.
    /// Corrections create nothing: where one names a class or a property
    /// that the database does not have, none is applied, the database stays
    /// as it was, and the error names such a target.
    pub fn populate_from_patches(&mut self, patches: PropertyPatches) -> (outcome: Result<
        (),
        PipelineError,
    >)
        ensures
            outcome is Ok <==> targets_exist(old(self)@, patches@),
            outcome is Ok ==> final(self)@ == database_overridden(old(self)@, patches@),
            outcome is Err ==> {
                &&& final(self)@ == old(self)@
                &&& outcome->Err_0 matches PipelineError::PatchTargetMissing {
                    class_name,
                    property_name,
                }
                &&& patches@.contains_key(class_name@)
                &&& match property_name {
                    None => !old(self)@.classes.contains_key(class_name@),
                    Some(property_name) => {
                        &&& old(self)@.classes.contains_key(class_name@)
                        &&& patches@[class_name@].contains_key(property_name@)
                        &&& !old(self)@.classes[class_name@].properties.contains_key(
                            property_name@,
                        )
                    },
                }
            },
    {
        if let Some(error) = self.missing_target(&patches) {
            return Err(error);
        }
        let mut remaining = patches.classes;
        proof {
            assert(patches@.remove_keys(remaining@.dom()) =~= Map::<
                Seq<char>,
                Map<Seq<char>, PropertyPatch>,
            >::empty());
            assert(self@.classes =~= database_overridden(old(self)@, Map::empty()).classes);
        }
        loop
            invariant
                targets_exist(old(self)@, patches@),
                remaining@.submap_of(patches@),
                self@ == database_overridden(old(self)@, patches@.remove_keys(remaining@.dom())),
            ensures
                self@ == database_overridden(old(self)@, patches@),
            decreases remaining.keys().len(),
        {
            let ghost done = patches@.remove_keys(remaining@.dom());
            match remaining.pop() {
                None => {
                    proof {
                        assert(patches@.remove_keys(remaining@.dom()) =~= patches@);
                    }
                    break ;
                },
                Some((class_name, class_patches)) => {
                    proof {
                        assert(patches@.contains_key(class_name@));
                        assert(patches@.remove_keys(remaining@.dom()) =~= done.insert(
                            class_name@,
                            class_patches@,
                        ));
                        lemma_override_one_more_class(
                            old(self)@,
                            done,
                            class_name@,
                            class_patches@,
                        );
                    }
                    if let Some(class) = self.classes.get_mut(class_name.as_str()) {
                        class.apply_patches(class_patches);
                    }
                },
            }
        }
        Ok(())
    }

    /// Checks the structural invariants of the database.
    pub fn validate(&self) -> (outcome: Result<(), PipelineError>)
        ensures
            outcome is Ok <==> valid(self@),
            outcome is Err ==> outcome->Err_0 == PipelineError::ValidationFailed,
    {
        let count = self.classes.len();
        let mut i: usize = 0;
        while i < count
            invariant
                i <= count,
                count == self.classes.keys().len(),
                self.classes.keys().to_set() == self.classes@.dom(),
                forall|j: int|
                    0 <= j < i ==> class_valid(
                        #[trigger] self.classes.keys()[j],
                        self.classes@[self.classes.keys()[j]],
                    ),
            decreases count - i,
        {
            let name = self.classes.key_at(i);
            let class = self.classes.value_at(i);
            if !class.is_valid(name.as_str()) {
                proof {
                    let c = self.classes.keys()[i as int];
                    assert(self@.classes.contains_key(c));
                    assert(!class_valid(c, self@.classes[c]));
                }
                return Err(PipelineError::ValidationFailed);
            }
            i += 1;
        }
        proof {
            lemma_holds_of_every_key(
                &self.classes,
                |c: Seq<char>| class_valid(c, self@.classes[c]),
            );
        }
        Ok(())
    }
}

} // verus!
