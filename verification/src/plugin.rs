//! The plugin that runs the probe inside the live host: a tree of instances
//! that holds the probe's modules.

use rbx_dom_weak::{RbxId, RbxInstanceProperties, RbxTree, RbxValue};
use vstd::prelude::*;
use vstd::string::StringExecFns;

use crate::database::ReflectionDatabase;
use crate::run_in_roblox::{inject_plugin_main, plugin_main_view};

verus! {

/// A tree of instances, `rbx_dom_weak::RbxTree`. Nothing is known of its
/// inside but what the names below say.
#[verifier::external_type_specification]
#[verifier::external_body]
pub struct ExRbxTree(rbx_dom_weak::RbxTree);

/// The id of an instance in a tree, `rbx_dom_weak::RbxId`. It is carried
/// from the tree that gives it to the call that takes it.
#[verifier::external_type_specification]
#[verifier::external_body]
pub struct ExRbxId(rbx_dom_weak::RbxId);

/// The description of an instance that is not in a tree,
/// `rbx_dom_weak::RbxInstanceProperties`.
#[verifier::external_type_specification]
#[verifier::external_body]
pub struct ExRbxInstanceProperties(rbx_dom_weak::RbxInstanceProperties);

/// What a property of an instance holds: a text, or a value of another
/// kind, of which nothing more is said.
pub enum PropertyValue {
    Text(Seq<char>),
    Other,
}

/// What an instance is made of: its name, the name of its class, and what
/// each of its properties holds, by the property's name.
#[verifier::ext_equal]
pub struct InstanceView {
    pub name: Seq<char>,
    pub class_name: Seq<char>,
    pub properties: Map<Seq<char>, PropertyValue>,
}

/// What a description of an instance holds: its two names, and for each
/// entry of its map of properties the text of an `RbxValue::String`, or
/// `Other` for a value of any other kind.
pub uninterp spec fn instance_view(properties: RbxInstanceProperties) -> InstanceView;

/// Whether the tree holds the instance that its root id names.
pub uninterp spec fn tree_has_root(tree: RbxTree) -> bool;

/// What the root instance of a tree holds.
pub uninterp spec fn tree_root(tree: RbxTree) -> InstanceView;

/// What the children of the root instance hold, child by child in their
/// order under the root.
pub uninterp spec fn tree_root_children(tree: RbxTree) -> Seq<InstanceView>;

/// The id of the root instance of a tree.
pub uninterp spec fn tree_root_id(tree: RbxTree) -> RbxId;

/// The properties that a list of pairs of a name and a text stands for:
/// each name holds its text. Of two pairs of one name the later one stays.
pub open spec fn text_properties(pairs: Seq<(String, String)>) -> Map<Seq<char>, PropertyValue>
    decreases pairs.len(),
{
    if pairs.len() == 0 {
        Map::empty()
    } else {
        text_properties(pairs.drop_last()).insert(
            pairs.last().0@,
            PropertyValue::Text(pairs.last().1@),
        )
    }
}

/// Builds the description of an instance whose properties all hold a text.
///
/// Fills the three public fields of `RbxInstanceProperties`: the name, the
/// class name, and the map of properties, which gets one
/// `RbxValue::String` for each pair and nothing else, under the pair's name
/// and in the order of the pairs, so that a later pair replaces an earlier
/// one of its name.
#[verifier::external_body]
pub(crate) fn instance_properties(
    name: String,
    class_name: String,
    properties: Vec<(String, String)>,
) -> (described: RbxInstanceProperties)
    ensures
        instance_view(described) == (InstanceView {
            name: name@,
            class_name: class_name@,
            properties: text_properties(properties@),
        }),
{
    RbxInstanceProperties {
        name,
        class_name,
        properties: properties.into_iter().map(
            |(key, value)| (key, RbxValue::String { value }),
        ).collect(),
    }
}

/// `RbxTree::new` makes the tree whose root holds what `root_properties`
/// describes and has no children; the tree holds that root under its root
/// id.
pub assume_specification[ RbxTree::new ](root_properties: RbxInstanceProperties) -> (tree: RbxTree)
    ensures
        tree_has_root(tree),
        tree_root(tree) == instance_view(root_properties),
        tree_root_children(tree) == Seq::<InstanceView>::empty(),
;

/// `RbxTree::get_root_id` returns the id of the root instance.
pub assume_specification[ RbxTree::get_root_id ](tree: &RbxTree) -> (id: RbxId)
    ensures
        id == tree_root_id(*tree),
;

/// `RbxTree::insert_instance` makes a new instance from `properties` and
/// appends it to the children of the instance `parent_id`; it panics where
/// the tree has no such instance. A tree that was read from a document may
/// lack even the instance that its root id names, so the contract asks for
/// a tree that holds its root and for the root as the parent. The new
/// instance then becomes the last child of the root, and the root and its
/// other children stay as they are. (The new instance gets a random id of
/// 128 bits; as the tree itself does, this takes the id to be new to the
/// tree.)
pub assume_specification[ RbxTree::insert_instance ](
    tree: &mut RbxTree,
    properties: RbxInstanceProperties,
    parent_id: RbxId,
) -> (id: RbxId)
    requires
        tree_has_root(*old(tree)),
        parent_id == tree_root_id(*old(tree)),
    ensures
        tree_has_root(*final(tree)),
        tree_root_id(*final(tree)) == tree_root_id(*old(tree)),
        tree_root(*final(tree)) == tree_root(*old(tree)),
        tree_root_children(*final(tree)) == tree_root_children(*old(tree)).push(
            instance_view(properties),
        ),
;

/// The source texts of the modules of the probe.
#[derive(Debug, Clone, PartialEq, Eq)]
pub struct PluginSources {
    /// The probe itself.
    pub main: String,
    /// The script that starts the probe once the host has loaded the
    /// plugin.
    pub plugin_main: String,
    /// The base64 codec that the probe uses.
    pub base64: String,
    /// The encoder of values that the probe uses.
    pub encoded_value: String,
}

/// What a module script of the given name and source text holds.
pub open spec fn module_view(name: Seq<char>, source: Seq<char>) -> InstanceView {
    InstanceView {
        name,
        class_name: "ModuleScript"@,
        properties: Map::<Seq<char>, PropertyValue>::empty().insert(
            "Source"@,
            PropertyValue::Text(source),
        ),
    }
}

/// What the root of the plugin holds: a folder without properties.
pub open spec fn plugin_root_view() -> InstanceView {
    InstanceView {
        name: "generate_reflection plugin"@,
        class_name: "Folder"@,
        properties: Map::empty(),
    }
}

/// Describes a module script with the given name and source text.
pub fn create_module(name: &str, source: String) -> (module: RbxInstanceProperties)
    ensures
        instance_view(module) == module_view(name@, source@),
{
    let mut properties: Vec<(String, String)> = Vec::new();
    properties.push((String::from_str("Source"), source));
    proof {
        reveal_with_fuel(text_properties, 2);
        assert(properties@.drop_last() =~= Seq::<(String, String)>::empty());
        assert(text_properties(properties@) == Map::<Seq<char>, PropertyValue>::empty().insert(
            "Source"@,
            PropertyValue::Text(source@),
        ));
    }
    instance_properties(String::from_str(name), String::from_str("ModuleScript"), properties)
}

/// Adds the module `ReflectionClasses` as the last child of the root of the
/// plugin, which the tree must hold. The module holds an empty source text,
/// whatever the database holds.
pub fn inject_reflection_classes(plugin: &mut RbxTree, database: &ReflectionDatabase)
    requires
        tree_has_root(*old(plugin)),
    ensures
        tree_has_root(*final(plugin)),
        tree_root_id(*final(plugin)) == tree_root_id(*old(plugin)),
        tree_root(*final(plugin)) == tree_root(*old(plugin)),
        tree_root_children(*final(plugin)) == tree_root_children(*old(plugin)).push(
            module_view("ReflectionClasses"@, Seq::empty()),
        ),
{
    let root_id = plugin.get_root_id();
    let classes_source = String::new();
    let module = create_module("ReflectionClasses", classes_source);
    plugin.insert_instance(module, root_id);
}

/// Adds the two modules that the probe depends on as the last children of
/// the root of the plugin, which the tree must hold: `base64` first,
/// `EncodedValue` second.
pub fn inject_dependencies(plugin: &mut RbxTree, base64: String, encoded_value: String)
    requires
        tree_has_root(*old(plugin)),
    ensures
        tree_has_root(*final(plugin)),
        tree_root_id(*final(plugin)) == tree_root_id(*old(plugin)),
        tree_root(*final(plugin)) == tree_root(*old(plugin)),
        tree_root_children(*final(plugin)) == tree_root_children(*old(plugin)).push(
            module_view("base64"@, base64@),
        ).push(module_view("EncodedValue"@, encoded_value@)),
{
    let root_id = plugin.get_root_id();
    plugin.insert_instance(create_module("base64", base64), root_id);
    plugin.insert_instance(create_module("EncodedValue", encoded_value), root_id);
}

/// Builds the plugin: a folder that holds, in this order, the module
/// `Main`, the script that starts the probe, and the modules
/// `ReflectionClasses`, `base64` and `EncodedValue`.
pub fn create_plugin(database: &ReflectionDatabase, sources: PluginSources) -> (plugin: RbxTree)
    ensures
        tree_has_root(plugin),
        tree_root(plugin) == plugin_root_view(),
        tree_root_children(plugin) == seq![
            module_view("Main"@, sources.main@),
            plugin_main_view(sources.plugin_main@),
            module_view("ReflectionClasses"@, Seq::empty()),
            module_view("base64"@, sources.base64@),
            module_view("EncodedValue"@, sources.encoded_value@),
        ],
{
    let mut plugin = RbxTree::new(
        instance_properties(
            String::from_str("generate_reflection plugin"),
            String::from_str("Folder"),
            Vec::new(),
        ),
    );
    let root_id = plugin.get_root_id();
    let main = create_module("Main", sources.main);
    plugin.insert_instance(main, root_id);
    inject_plugin_main(&mut plugin, sources.plugin_main);
    inject_reflection_classes(&mut plugin, database);
    inject_dependencies(&mut plugin, sources.base64, sources.encoded_value);
    plugin
}

} // verus!
