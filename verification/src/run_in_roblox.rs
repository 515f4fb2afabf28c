//! The start of the probe inside the live host.

use rbx_dom_weak::RbxTree;
use vstd::prelude::*;
use vstd::string::StringExecFns;

use crate::plugin::{
    instance_properties, text_properties, tree_has_root, tree_root, tree_root_children,
    tree_root_id, InstanceView, PropertyValue,
};

verus! {

/// What the script that starts the probe holds: a script of the name
/// `generate_reflection main` with the given source text.
pub open spec fn plugin_main_view(source: Seq<char>) -> InstanceView {
    InstanceView {
        name: "generate_reflection main"@,
        class_name: "Script"@,
        properties: Map::<Seq<char>, PropertyValue>::empty().insert(
            "Source"@,
            PropertyValue::Text(source),
        ),
    }
}

/// Adds the script that starts the probe as the last child of the root of
/// the plugin, which the tree must hold.
pub fn inject_plugin_main(plugin: &mut RbxTree, source: String)
    requires
        tree_has_root(*old(plugin)),
    ensures
        tree_has_root(*final(plugin)),
        tree_root_id(*final(plugin)) == tree_root_id(*old(plugin)),
        tree_root(*final(plugin)) == tree_root(*old(plugin)),
        tree_root_children(*final(plugin)) == tree_root_children(*old(plugin)).push(
            plugin_main_view(source@),
        ),
{
    let mut properties: Vec<(String, String)> = Vec::new();
    properties.push((String::from_str("Source"), source));
    proof {
        reveal_with_fuel(text_properties, 2);
        assert(properties@.drop_last() =~= Seq::<(String, String)>::empty());
    }
    let entry = instance_properties(
        String::from_str("generate_reflection main"),
        String::from_str("Script"),
        properties,
    );
    let root_id = plugin.get_root_id();
    plugin.insert_instance(entry, root_id);
}

} // verus!
