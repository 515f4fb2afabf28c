//! The corrections that a probe inside the live host reports, and their
//! merge into the database.

use vstd::prelude::*;

use crate::database::{
    ClassDescriptor, ClassDescriptorView, PropertyDescriptorView, ReflectionDatabase,
    ReflectionDatabaseView, Scriptability,
};
use crate::error::PipelineError;
use crate::string_map::StringMap;
use crate::variant::Variant;

verus! {

/// What the live host corrects of one property. Each half is there or not,
/// independently of the other.
#[derive(Debug, Clone, PartialEq)]
pub struct DescriptorPatch {
    /// The default value of the property, where the host reports one.
    pub default_value: Option<Variant>,
    /// The scriptability of the property, where the host reports one.
    pub scriptability: Option<Scriptability>,
}

impl View for DescriptorPatch {
    type V = DescriptorPatch;

    open spec fn view(&self) -> DescriptorPatch {
        *self
    }
}

/// One message of the probe.
#[derive(Debug, Clone)]
pub enum PluginMessage {
    /// The version of the host.
    Version { version: [u32; 4] },
    /// The corrections to the properties of one class, by the properties'
    /// names.
    PatchDescriptors { class_name: String, descriptors: StringMap<DescriptorPatch> },
}

/// The mathematical content of a `PluginMessage`.
#[verifier::ext_equal]
pub enum PluginMessageView {
    Version { version: [u32; 4] },
    PatchDescriptors { class_name: Seq<char>, descriptors: Map<Seq<char>, DescriptorPatch> },
}

impl View for PluginMessage {
    type V = PluginMessageView;

    open spec fn view(&self) -> PluginMessageView {
        match self {
            PluginMessage::Version { version } => PluginMessageView::Version { version: *version },
            PluginMessage::PatchDescriptors { class_name, descriptors } => {
                PluginMessageView::PatchDescriptors {
                    class_name: class_name@,
                    descriptors: descriptors@,
                }
            },
        }
    }
}

/// One payload that the host sent, after the attempt to decode it.
#[derive(Debug, Clone)]
pub enum Received {
    /// The message that the payload holds.
    Message(PluginMessage),
    /// The payload as it came, where it holds no message.
    Malformed(Vec<u8>),
}

/// The mathematical content of a `Received`.
#[verifier::ext_equal]
pub enum ReceivedView {
    Message(PluginMessageView),
    Malformed(Seq<u8>),
}

impl View for Received {
    type V = ReceivedView;

    open spec fn view(&self) -> ReceivedView {
        match self {
            Received::Message(message) => ReceivedView::Message(message@),
            Received::Malformed(payload) => ReceivedView::Malformed(payload@),
        }
    }
}

/// The mathematical contents of a sequence of payloads, in the same order.
pub open spec fn views(received: Seq<Received>) -> Seq<ReceivedView> {
    Seq::new(received.len(), |i: int| received[i]@)
}

/// The class after the correction of one property. A default value is
/// written whether or not the class has a property of that name; a
/// scriptability is written only to a property that the class has.
pub open spec fn descriptor_patched(
    class: ClassDescriptorView,
    name: Seq<char>,
    patch: DescriptorPatch,
) -> ClassDescriptorView {
    ClassDescriptorView {
        name: class.name,
        properties: if class.properties.contains_key(name) && patch.scriptability is Some {
            class.properties.insert(
                name,
                PropertyDescriptorView {
                    scriptability: patch.scriptability->0,
                    ..class.properties[name]
                },
            )
        } else {
            class.properties
        },
        default_properties: if patch.default_value is Some {
            class.default_properties.insert(name, patch.default_value->0)
        } else {
            class.default_properties
        },
    }
}

/// The class after the corrections of a whole message.
pub open spec fn class_patched(
    class: ClassDescriptorView,
    descriptors: Map<Seq<char>, DescriptorPatch>,
) -> ClassDescriptorView {
    ClassDescriptorView {
        name: class.name,
        properties: Map::new(
            |p: Seq<char>| class.properties.contains_key(p),
            |p: Seq<char>|
                if descriptors.contains_key(p) && descriptors[p].scriptability is Some {
                    PropertyDescriptorView {
                        scriptability: descriptors[p].scriptability->0,
                        ..class.properties[p]
                    }
                } else {
                    class.properties[p]
                },
        ),
        default_properties: Map::new(
            |p: Seq<char>|
                class.default_properties.contains_key(p) || (descriptors.contains_key(p)
                    && descriptors[p].default_value is Some),
            |p: Seq<char>|
                if descriptors.contains_key(p) && descriptors[p].default_value is Some {
                    descriptors[p].default_value->0
                } else {
                    class.default_properties[p]
                },
        ),
    }
}

/// The database after one message. A version replaces the version. The
/// corrections of a class that the database does not know change nothing.
pub open spec fn message_applied(
    database: ReflectionDatabaseView,
    message: PluginMessageView,
) -> ReflectionDatabaseView {
    match message {
        PluginMessageView::Version { version } => ReflectionDatabaseView {
            studio_version: version,
            classes: database.classes,
        },
        PluginMessageView::PatchDescriptors { class_name, descriptors } => {
            if database.classes.contains_key(class_name) {
                ReflectionDatabaseView {
                    studio_version: database.studio_version,
                    classes: database.classes.insert(
                        class_name,
                        class_patched(database.classes[class_name], descriptors),
                    ),
                }
            } else {
                database
            }
        },
    }
}

/// The database after the payloads of a run, taken in the order of their
/// arrival: each message is applied to what the messages before it left,
/// and nothing is applied from the first malformed payload on.
pub open spec fn processed(
    database: ReflectionDatabaseView,
    received: Seq<ReceivedView>,
) -> ReflectionDatabaseView
    decreases received.len(),
{
    if received.len() == 0 {
        database
    } else {
        match received[0] {
            ReceivedView::Malformed(_) => database,
            ReceivedView::Message(message) => processed(
                message_applied(database, message),
                received.drop_first(),
            ),
        }
    }
}

/// Corrections for a class that the database does not know leave the
/// database exactly as it is.
pub proof fn lemma_unknown_class_is_ignored(
    database: ReflectionDatabaseView,
    class_name: Seq<char>,
    descriptors: Map<Seq<char>, DescriptorPatch>,
)
    requires
        !database.classes.contains_key(class_name),
    ensures
        message_applied(
            database,
            PluginMessageView::PatchDescriptors { class_name, descriptors },
        ) == database,
{
}

/// A message never adds a property to a class nor takes one away, whatever
/// it holds.
pub proof fn lemma_patch_keeps_properties(
    class: ClassDescriptorView,
    descriptors: Map<Seq<char>, DescriptorPatch>,
)
    ensures
        class_patched(class, descriptors).name == class.name,
        class_patched(class, descriptors).properties.dom() == class.properties.dom(),
{
    assert(class_patched(class, descriptors).properties.dom() =~= class.properties.dom());
}

/// A message deletes nothing: the database has the same classes after it,
/// each class the same properties, and each class still a default value
/// wherever it had one.
pub proof fn lemma_message_deletes_nothing(
    database: ReflectionDatabaseView,
    message: PluginMessageView,
)
    ensures
        message_applied(database, message).classes.dom() == database.classes.dom(),
        forall|c: Seq<char>| #[trigger]
            database.classes.contains_key(c) ==> {
                &&& message_applied(database, message).classes[c].name == database.classes[c].name
                &&& message_applied(database, message).classes[c].properties.dom()
                    == database.classes[c].properties.dom()
                &&& database.classes[c].default_properties.dom().subset_of(
                    message_applied(database, message).classes[c].default_properties.dom(),
                )
            },
{
    let after = message_applied(database, message);
    assert(after.classes.dom() =~= database.classes.dom());
    assert forall|c: Seq<char>| #[trigger] database.classes.contains_key(c) implies {
        &&& after.classes[c].name == database.classes[c].name
        &&& after.classes[c].properties.dom() == database.classes[c].properties.dom()
        &&& database.classes[c].default_properties.dom().subset_of(
            after.classes[c].default_properties.dom(),
        )
    } by {
        assert(after.classes[c].properties.dom() =~= database.classes[c].properties.dom());
    }
}

/// A correction that holds a scriptability and no default value, for a
/// property that the class does not have, is dropped: the class gets no
/// such property, and what it holds as the default value of that name, or
/// that it holds none, stays. Where the message holds nothing else, the
/// class is exactly as before.
pub proof fn lemma_scriptability_of_unknown_property_is_dropped(
    class: ClassDescriptorView,
    descriptors: Map<Seq<char>, DescriptorPatch>,
    name: Seq<char>,
)
    requires
        descriptors.contains_key(name),
        descriptors[name].default_value is None,
        !class.properties.contains_key(name),
    ensures
        !class_patched(class, descriptors).properties.contains_key(name),
        class_patched(class, descriptors).default_properties.contains_key(name)
            == class.default_properties.contains_key(name),
        class.default_properties.contains_key(name) ==> class_patched(
            class,
            descriptors,
        ).default_properties[name] == class.default_properties[name],
        descriptors.dom() == set![name] ==> class_patched(class, descriptors) == class,
{
    if descriptors.dom() == set![name] {
        let patched = class_patched(class, descriptors);
        assert(patched.properties =~= class.properties);
        assert(patched.default_properties =~= class.default_properties);
    }
}

/// The two halves of a correction are independent. A default value is
/// written under the property's name whether or not the class has the
/// property; a scriptability reaches a property that the class has and
/// leaves the rest of its descriptor alone.
pub proof fn lemma_halves_are_independent(
    class: ClassDescriptorView,
    descriptors: Map<Seq<char>, DescriptorPatch>,
    name: Seq<char>,
)
    requires
        descriptors.contains_key(name),
    ensures
        descriptors[name].default_value is Some ==> {
            &&& class_patched(class, descriptors).default_properties.contains_key(name)
            &&& class_patched(class, descriptors).default_properties[name]
                == descriptors[name].default_value->0
        },
        class.properties.contains_key(name) ==> class_patched(class, descriptors).properties[name]
            == (PropertyDescriptorView {
            scriptability: if descriptors[name].scriptability is Some {
                descriptors[name].scriptability->0
            } else {
                class.properties[name].scriptability
            },
            ..class.properties[name]
        }),
{
}

/// A malformed payload ends the run: whatever follows it, nothing of that is
/// applied, and the database is what the payloads before it made of it.
pub proof fn lemma_nothing_applied_after_malformed(
    database: ReflectionDatabaseView,
    before: Seq<ReceivedView>,
    payload: Seq<u8>,
    after: Seq<ReceivedView>,
)
    ensures
        processed(database, before + seq![ReceivedView::Malformed(payload)] + after) == processed(
            database,
            before,
        ),
    decreases before.len(),
{
    let whole = before + seq![ReceivedView::Malformed(payload)] + after;
    if before.len() == 0 {
        assert(whole[0] == ReceivedView::Malformed(payload));
    } else {
        assert(whole[0] == before[0]);
        match before[0] {
            ReceivedView::Malformed(_) => {},
            ReceivedView::Message(message) => {
                assert(whole.drop_first() =~= before.drop_first() + seq![
                    ReceivedView::Malformed(payload),
                ] + after);
                lemma_nothing_applied_after_malformed(
                    message_applied(database, message),
                    before.drop_first(),
                    payload,
                    after,
                );
            },
        }
    }
}

/// A run without a malformed payload applies every message: the run of a
/// sequence followed by one more message is the run of the sequence,
/// followed by that message.
pub proof fn lemma_processed_applies_in_order(
    database: ReflectionDatabaseView,
    before: Seq<ReceivedView>,
    message: PluginMessageView,
)
    requires
        forall|i: int| 0 <= i < before.len() ==> before[i] is Message,
    ensures
        processed(database, before.push(ReceivedView::Message(message))) == message_applied(
            processed(database, before),
            message,
        ),
    decreases before.len(),
{
    let whole = before.push(ReceivedView::Message(message));
    if before.len() == 0 {
        assert(whole[0] == ReceivedView::Message(message));
        assert(whole.drop_first().len() == 0);
        assert(processed(message_applied(database, message), whole.drop_first())
            == message_applied(database, message));
    } else {
        let first = before[0]->Message_0;
        assert(before[0] is Message);
        assert(whole[0] == before[0]);
        assert(whole.drop_first() =~= before.drop_first().push(ReceivedView::Message(message)));
        assert forall|i: int|
            0 <= i < before.drop_first().len() implies before.drop_first()[i] is Message by {
            assert(before.drop_first()[i] == before[i + 1]);
        }
        lemma_processed_applies_in_order(
            message_applied(database, first),
            before.drop_first(),
            message,
        );
    }
}

/// Patching with one more property is patching with the others first and
/// with that property then.
proof fn lemma_patch_one_more(
    class: ClassDescriptorView,
    descriptors: Map<Seq<char>, DescriptorPatch>,
    name: Seq<char>,
    patch: DescriptorPatch,
)
    requires
        !descriptors.contains_key(name),
    ensures
        class_patched(class, descriptors.insert(name, patch)) == descriptor_patched(
            class_patched(class, descriptors),
            name,
            patch,
        ),
{
    let all = class_patched(class, descriptors.insert(name, patch));
    let stepwise = descriptor_patched(class_patched(class, descriptors), name, patch);
    assert(all.properties =~= stepwise.properties);
    assert(all.default_properties =~= stepwise.default_properties);
}

/// Merges the corrections of one message into the class.
pub fn apply_descriptors(class: &mut ClassDescriptor, descriptors: StringMap<DescriptorPatch>)
    ensures
        final(class)@ == class_patched(old(class)@, descriptors@),
{
    let mut remaining = descriptors;
    proof {
        assert(descriptors@.remove_keys(remaining@.dom()) =~= Map::<
            Seq<char>,
            DescriptorPatch,
        >::empty());
        assert(class@ =~= class_patched(old(class)@, Map::empty()));
    }
    loop
        invariant
            remaining@.submap_of(descriptors@),
            class@ == class_patched(old(class)@, descriptors@.remove_keys(remaining@.dom())),
        ensures
            class@ == class_patched(old(class)@, descriptors@),
        decreases remaining.keys().len(),
    {
        let ghost done = descriptors@.remove_keys(remaining@.dom());
        let ghost before = class@;
        match remaining.pop() {
            None => {
                proof {
                    assert(descriptors@.remove_keys(remaining@.dom()) =~= descriptors@);
                }
                break ;
            },
            Some((property_name, patch)) => {
                proof {
                    assert(descriptors@.remove_keys(remaining@.dom()) =~= done.insert(
                        property_name@,
                        patch,
                    ));
                    lemma_patch_one_more(old(class)@, done, property_name@, patch);
                }
                if let Some(default_value) = patch.default_value {
                    class.default_properties.insert(property_name.clone(), default_value);
                }
                if let Some(descriptor) = class.properties.get_mut(property_name.as_str()) {
                    if let Some(scriptability) = patch.scriptability {
                        descriptor.scriptability = scriptability;
                    }
                }
                proof {
                    assert(class@.properties =~= descriptor_patched(
                        before,
                        property_name@,
                        patch,
                    ).properties);
                }
            },
        }
    }
}

/// Merges one message into the database.
pub fn apply_message(database: &mut ReflectionDatabase, message: PluginMessage)
    ensures
        final(database)@ == message_applied(old(database)@, message@),
{
    match message {
        PluginMessage::Version { version } => {
            database.studio_version = version;
        },
        PluginMessage::PatchDescriptors { class_name, descriptors } => {
            if let Some(class) = database.classes.get_mut(class_name.as_str()) {
                apply_descriptors(class, descriptors);
            }
        },
    }
}

/// Merges what the live host sent into the database, message by message in
/// the order of arrival. The first payload that could not be decoded ends
/// the run: the messages before it have been merged, none after it is, and
/// the error names its position and hands back its bytes.
pub fn process_plugin_messages(
    database: &mut ReflectionDatabase,
    messages: Vec<Received>,
) -> (outcome: Result<(), PipelineError>)
    ensures
        final(database)@ == processed(old(database)@, views(messages@)),
        match outcome {
            Ok(()) => forall|i: int| 0 <= i < messages.len() ==> messages[i] is Message,
            Err(error) => {
                &&& error matches PipelineError::ProtocolViolation { index, payload }
                &&& index < messages.len()
                &&& messages[index as int] == Received::Malformed(payload)
                &&& forall|i: int| 0 <= i < index ==> messages[i] is Message
            },
        },
{
    let ghost all = views(messages@);
    let count = messages.len();
    let mut index: usize = 0;
    proof {
        assert(all.skip(0) =~= all);
    }
    for received in iter: messages.into_iter()
        invariant
            index == iter.index(),
            iter.seq() == messages@,
            count == messages@.len(),
            all == views(messages@),
            processed(old(database)@, all) == processed(database@, all.skip(index as int)),
            forall|i: int| 0 <= i < index ==> messages[i] is Message,
    {
        proof {
            assert(all.skip(index as int)[0] == received@);
            assert(all.skip(index as int).drop_first() =~= all.skip(index as int + 1));
        }
        match received {
            Received::Message(message) => {
                apply_message(database, message);
            },
            Received::Malformed(payload) => {
                return Err(PipelineError::ProtocolViolation { index, payload });
            },
        }
        index += 1;
    }
    Ok(())
}

} // verus!
