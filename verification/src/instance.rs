//! What loading a block decides before any engine is involved: whether this host implements
//! the capabilities it needs, and what the instance will be told about itself.
//!
//! Both are decided from the block's validated manifest, taken here as the plain names it
//! carries.
use vstd::prelude::*;
use crate::text::copy_all;

verus! {

/// The start of the refusal a block needing capabilities gets; the capabilities follow it.
pub const CAPABILITIES_REFUSED: &'static str =
    "the block needs capabilities this host does not implement yet: ";

/// `items` on one line, `, ` between them.
pub open spec fn comma_list(items: Seq<String>) -> Seq<char>
    decreases items.len(),
{
    if items.len() == 0 {
        Seq::empty()
    } else if items.len() == 1 {
        items[0]@
    } else {
        comma_list(items.drop_last()) + seq![',', ' '] + items.last()@
    }
}

/// Refuses a block needing any capability, since this host implements none beyond `eio:core`.
///
/// A block declaring none loads; one declaring some is refused by name, every capability it
/// declares listed in order — more useful than the linker's answer, which would name a missing
/// symbol rather than the capability that asked for it.
pub fn refuse_unimplemented_capabilities(capabilities: &Vec<String>) -> (verdict: Result<(), String>)
    ensures
        verdict is Ok <==> capabilities@.len() == 0,
        verdict matches Err(message) ==> message@ == CAPABILITIES_REFUSED@ + comma_list(capabilities@),
{
    if capabilities.len() == 0 {
        return Ok(());
    }
    let mut message = String::from_str(CAPABILITIES_REFUSED);
    let mut i: usize = 0;
    while i < capabilities.len()
        invariant
            i <= capabilities@.len(),
            message@ == CAPABILITIES_REFUSED@ + comma_list(capabilities@.subrange(0, i as int)),
        decreases capabilities@.len() - i,
    {
        if i > 0 {
            message.push(',');
            message.push(' ');
        }
        message.append(capabilities[i].as_str());
        proof {
            let next = capabilities@.subrange(0, i + 1);
            assert(next.drop_last() =~= capabilities@.subrange(0, i as int));
            assert(message@ =~= CAPABILITIES_REFUSED@ + comma_list(next));
        }
        i = i + 1;
    }
    assert(capabilities@.subrange(0, capabilities@.len() as int) =~= capabilities@);
    Err(message)
}

/// What an instance is told about itself: who it is, which block it runs, and the names of
/// its ports and properties, in the manifest's order.
#[derive(Debug, Clone, PartialEq, Eq)]
pub struct Descriptor {
    /// The instance's id: the one its configuration gave, else the block's name.
    pub instance_id: String,
    /// The block's name.
    pub block: String,
    /// Its input ports, by name; a port's index is its place here.
    pub inputs: Vec<String>,
    /// Its output ports, by name; a port's index is its place here.
    pub outputs: Vec<String>,
    /// Its properties, by name.
    pub props: Vec<String>,
}

/// The descriptor for an instance `instance` (when its configuration names one) of the block
/// `block`, whose manifest declares `inputs`, `outputs` and `props`.
pub fn descriptor_for(
    instance: Option<&str>,
    block: &str,
    inputs: &Vec<String>,
    outputs: &Vec<String>,
    props: &Vec<String>,
) -> (descriptor: Descriptor)
    ensures
        descriptor.instance_id@ == match instance {
            Some(id) => id@,
            None => block@,
        },
        descriptor.block@ == block@,
        descriptor.inputs@ == inputs@,
        descriptor.outputs@ == outputs@,
        descriptor.props@ == props@,
{
    let instance_id = match instance {
        Some(id) => String::from_str(id),
        None => String::from_str(block),
    };
    Descriptor {
        instance_id,
        block: String::from_str(block),
        inputs: copy_all(inputs),
        outputs: copy_all(outputs),
        props: copy_all(props),
    }
}

} // verus!
