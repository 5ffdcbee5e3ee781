use eio_daemon::instance::{descriptor_for, refuse_unimplemented_capabilities};

#[test]
fn a_block_needing_no_capability_loads() {
    assert_eq!(refuse_unimplemented_capabilities(&vec![]), Ok(()));
}

#[test]
fn a_needed_capability_is_named_in_the_refusal() {
    let refusal = refuse_unimplemented_capabilities(&vec![String::from("gpio")]);
    assert_eq!(
        refusal,
        Err(String::from("the block needs capabilities this host does not implement yet: gpio"))
    );
}

#[test]
fn every_needed_capability_is_listed_in_order() {
    let refusal =
        refuse_unimplemented_capabilities(&vec![String::from("gpio"), String::from("http")]);
    assert_eq!(
        refusal,
        Err(String::from(
            "the block needs capabilities this host does not implement yet: gpio, http"
        ))
    );
}

#[test]
fn an_instance_without_an_id_is_named_after_its_block() {
    let inputs = vec![String::from("in")];
    let outputs = vec![String::from("out"), String::from("error")];
    let props = vec![String::from("factor")];
    let descriptor = descriptor_for(None, "scale", &inputs, &outputs, &props);
    assert_eq!(descriptor.instance_id, "scale");
    assert_eq!(descriptor.block, "scale");
    assert_eq!(descriptor.inputs, inputs);
    assert_eq!(descriptor.outputs, outputs);
    assert_eq!(descriptor.props, props);
}

#[test]
fn an_instance_with_an_id_keeps_it() {
    let descriptor = descriptor_for(Some("left"), "scale", &vec![], &vec![], &vec![]);
    assert_eq!(descriptor.instance_id, "left");
    assert_eq!(descriptor.block, "scale");
}
