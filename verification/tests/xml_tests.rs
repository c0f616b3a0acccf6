use odb::error::{OdbEntry, OdbError};
use odb::model::F32Bits;
use odb::xml::{
    bom_from_xml, netlist_from_xml, parse_bom_xml, parse_netlist_xml, parse_stackup_xml, stackup_from_xml, BomXml,
    ComponentXml, ConnectionXml, NetXml, NetlistXml, StackupLayerXml, StackupXml,
};

fn bits(v: f32) -> F32Bits {
    F32Bits(v.to_bits())
}

#[test]
fn stackup_layers_keep_order_and_values() {
    let doc = StackupXml {
        layer: vec![
            StackupLayerXml {
                name: Some("Layer1".to_string()),
                layer_type: Some("signal".to_string()),
                index: Some(0),
                thickness: Some(bits(0.035)),
            },
            StackupLayerXml {
                name: Some("Layer2".to_string()),
                layer_type: Some("plane".to_string()),
                index: Some(1),
                thickness: Some(bits(0.035)),
            },
        ],
    };
    let s = stackup_from_xml(&doc);
    assert_eq!(s.layers.len(), 2);
    assert_eq!(s.layers[0].name, "Layer1");
    assert_eq!(s.layers[0].layer_type, "signal");
    assert_eq!(s.layers[0].index, 0);
    assert_eq!(s.layers[1].name, "Layer2");
    assert_eq!(s.layers[1].layer_type, "plane");
    assert_eq!(s.layers[1].index, 1);
    assert_eq!(f32::from_bits(s.layers[1].thickness.unwrap().0), 0.035);
}

#[test]
fn stackup_attributes_default() {
    let doc = StackupXml {
        layer: vec![StackupLayerXml { name: None, layer_type: None, index: None, thickness: None }],
    };
    let s = stackup_from_xml(&doc);
    assert_eq!(s.layers.len(), 1);
    assert_eq!(s.layers[0].name, "");
    assert_eq!(s.layers[0].layer_type, "");
    assert_eq!(s.layers[0].index, 0);
    assert!(s.layers[0].thickness.is_none());
}

#[test]
fn stackup_without_layers() {
    let s = stackup_from_xml(&StackupXml { layer: vec![] });
    assert!(s.layers.is_empty());
}

#[test]
fn netlist_keeps_present_refs_only() {
    let doc = NetlistXml {
        net: vec![
            NetXml {
                name: Some("GND".to_string()),
                connection: vec![
                    ConnectionXml { ref_val: Some("U1-1".to_string()) },
                    ConnectionXml { ref_val: None },
                    ConnectionXml { ref_val: Some("C3-2".to_string()) },
                ],
            },
            NetXml { name: None, connection: vec![] },
        ],
    };
    let n = netlist_from_xml(&doc);
    assert_eq!(n.nets.len(), 2);
    assert_eq!(n.nets[0].name, "GND");
    assert_eq!(n.nets[0].connections, vec!["U1-1".to_string(), "C3-2".to_string()]);
    assert_eq!(n.nets[1].name, "");
    assert!(n.nets[1].connections.is_empty());
}

#[test]
fn bom_defaults_and_values() {
    let doc = BomXml {
        component: vec![
            ComponentXml {
                reference: Some("R1".to_string()),
                value: Some("10k".to_string()),
                footprint: Some("0603".to_string()),
                x: Some(bits(12.5)),
                y: Some(bits(-3.25)),
                rotation: Some(bits(90.0)),
            },
            ComponentXml { reference: None, value: None, footprint: None, x: None, y: None, rotation: None },
        ],
    };
    let b = bom_from_xml(&doc);
    assert_eq!(b.components.len(), 2);
    let c = &b.components[0];
    assert_eq!((c.reference.as_str(), c.value.as_str(), c.footprint.as_str()), ("R1", "10k", "0603"));
    assert_eq!(f32::from_bits(c.x.0), 12.5);
    assert_eq!(f32::from_bits(c.y.0), -3.25);
    assert_eq!(f32::from_bits(c.rotation.0), 90.0);
    let d = &b.components[1];
    assert_eq!((d.reference.as_str(), d.value.as_str(), d.footprint.as_str()), ("", "", ""));
    assert_eq!(f32::from_bits(d.x.0), 0.0);
    assert_eq!(d.y.0, 0);
    assert_eq!(d.rotation.0, 0);
}

#[test]
fn decoding_failures_become_xml_errors() {
    match parse_stackup_xml(Err("bad".to_string())) {
        Err(OdbError::XmlInvalid(OdbEntry::Stackup, d)) => assert_eq!(d, "bad"),
        _ => panic!("expected a stackup XML error"),
    }
    match parse_netlist_xml(Err("x".to_string())) {
        Err(e) => assert_eq!(e.message(), "Failed to parse netlist.xml: x"),
        Ok(_) => panic!("expected an error"),
    }
    match parse_bom_xml(Err("y".to_string())) {
        Err(e) => assert_eq!(e.message(), "Failed to parse bom.xml: y"),
        Ok(_) => panic!("expected an error"),
    }
}

#[test]
fn decoded_documents_are_converted() {
    let s = parse_stackup_xml(Ok(StackupXml {
        layer: vec![StackupLayerXml { name: Some("L".to_string()), layer_type: None, index: Some(4), thickness: None }],
    }))
    .unwrap();
    assert_eq!(s.layers[0].index, 4);
    let n = parse_netlist_xml(Ok(NetlistXml { net: vec![] })).unwrap();
    assert!(n.nets.is_empty());
    let b = parse_bom_xml(Ok(BomXml { component: vec![] })).unwrap();
    assert!(b.components.is_empty());
}

#[test]
fn test_parse_stackup_xml() {
    // The decoded form of:
    // <stackup>
    //     <layer name="Layer1" type="signal" index="0" thickness="0.035"/>
    //     <layer name="Layer2" type="plane" index="1" thickness="0.035"/>
    // </stackup>
    let decoded = StackupXml {
        layer: vec![
            StackupLayerXml {
                name: Some("Layer1".to_string()),
                layer_type: Some("signal".to_string()),
                index: Some(0),
                thickness: Some(bits(0.035)),
            },
            StackupLayerXml {
                name: Some("Layer2".to_string()),
                layer_type: Some("plane".to_string()),
                index: Some(1),
                thickness: Some(bits(0.035)),
            },
        ],
    };
    let result = parse_stackup_xml(Ok(decoded));
    assert!(result.is_ok());
}
