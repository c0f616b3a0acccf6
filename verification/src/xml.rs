//! The XML documents of an ODB++ archive, as decoded, and the model made of them.
//!
//! Decoding XML text into the `*Xml` structures is left to the [`XmlDecoders`];
//! everything made of a decoded document is here.
use crate::error::{OdbEntry, OdbError};
use crate::model::{
    Component, ComponentView, F32Bits, Net, NetView, OdbBom, OdbNetlist, OdbStackup, StackupLayer,
    StackupLayerView,
};
use vstd::prelude::*;

verus! {

/// `stackup.xml`: `<stackup>` with its `<layer>` elements.
pub struct StackupXml {
    pub layer: Vec<StackupLayerXml>,
}

/// A `<layer>` element of `stackup.xml`, attribute by attribute.
pub struct StackupLayerXml {
    pub name: Option<String>,
    pub layer_type: Option<String>,
    pub index: Option<i32>,
    pub thickness: Option<F32Bits>,
}

/// `netlist.xml`: its `<net>` elements.
pub struct NetlistXml {
    pub net: Vec<NetXml>,
}

/// A `<net>` element with its `<connection>` children.
pub struct NetXml {
    pub name: Option<String>,
    pub connection: Vec<ConnectionXml>,
}

/// A `<connection>` element and its `ref` attribute.
pub struct ConnectionXml {
    pub ref_val: Option<String>,
}

/// `bom.xml`: its `<component>` elements.
pub struct BomXml {
    pub component: Vec<ComponentXml>,
}

/// A `<component>` element, attribute by attribute.
pub struct ComponentXml {
    pub reference: Option<String>,
    pub value: Option<String>,
    pub footprint: Option<String>,
    pub x: Option<F32Bits>,
    pub y: Option<F32Bits>,
    pub rotation: Option<F32Bits>,
}

/// How the text of each XML entry is decoded: each field turns the text of
/// its entry into the decoded document, or into the decoder's error message.
pub struct XmlDecoders<S, N, B> {
    pub stackup: S,
    pub netlist: N,
    pub bom: B,
}

/// The decoders can be called on every text.
pub open spec fn decoders_callable<
    S: Fn(&str) -> Result<StackupXml, String>,
    N: Fn(&str) -> Result<NetlistXml, String>,
    B: Fn(&str) -> Result<BomXml, String>,
>(decoders: XmlDecoders<S, N, B>) -> bool {
    &&& forall|x: &str| #[trigger] decoders.stackup.requires((x,))
    &&& forall|x: &str| #[trigger] decoders.netlist.requires((x,))
    &&& forall|x: &str| #[trigger] decoders.bom.requires((x,))
}

/// An optional attribute's text, empty where it is absent.
pub open spec fn text_or_empty(s: Option<String>) -> Seq<char> {
    match s {
        Some(t) => t@,
        None => Seq::empty(),
    }
}

/// The stackup layer a `<layer>` element describes: absent name and type are
/// empty, an absent index is 0, the thickness is kept as it is.
pub open spec fn stackup_layer_of(l: StackupLayerXml) -> StackupLayerView {
    StackupLayerView {
        name: text_or_empty(l.name),
        layer_type: text_or_empty(l.layer_type),
        index: match l.index {
            Some(i) => i,
            None => 0,
        },
        thickness: l.thickness,
    }
}

/// The `ref` attributes that are present, in order.
pub open spec fn present_refs(connections: Seq<ConnectionXml>) -> Seq<Seq<char>>
    decreases connections.len(),
{
    if connections.len() == 0 {
        Seq::empty()
    } else {
        let rest = present_refs(connections.drop_last());
        match connections.last().ref_val {
            Some(r) => rest.push(r@),
            None => rest,
        }
    }
}

/// The net a `<net>` element describes: an absent name is empty; the
/// connections are the present `ref` attributes.
pub open spec fn net_of(n: NetXml) -> NetView {
    NetView { name: text_or_empty(n.name), connections: present_refs(n.connection@) }
}

/// A coordinate that is absent reads as `+0.0`.
pub open spec fn coordinate_or_zero(c: Option<F32Bits>) -> F32Bits {
    match c {
        Some(v) => v,
        None => F32Bits(0),
    }
}

/// The component a `<component>` element describes: absent texts are empty,
/// absent coordinates and rotation are `+0.0`.
pub open spec fn component_of(c: ComponentXml) -> ComponentView {
    ComponentView {
        reference: text_or_empty(c.reference),
        value: text_or_empty(c.value),
        footprint: text_or_empty(c.footprint),
        x: coordinate_or_zero(c.x),
        y: coordinate_or_zero(c.y),
        rotation: coordinate_or_zero(c.rotation),
    }
}

fn text_or_empty_exec(s: &Option<String>) -> (t: String)
    ensures
        t@ == text_or_empty(*s),
{
    match s {
        Some(t) => t.clone(),
        None => String::new(),
    }
}

fn coordinate_or_zero_exec(c: Option<F32Bits>) -> (v: F32Bits)
    ensures
        v == coordinate_or_zero(c),
{
    match c {
        Some(v) => v,
        None => F32Bits::zero(),
    }
}

/// The stackup a decoded `stackup.xml` describes, layer by layer.
pub fn stackup_from_xml(doc: &StackupXml) -> (stackup: OdbStackup)
    ensures
        stackup@ == doc.layer@.map_values(|l: StackupLayerXml| stackup_layer_of(l)),
{
    let mut layers: Vec<StackupLayer> = Vec::new();
    let n = doc.layer.len();
    for i in 0..n
        invariant
            n == doc.layer@.len(),
            layers@.len() == i,
            forall|k: int|
                0 <= k < i ==> #[trigger] layers@[k]@ == stackup_layer_of(doc.layer@[k]),
    {
        let l = &doc.layer[i];
        let index: i32 = match l.index {
            Some(v) => v,
            None => 0,
        };
        layers.push(
            StackupLayer {
                name: text_or_empty_exec(&l.name),
                layer_type: text_or_empty_exec(&l.layer_type),
                index,
                thickness: l.thickness,
            },
        );
    }
    let stackup = OdbStackup { layers };
    assert(stackup@ =~= doc.layer@.map_values(|l: StackupLayerXml| stackup_layer_of(l)));
    stackup
}

fn present_refs_exec(connections: &Vec<ConnectionXml>) -> (refs: Vec<String>)
    ensures
        refs@.map_values(|r: String| r@) == present_refs(connections@),
{
    let mut refs: Vec<String> = Vec::new();
    let n = connections.len();
    for i in 0..n
        invariant
            n == connections@.len(),
            refs@.map_values(|r: String| r@) == present_refs(connections@.take(i as int)),
    {
        proof {
            assert(connections@.take(i + 1).drop_last() =~= connections@.take(i as int));
        }
        let ghost before = refs@;
        match &connections[i].ref_val {
            Some(r) => {
                refs.push(r.clone());
                proof {
                    assert(refs@.map_values(|r: String| r@) =~= before.map_values(
                        |r: String| r@,
                    ).push(r@));
                }
            },
            None => {},
        }
    }
    proof {
        assert(connections@.take(n as int) =~= connections@);
    }
    refs
}

/// The netlist a decoded `netlist.xml` describes, net by net.
pub fn netlist_from_xml(doc: &NetlistXml) -> (netlist: OdbNetlist)
    ensures
        netlist@ == doc.net@.map_values(|n: NetXml| net_of(n)),
{
    let mut nets: Vec<Net> = Vec::new();
    let n = doc.net.len();
    for i in 0..n
        invariant
            n == doc.net@.len(),
            nets@.len() == i,
            forall|k: int| 0 <= k < i ==> #[trigger] nets@[k]@ == net_of(doc.net@[k]),
    {
        let x = &doc.net[i];
        let connections = present_refs_exec(&x.connection);
        let net = Net { name: text_or_empty_exec(&x.name), connections };
        assert(net@ =~= net_of(doc.net@[i as int]));
        nets.push(net);
    }
    let netlist = OdbNetlist { nets };
    assert(netlist@ =~= doc.net@.map_values(|n: NetXml| net_of(n)));
    netlist
}

/// The bill of materials a decoded `bom.xml` describes, component by component.
pub fn bom_from_xml(doc: &BomXml) -> (bom: OdbBom)
    ensures
        bom@ == doc.component@.map_values(|c: ComponentXml| component_of(c)),
{
    let mut components: Vec<Component> = Vec::new();
    let n = doc.component.len();
    for i in 0..n
        invariant
            n == doc.component@.len(),
            components@.len() == i,
            forall|k: int|
                0 <= k < i ==> #[trigger] components@[k]@ == component_of(doc.component@[k]),
    {
        let c = &doc.component[i];
        components.push(
            Component {
                reference: text_or_empty_exec(&c.reference),
                value: text_or_empty_exec(&c.value),
                footprint: text_or_empty_exec(&c.footprint),
                x: coordinate_or_zero_exec(c.x),
                y: coordinate_or_zero_exec(c.y),
                rotation: coordinate_or_zero_exec(c.rotation),
            },
        );
    }
    let bom = OdbBom { components };
    assert(bom@ =~= doc.component@.map_values(|c: ComponentXml| component_of(c)));
    bom
}

/// What a decoded `stackup.xml` gives: the stackup it describes, or the
/// decoder's failure as an XML error of the stackup.
pub open spec fn stackup_outcome(decoded: Result<StackupXml, String>, res: Result<OdbStackup, OdbError>) -> bool {
    match decoded {
        Ok(doc) => res matches Ok(s) && s@ == doc.layer@.map_values(|l: StackupLayerXml| stackup_layer_of(l)),
        Err(d) => res == Err::<OdbStackup, OdbError>(OdbError::XmlInvalid(OdbEntry::Stackup, d)),
    }
}

/// What a decoded `netlist.xml` gives: the netlist it describes, or the
/// decoder's failure as an XML error of the netlist.
pub open spec fn netlist_outcome(decoded: Result<NetlistXml, String>, res: Result<OdbNetlist, OdbError>) -> bool {
    match decoded {
        Ok(doc) => res matches Ok(l) && l@ == doc.net@.map_values(|n: NetXml| net_of(n)),
        Err(d) => res == Err::<OdbNetlist, OdbError>(OdbError::XmlInvalid(OdbEntry::Netlist, d)),
    }
}

/// What a decoded `bom.xml` gives: the bill of materials it describes, or the
/// decoder's failure as an XML error of the bill of materials.
pub open spec fn bom_outcome(decoded: Result<BomXml, String>, res: Result<OdbBom, OdbError>) -> bool {
    match decoded {
        Ok(doc) => res matches Ok(b) && b@ == doc.component@.map_values(|c: ComponentXml| component_of(c)),
        Err(d) => res == Err::<OdbBom, OdbError>(OdbError::XmlInvalid(OdbEntry::Bom, d)),
    }
}

/// The stackup of a decoded `stackup.xml`, or the decoder's failure.
pub fn parse_stackup_xml(decoded: Result<StackupXml, String>) -> (res: Result<OdbStackup, OdbError>)
    ensures
        stackup_outcome(decoded, res),
{
    match decoded {
        Ok(doc) => Ok(stackup_from_xml(&doc)),
        Err(d) => Err(OdbError::XmlInvalid(OdbEntry::Stackup, d)),
    }
}

/// The netlist of a decoded `netlist.xml`, or the decoder's failure.
pub fn parse_netlist_xml(decoded: Result<NetlistXml, String>) -> (res: Result<OdbNetlist, OdbError>)
    ensures
        netlist_outcome(decoded, res),
{
    match decoded {
        Ok(doc) => Ok(netlist_from_xml(&doc)),
        Err(d) => Err(OdbError::XmlInvalid(OdbEntry::Netlist, d)),
    }
}

/// The bill of materials of a decoded `bom.xml`, or the decoder's failure.
pub fn parse_bom_xml(decoded: Result<BomXml, String>) -> (res: Result<OdbBom, OdbError>)
    ensures
        bom_outcome(decoded, res),
{
    match decoded {
        Ok(doc) => Ok(bom_from_xml(&doc)),
        Err(d) => Err(OdbError::XmlInvalid(OdbEntry::Bom, d)),
    }
}

} // verus!
