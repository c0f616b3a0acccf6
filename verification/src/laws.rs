//! What the reading and conversion operations promise of every input.
use crate::archive::zip_contents;
use crate::geometry::{conversion_outcome, drawn, layer_outcomes, LayerConverter};
use crate::model::{
    ComponentView, F32Bits, NetView, OdbBom, OdbLayer, OdbNetlist, OdbStackup, StackupLayerView,
};
use crate::parser::{archive_outcome, bom_read, netlist_read};
use crate::error::OdbError;
use crate::xml::{
    component_of, net_of, present_refs, stackup_layer_of, BomXml, ComponentXml, ConnectionXml,
    NetXml, NetlistXml, StackupLayerXml, StackupXml, XmlDecoders,
};
use vstd::prelude::*;

verus! {

/// The text of a present `ref` attribute.
pub open spec fn ref_text(c: ConnectionXml) -> Option<Seq<char>> {
    match c.ref_val {
        Some(r) => Some(r@),
        None => None,
    }
}

/// A net's connections are exactly the present `ref` attributes of its
/// `<connection>` elements, in order: every present one, and no other.
pub proof fn lemma_connections_are_present_refs(connections: Seq<ConnectionXml>)
    ensures
        present_refs(connections) == connections.filter_map(|c: ConnectionXml| ref_text(c)),
    decreases connections.len(),
{
    if connections.len() > 0 {
        lemma_connections_are_present_refs(connections.drop_last());
        let rest = connections.drop_last().filter_map(|c: ConnectionXml| ref_text(c));
        match connections.last().ref_val {
            Some(r) => {
                assert(rest.push(r@) =~= rest + seq![r@]);
            },
            None => {},
        }
    }
}

/// The nets of a netlist read from a decoded `netlist.xml` keep the order of
/// the `<net>` elements; each has the element's name, empty where it is
/// absent, and exactly the present `ref` attributes of its connections, in
/// order.
pub proof fn lemma_netlist_from_document(doc: NetlistXml, netlist: OdbNetlist)
    requires
        netlist@ == doc.net@.map_values(|n: NetXml| net_of(n)),
    ensures
        netlist.nets@.len() == doc.net@.len(),
        forall|i: int|
            0 <= i < doc.net@.len() ==> {
                &&& (#[trigger] doc.net@[i]).name matches Some(s) ==> netlist@[i].name == s@
                &&& doc.net@[i].name is None ==> netlist@[i].name.len() == 0
                &&& netlist@[i].connections == doc.net@[i].connection@.filter_map(
                    |c: ConnectionXml| ref_text(c),
                )
            },
{
    assert(netlist.nets@.len() == netlist@.len());
    assert forall|i: int| 0 <= i < doc.net@.len() implies netlist@[i].connections
        == (#[trigger] doc.net@[i]).connection@.filter_map(|c: ConnectionXml| ref_text(c)) by {
        lemma_connections_are_present_refs(doc.net@[i].connection@);
    }
}

/// The layers of a stackup read from a decoded `stackup.xml` keep the order of
/// the `<layer>` elements; each takes its element's attributes unchanged where
/// present: name, type, index and thickness. An absent name or type is empty,
/// an absent index is 0, an absent thickness stays absent.
pub proof fn lemma_stackup_from_document(doc: StackupXml, stackup: OdbStackup)
    requires
        stackup@ == doc.layer@.map_values(|l: StackupLayerXml| stackup_layer_of(l)),
    ensures
        stackup.layers@.len() == doc.layer@.len(),
        forall|i: int|
            0 <= i < doc.layer@.len() ==> {
                let l = #[trigger] doc.layer@[i];
                &&& stackup@[i].thickness == l.thickness
                &&& l.name matches Some(s) ==> stackup@[i].name == s@
                &&& l.name is None ==> stackup@[i].name.len() == 0
                &&& l.layer_type matches Some(s) ==> stackup@[i].layer_type == s@
                &&& l.layer_type is None ==> stackup@[i].layer_type.len() == 0
                &&& l.index matches Some(k) ==> stackup@[i].index == k
                &&& l.index is None ==> stackup@[i].index == 0
            },
{
    assert(stackup.layers@.len() == stackup@.len());
}

/// The components of a bill of materials read from a decoded `bom.xml` keep
/// the order of the `<component>` elements; each takes its element's
/// attributes unchanged, bit for bit, where present. Absent texts are empty,
/// absent coordinates and rotation are `+0.0`.
pub proof fn lemma_bom_from_document(doc: BomXml, bom: OdbBom)
    requires
        bom@ == doc.component@.map_values(|c: ComponentXml| component_of(c)),
    ensures
        bom.components@.len() == doc.component@.len(),
        forall|i: int|
            0 <= i < doc.component@.len() ==> {
                let c = #[trigger] doc.component@[i];
                &&& c.reference matches Some(s) ==> bom@[i].reference == s@
                &&& c.reference is None ==> bom@[i].reference.len() == 0
                &&& c.value matches Some(s) ==> bom@[i].value == s@
                &&& c.value is None ==> bom@[i].value.len() == 0
                &&& c.footprint matches Some(s) ==> bom@[i].footprint == s@
                &&& c.footprint is None ==> bom@[i].footprint.len() == 0
                &&& c.x matches Some(v) ==> bom@[i].x == v
                &&& c.x is None ==> bom@[i].x.0 == 0
                &&& c.y matches Some(v) ==> bom@[i].y == v
                &&& c.y is None ==> bom@[i].y.0 == 0
                &&& c.rotation matches Some(v) ==> bom@[i].rotation == v
                &&& c.rotation is None ==> bom@[i].rotation.0 == 0
            },
{
    assert(bom.components@.len() == bom@.len());
}

/// What a converted layer contributes: the converted layer, where it
/// converted and has geometry.
pub open spec fn contribution<T>(outcome: (Result<T, String>, bool)) -> Option<T> {
    match outcome.0 {
        Ok(t) => if outcome.1 {
            Some(t)
        } else {
            None
        },
        Err(_) => None,
    }
}

proof fn lemma_drawn_is_filter_map<T>(outcomes: Seq<(Result<T, String>, bool)>)
    ensures
        drawn(outcomes) == outcomes.filter_map(|o: (Result<T, String>, bool)| contribution(o)),
    decreases outcomes.len(),
{
    if outcomes.len() > 0 {
        lemma_drawn_is_filter_map(outcomes.drop_last());
        let rest = outcomes.drop_last().filter_map(|o: (Result<T, String>, bool)| contribution(o));
        match outcomes.last().0 {
            Ok(t) => {
                assert(rest.push(t) =~= rest + seq![t]);
            },
            Err(_) => {},
        }
    }
}

/// Converting keeps every layer that converts and has geometry, and no other,
/// in layer order; where there is none, the board is refused.
pub proof fn lemma_conversion_keeps_every_drawable_layer<
    T,
    C: Fn(&OdbLayer, F32Bits) -> Result<T, String>,
    G: Fn(&T) -> bool,
>(
    converter: LayerConverter<C, G>,
    odb_data: crate::model::OdbData,
    res: Result<Vec<T>, OdbError>,
)
    requires
        conversion_outcome(converter, odb_data, res),
    ensures
        exists|outcomes: Seq<(Result<T, String>, bool)>|
            #[trigger] layer_outcomes(
                converter,
                odb_data.file.layers@,
                odb_data.unit_multiplier,
                outcomes,
            ) && match res {
                Ok(v) => v@ == outcomes.filter_map(|o: (Result<T, String>, bool)| contribution(o))
                    && v@.len() > 0,
                Err(e) => outcomes.filter_map(|o: (Result<T, String>, bool)| contribution(o)).len()
                    == 0 && e is NoGeometry,
            },
{
    let outcomes = choose|outcomes: Seq<(Result<T, String>, bool)>|
        #[trigger] layer_outcomes(converter, odb_data.file.layers@, odb_data.unit_multiplier, outcomes)
            && match res {
            Ok(v) => v@ == drawn(outcomes) && v@.len() > 0,
            Err(e) => drawn(outcomes).len() == 0 && e is NoGeometry,
        };
    lemma_drawn_is_filter_map(outcomes);
}

/// Reading an archive reads its netlist and its bill of materials each on its
/// own: on success, the data holds the netlist exactly where reading
/// `netlist.xml` succeeds, and the bill of materials exactly where reading
/// `bom.xml` succeeds, whatever became of the other.
pub proof fn lemma_optional_parts_are_independent<
    S: Fn(&str) -> Result<StackupXml, String>,
    N: Fn(&str) -> Result<NetlistXml, String>,
    B: Fn(&str) -> Result<BomXml, String>,
>(data: Seq<u8>, decoders: XmlDecoders<S, N, B>, res: Result<crate::model::OdbData, OdbError>)
    requires
        archive_outcome(data, decoders, res),
        res is Ok,
    ensures
        zip_contents(data) is Ok,
        exists|rn: Result<OdbNetlist, OdbError>|
            #[trigger] netlist_read(
                decoders.netlist,
                zip_contents(data)->Ok_0.1,
                zip_contents(data)->Ok_0.2,
                zip_contents(data)->Ok_0.3,
                rn,
            ) && (res->Ok_0.file.netlist is Some <==> rn is Ok) && (rn matches Ok(n)
                ==> res->Ok_0.file.netlist == Some(n)),
        exists|rb: Result<OdbBom, OdbError>|
            #[trigger] bom_read(
                decoders.bom,
                zip_contents(data)->Ok_0.1,
                zip_contents(data)->Ok_0.2,
                zip_contents(data)->Ok_0.3,
                rb,
            ) && (res->Ok_0.file.bom is Some <==> rb is Ok) && (rb matches Ok(b)
                ==> res->Ok_0.file.bom == Some(b)),
{
}

} // verus!
