//! The ODB++ data model: stackup, layers, geometry, netlist and bill of materials.
use vstd::prelude::*;

verus! {

/// An IEEE 754 binary32 value, held by its bit pattern. The library moves
/// such values from one structure to another and never computes with them.
#[derive(Clone, Copy, Debug, PartialEq, Eq, Structural)]
pub struct F32Bits(pub u32);

impl F32Bits {
    /// The bit pattern of `+0.0`.
    pub fn zero() -> (z: F32Bits)
        ensures
            z.0 == 0,
    {
        F32Bits(0)
    }

    /// The bit pattern of `1.0`.
    pub fn one() -> (o: F32Bits)
        ensures
            o.0 == 0x3f80_0000,
    {
        F32Bits(0x3f80_0000)
    }
}

/// Top-level ODB++ file structure.
#[derive(Debug, Clone)]
pub struct OdbFile {
    pub version: String,
    pub stackup: OdbStackup,
    pub layers: Vec<OdbLayer>,
    pub netlist: Option<OdbNetlist>,
    pub bom: Option<OdbBom>,
}

/// Stackup definition from `stackup.xml`.
#[derive(Debug, Clone)]
pub struct OdbStackup {
    pub layers: Vec<StackupLayer>,
}

/// One layer of the stackup.
#[derive(Debug, Clone)]
pub struct StackupLayer {
    pub name: String,
    /// "signal", "plane", "dielectric", "soldermask", ...
    pub layer_type: String,
    pub index: i32,
    /// In mm.
    pub thickness: Option<F32Bits>,
}

/// An ODB++ layer with its geometry.
#[derive(Debug, Clone)]
pub struct OdbLayer {
    pub name: String,
    pub layer_type: String,
    pub index: i32,
    pub geometries: Vec<OdbGeometry>,
    pub polarity: Polarity,
}

/// Polarity of a layer.
#[derive(Clone, Copy, Debug, PartialEq, Eq, Structural)]
pub enum Polarity {
    Positive,
    Negative,
}

/// Geometry primitives of ODB++.
#[derive(Debug, Clone)]
pub enum OdbGeometry {
    /// Line from (x1, y1) to (x2, y2) with a width.
    Line { x1: F32Bits, y1: F32Bits, x2: F32Bits, y2: F32Bits, width: F32Bits },
    /// Circle at (cx, cy) with a radius.
    Circle { cx: F32Bits, cy: F32Bits, radius: F32Bits },
    /// Polygon given by its vertices.
    Polygon { vertices: Vec<(F32Bits, F32Bits)> },
    /// Rectangle at (x, y) with a width and a height.
    Rectangle { x: F32Bits, y: F32Bits, width: F32Bits, height: F32Bits },
    /// Arc from (x1, y1) to (x2, y2) around (cx, cy).
    Arc {
        x1: F32Bits,
        y1: F32Bits,
        x2: F32Bits,
        y2: F32Bits,
        cx: F32Bits,
        cy: F32Bits,
        radius: F32Bits,
        clockwise: bool,
    },
}

/// Netlist information.
#[derive(Debug, Clone)]
pub struct OdbNetlist {
    pub nets: Vec<Net>,
}

/// One net and the references it connects.
#[derive(Debug, Clone)]
pub struct Net {
    pub name: String,
    pub connections: Vec<String>,
}

/// Bill of materials.
#[derive(Debug, Clone)]
pub struct OdbBom {
    pub components: Vec<Component>,
}

/// One component of the bill of materials.
#[derive(Debug, Clone)]
pub struct Component {
    pub reference: String,
    pub value: String,
    pub footprint: String,
    pub x: F32Bits,
    pub y: F32Bits,
    pub rotation: F32Bits,
}

/// Parsed ODB++ data, ready for conversion.
#[derive(Debug)]
pub struct OdbData {
    pub file: OdbFile,
    /// Converts ODB units to mm.
    pub unit_multiplier: F32Bits,
}

/// The plain content of a stackup layer.
pub struct StackupLayerView {
    pub name: Seq<char>,
    pub layer_type: Seq<char>,
    pub index: i32,
    pub thickness: Option<F32Bits>,
}

impl View for StackupLayer {
    type V = StackupLayerView;

    open spec fn view(&self) -> StackupLayerView {
        StackupLayerView {
            name: self.name@,
            layer_type: self.layer_type@,
            index: self.index,
            thickness: self.thickness,
        }
    }
}

impl View for OdbStackup {
    type V = Seq<StackupLayerView>;

    open spec fn view(&self) -> Seq<StackupLayerView> {
        self.layers@.map_values(|l: StackupLayer| l@)
    }
}

/// The plain content of a net.
pub struct NetView {
    pub name: Seq<char>,
    pub connections: Seq<Seq<char>>,
}

impl View for Net {
    type V = NetView;

    open spec fn view(&self) -> NetView {
        NetView {
            name: self.name@,
            connections: self.connections@.map_values(|c: String| c@),
        }
    }
}

impl View for OdbNetlist {
    type V = Seq<NetView>;

    open spec fn view(&self) -> Seq<NetView> {
        self.nets@.map_values(|n: Net| n@)
    }
}

/// The plain content of a component.
pub struct ComponentView {
    pub reference: Seq<char>,
    pub value: Seq<char>,
    pub footprint: Seq<char>,
    pub x: F32Bits,
    pub y: F32Bits,
    pub rotation: F32Bits,
}

impl View for Component {
    type V = ComponentView;

    open spec fn view(&self) -> ComponentView {
        ComponentView {
            reference: self.reference@,
            value: self.value@,
            footprint: self.footprint@,
            x: self.x,
            y: self.y,
            rotation: self.rotation,
        }
    }
}

impl View for OdbBom {
    type V = Seq<ComponentView>;

    open spec fn view(&self) -> Seq<ComponentView> {
        self.components@.map_values(|c: Component| c@)
    }
}

/// Index of the first layer with the given name, if any.
pub open spec fn first_layer_named(layers: Seq<OdbLayer>, name: Seq<char>) -> Option<int> {
    if exists|i: int| 0 <= i < layers.len() && #[trigger] layers[i].name@ == name {
        Some(
            choose|i: int|
                0 <= i < layers.len() && #[trigger] layers[i].name@ == name && forall|j: int|
                    0 <= j < i ==> layers[j].name@ != name,
        )
    } else {
        None
    }
}

/// Where some layer bears the name, a first one does.
proof fn lemma_first_layer_named_exists(layers: Seq<OdbLayer>, name: Seq<char>, from: int)
    requires
        0 <= from <= layers.len(),
        forall|j: int| 0 <= j < from ==> layers[j].name@ != name,
        exists|i: int| from <= i < layers.len() && #[trigger] layers[i].name@ == name,
    ensures
        exists|i: int|
            0 <= i < layers.len() && #[trigger] layers[i].name@ == name && forall|j: int|
                0 <= j < i ==> layers[j].name@ != name,
    decreases layers.len() - from,
{
    if layers[from].name@ == name {
        assert(0 <= from < layers.len() && layers[from].name@ == name);
    } else {
        let w = choose|i: int| from <= i < layers.len() && #[trigger] layers[i].name@ == name;
        assert(from + 1 <= w);
        lemma_first_layer_named_exists(layers, name, from + 1);
    }
}

/// `find_layer` and `layer_names` agree: a layer is found under a name exactly
/// when that name is among the layer names, and the layer found bears it.
pub proof fn lemma_find_layer_agrees_with_layer_names(
    data: OdbData,
    names: Seq<String>,
    name: Seq<char>,
)
    requires
        names.len() == data.file.layers@.len(),
        forall|i: int| 0 <= i < names.len() ==> #[trigger] names[i]@ == data.file.layers@[i].name@,
    ensures
        first_layer_named(data.file.layers@, name) is Some <==> exists|i: int|
            0 <= i < names.len() && #[trigger] names[i]@ == name,
        first_layer_named(data.file.layers@, name) matches Some(i) ==> 0 <= i
            < data.file.layers@.len() && data.file.layers@[i].name@ == name,
{
    let layers = data.file.layers@;
    if exists|i: int| 0 <= i < names.len() && #[trigger] names[i]@ == name {
        let i = choose|i: int| 0 <= i < names.len() && #[trigger] names[i]@ == name;
        assert(layers[i].name@ == name);
        lemma_first_layer_named_exists(layers, name, 0);
    } else {
        assert forall|i: int| 0 <= i < layers.len() implies #[trigger] layers[i].name@ != name by {
            assert(names[i]@ == layers[i].name@);
        }
    }
}

impl OdbData {
    /// ODB data with the given unit conversion.
    pub fn new(file: OdbFile, unit_multiplier: F32Bits) -> (d: OdbData)
        ensures
            d.file == file,
            d.unit_multiplier == unit_multiplier,
    {
        OdbData { file, unit_multiplier }
    }

    /// The names of all layers, in order.
    pub fn layer_names(&self) -> (names: Vec<String>)
        ensures
            names@.len() == self.file.layers@.len(),
            forall|i: int|
                0 <= i < names@.len() ==> #[trigger] names@[i]@ == self.file.layers@[i].name@,
    {
        let mut names: Vec<String> = Vec::new();
        let n = self.file.layers.len();
        for i in 0..n
            invariant
                n == self.file.layers@.len(),
                names@.len() == i,
                forall|k: int| 0 <= k < i ==> #[trigger] names@[k]@ == self.file.layers@[k].name@,
        {
            names.push(self.file.layers[i].name.clone());
        }
        names
    }

    /// The first layer with the given name.
    pub fn find_layer(&self, name: &str) -> (found: Option<&OdbLayer>)
        ensures
            match first_layer_named(self.file.layers@, name@) {
                Some(i) => found == Some(&self.file.layers@[i]),
                None => found is None,
            },
    {
        let target = name.to_string();
        let n = self.file.layers.len();
        for i in 0..n
            invariant
                n == self.file.layers@.len(),
                target@ == name@,
                forall|k: int| 0 <= k < i ==> self.file.layers@[k].name@ != name@,
        {
            if self.file.layers[i].name == target {
                proof {
                    let layers = self.file.layers@;
                    assert(layers[i as int].name@ == name@);
                    let j = choose|j: int|
                        0 <= j < layers.len() && #[trigger] layers[j].name@ == name@ && forall|k: int|
                            0 <= k < j ==> layers[k].name@ != name@;
                    assert(j == i as int) by {
                        if j < i {
                            assert(layers[j].name@ != name@);
                        } else if j > i {
                            assert(layers[i as int].name@ != name@);
                        }
                    }
                }
                return Some(&self.file.layers[i]);
            }
        }
        None
    }
}

} // verus!
