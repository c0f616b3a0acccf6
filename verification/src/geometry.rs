//! Conversion of ODB++ layers for rendering. The coordinate arithmetic is a
//! [`LayerConverter`]'s; which layers are kept, their polarity flag and the
//! refusal of a board with nothing to draw are decided here.
use crate::error::OdbError;
use crate::model::{F32Bits, OdbData, OdbLayer, Polarity};
use vstd::prelude::*;

verus! {

/// How a layer is turned into the renderer's representation: `convert`
/// converts a layer whose coordinates are multiplied by the unit multiplier
/// to reach mm, or gives the reason it cannot; `has_geometry` tells whether a
/// converted layer has anything to draw.
pub struct LayerConverter<C, G> {
    pub convert: C,
    pub has_geometry: G,
}

/// The converter can be called on every layer and every converted layer.
pub open spec fn converter_callable<T, C: Fn(&OdbLayer, F32Bits) -> Result<T, String>, G: Fn(&T) -> bool>(
    converter: LayerConverter<C, G>,
) -> bool {
    &&& forall|layer: &OdbLayer, m: F32Bits| #[trigger] converter.convert.requires((layer, m))
    &&& forall|t: &T| #[trigger] converter.has_geometry.requires((t,))
}

/// `outcomes[i]` is what the converter gave for `layers[i]`: the conversion,
/// and, where it succeeded, whether the converted layer has geometry.
pub open spec fn layer_outcomes<T, C: Fn(&OdbLayer, F32Bits) -> Result<T, String>, G: Fn(&T) -> bool>(
    converter: LayerConverter<C, G>,
    layers: Seq<OdbLayer>,
    unit_multiplier: F32Bits,
    outcomes: Seq<(Result<T, String>, bool)>,
) -> bool {
    &&& outcomes.len() == layers.len()
    &&& forall|i: int|
        0 <= i < outcomes.len() ==> {
            &&& converter.convert.ensures((&layers[i], unit_multiplier), #[trigger] outcomes[i].0)
            &&& outcomes[i].0 matches Ok(t) ==> converter.has_geometry.ensures((&t,), outcomes[i].1)
        }
}

/// The converted layers that have geometry, in layer order.
pub open spec fn drawn<T>(outcomes: Seq<(Result<T, String>, bool)>) -> Seq<T>
    decreases outcomes.len(),
{
    if outcomes.len() == 0 {
        Seq::empty()
    } else {
        let rest = drawn(outcomes.drop_last());
        let last = outcomes.last();
        match last.0 {
            Ok(t) => if last.1 {
                rest.push(t)
            } else {
                rest
            },
            Err(_) => rest,
        }
    }
}

/// The result of converting the layers of `odb_data`: the converted layers
/// that have geometry, in layer order, or `NoGeometry` where there are none.
pub open spec fn conversion_outcome<T, C: Fn(&OdbLayer, F32Bits) -> Result<T, String>, G: Fn(&T) -> bool>(
    converter: LayerConverter<C, G>,
    odb_data: OdbData,
    res: Result<Vec<T>, OdbError>,
) -> bool {
    exists|outcomes: Seq<(Result<T, String>, bool)>|
        #[trigger] layer_outcomes(converter, odb_data.file.layers@, odb_data.unit_multiplier, outcomes)
            && match res {
            Ok(v) => v@ == drawn(outcomes) && v@.len() > 0,
            Err(e) => drawn(outcomes).len() == 0 && e is NoGeometry,
        }
}

/// The polarity flag a converted layer is drawn with: 1 for a positive
/// layer, 0 for a negative one.
pub fn polarity_value(polarity: Polarity) -> (v: u8)
    ensures
        v == (if polarity == Polarity::Positive {
            1u8
        } else {
            0u8
        }),
{
    match polarity {
        Polarity::Positive => 1,
        Polarity::Negative => 0,
    }
}

/// Converts every layer, in order, and keeps those that convert and have
/// something to draw. A board where no layer is kept is refused.
pub fn convert_to_gerber_data<T, C: Fn(&OdbLayer, F32Bits) -> Result<T, String>, G: Fn(&T) -> bool>(
    odb_data: &OdbData,
    converter: &LayerConverter<C, G>,
) -> (res: Result<Vec<T>, OdbError>)
    requires
        converter_callable(*converter),
    ensures
        conversion_outcome(*converter, *odb_data, res),
        odb_data.file.layers@.len() == 0 ==> res matches Err(OdbError::NoGeometry),
{
    let mut gerber_layers: Vec<T> = Vec::new();
    let ghost mut outcomes: Seq<(Result<T, String>, bool)> = Seq::empty();
    let n = odb_data.file.layers.len();
    for i in 0..n
        invariant
            n == odb_data.file.layers@.len(),
            converter_callable(*converter),
            layer_outcomes(
                *converter,
                odb_data.file.layers@.take(i as int),
                odb_data.unit_multiplier,
                outcomes,
            ),
            gerber_layers@ == drawn(outcomes),
    {
        let converted = (converter.convert)(&odb_data.file.layers[i], odb_data.unit_multiplier);
        let ghost before = outcomes;
        match converted {
            Ok(gerber_data) => {
                let keep = (converter.has_geometry)(&gerber_data);
                proof {
                    outcomes = before.push((Ok(gerber_data), keep));
                }
                if keep {
                    gerber_layers.push(gerber_data);
                }
            },
            Err(e) => {
                proof {
                    outcomes = before.push((Err(e), false));
                }
            },
        }
        proof {
            assert(outcomes.drop_last() =~= before);
            let layers = odb_data.file.layers@;
            assert forall|k: int| 0 <= k < outcomes.len() implies {
                &&& converter.convert.ensures(
                    (&layers.take(i + 1)[k], odb_data.unit_multiplier),
                    #[trigger] outcomes[k].0,
                )
                &&& outcomes[k].0 matches Ok(t) ==> converter.has_geometry.ensures(
                    (&t,),
                    outcomes[k].1,
                )
            } by {
                if k < i {
                    assert(outcomes[k] == before[k]);
                    assert(layers.take(i + 1)[k] == layers.take(i as int)[k]);
                }
            }
        }
    }
    proof {
        assert(odb_data.file.layers@.take(n as int) =~= odb_data.file.layers@);
    }
    if gerber_layers.len() == 0 {
        return Err(OdbError::NoGeometry);
    }
    Ok(gerber_layers)
}

} // verus!
