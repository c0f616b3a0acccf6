//! Reading of ODB++ board archives into a layer model.

pub mod archive;
pub mod error;
pub mod geometry;
pub mod laws;
pub mod model;
pub mod parser;
pub mod xml;

pub use geometry::convert_to_gerber_data;
pub use model::{OdbData, OdbFile, OdbLayer};
pub use parser::parse_odb_with_offset;

use crate::archive::zip_contents;
use crate::error::OdbError;
use crate::geometry::{conversion_outcome, converter_callable, LayerConverter};
use crate::model::F32Bits;
use crate::parser::{archive_outcome, is_archive_error};
use crate::xml::{decoders_callable, BomXml, NetlistXml, StackupXml, XmlDecoders};
use vstd::prelude::*;

verus! {

/// Reads an ODB++ archive and converts its layers for rendering; it gives
/// what [`parser::parse_odb_with_offset`] gives.
pub fn parse_odb_layer_impl<
    S: Fn(&str) -> Result<StackupXml, String>,
    N: Fn(&str) -> Result<NetlistXml, String>,
    B: Fn(&str) -> Result<BomXml, String>,
    T,
    C: Fn(&OdbLayer, F32Bits) -> Result<T, String>,
    G: Fn(&T) -> bool,
>(data: &[u8], decoders: &XmlDecoders<S, N, B>, converter: &LayerConverter<C, G>) -> (res: Result<
    Vec<T>,
    OdbError,
>)
    requires
        decoders_callable(*decoders),
        converter_callable(*converter),
    ensures
        exists|ra: Result<OdbData, OdbError>|
            #[trigger] archive_outcome(data@, *decoders, ra) && match ra {
                Err(e) => res == Err::<Vec<T>, OdbError>(e),
                Ok(d) => conversion_outcome(*converter, d, res),
            },
        res is Err,
        res matches Err(e) ==> is_archive_error(e) || e is NoGeometry,
        res matches Err(OdbError::ArchiveOpen(_)) <==> zip_contents(data@) is Err,
{
    parser::parse_odb_with_offset(data, decoders, converter)
}

} // verus!
