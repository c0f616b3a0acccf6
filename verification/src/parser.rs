//! Reading an ODB++ archive: the ZIP container, its XML entries, its layers.
use crate::archive::{
    archive_contents, archive_len, ArchiveContents, archive_listing, archive_openable, archive_read_errors, archive_texts, entry_name,
    entry_text, open_archive, zip_contents, EntryFailure,
};
use crate::error::{entry_path, OdbEntry, OdbError};
use crate::geometry::{
    conversion_outcome, convert_to_gerber_data, converter_callable, LayerConverter,
};
use crate::model::{
    F32Bits, OdbBom, OdbData, OdbFile, OdbGeometry, OdbLayer, OdbNetlist, OdbStackup, Polarity,
};
use crate::xml::{
    bom_outcome, decoders_callable, netlist_outcome, parse_bom_xml, parse_netlist_xml,
    parse_stackup_xml, stackup_outcome, BomXml, NetlistXml, StackupXml, XmlDecoders,
};
use std::io::Cursor;
use vstd::prelude::*;
use zip::ZipArchive;

verus! {

/// Whether `part` stands in `s` at char position `start`.
fn occurs_at(s: &str, part: &str, start: usize) -> (b: bool)
    requires
        start + part@.len() <= s@.len() <= usize::MAX,
    ensures
        b == (s@.subrange(start as int, start + part@.len()) == part@),
{
    let n = part.unicode_len();
    let mut i: usize = 0;
    while i < n
        invariant
            n == part@.len(),
            start + n <= s@.len() <= usize::MAX,
            i <= n,
            forall|k: int| 0 <= k < i ==> s@[start + k] == part@[k],
        decreases n - i,
    {
        if s.get_char(start + i) != part.get_char(i) {
            proof {
                assert(s@.subrange(start as int, start + n)[i as int] != part@[i as int]);
            }
            return false;
        }
        i = i + 1;
    }
    proof {
        assert(s@.subrange(start as int, start + n) =~= part@);
    }
    true
}

/// Whether `s` begins with `prefix`.
fn starts_with(s: &str, prefix: &str) -> (b: bool)
    ensures
        b == prefix@.is_prefix_of(s@),
{
    let n = s.unicode_len();
    let m = prefix.unicode_len();
    if m > n {
        return false;
    }
    occurs_at(s, prefix, 0)
}

/// Whether `s` ends with `suffix`.
fn ends_with(s: &str, suffix: &str) -> (b: bool)
    ensures
        b == suffix@.is_suffix_of(s@),
{
    let n = s.unicode_len();
    let m = suffix.unicode_len();
    if m > n {
        return false;
    }
    occurs_at(s, suffix, n - m)
}

/// Whether an archive entry is a geometry file of the layer directory
/// `layer_dir`: it lies under that directory and ends in `.gds`.
pub fn is_layer_geometry_file(file_name: &str, layer_dir: &str) -> (b: bool)
    ensures
        b == (layer_dir@.is_prefix_of(file_name@) && ".gds"@.is_suffix_of(file_name@)),
{
    starts_with(file_name, layer_dir) && ends_with(file_name, ".gds")
}

/// The directory of a layer's files in the archive.
pub open spec fn layer_dir_of(name: Seq<char>) -> Seq<char> {
    "layers/"@ + name + "/"@
}

/// The directory of a layer's files in the archive: `layers/<name>/`.
pub fn layer_dir(name: &str) -> (dir: String)
    ensures
        dir@ == layer_dir_of(name@),
{
    let mut dir = String::from_str("layers/");
    dir.append(name);
    dir.append("/");
    dir
}

/// The message of the first entry of the listing that cannot be opened and
/// named, if any.
pub open spec fn first_entry_error(listing: Seq<Result<Seq<char>, Seq<char>>>) -> Option<Seq<char>>
    decreases listing.len(),
{
    if listing.len() == 0 {
        None
    } else {
        match listing[0] {
            Err(m) => Some(m),
            Ok(_) => first_entry_error(listing.drop_first()),
        }
    }
}

proof fn lemma_first_entry_error_step(listing: Seq<Result<Seq<char>, Seq<char>>>, i: int)
    requires
        0 <= i < listing.len(),
        listing[i] is Ok,
    ensures
        first_entry_error(listing.skip(i)) == first_entry_error(listing.skip(i + 1)),
{
    assert(listing.skip(i).drop_first() =~= listing.skip(i + 1));
}

/// The geometry files of a layer directory. Each entry of the archive is
/// opened and its name looked at; the geometry files themselves are not
/// decoded, so the layer comes back without geometry. The first entry that
/// cannot be opened ends the walk with an error that carries its message.
pub fn parse_layer_geometries(archive: &mut ZipArchive<Cursor<&[u8]>>, layer_path: &str) -> (res:
    Result<Vec<OdbGeometry>, OdbError>)
    ensures
        archive_contents(*final(archive)) == archive_contents(*old(archive)),
        match first_entry_error(archive_listing(*old(archive))) {
            None => res matches Ok(g) && g@.len() == 0,
            Some(m) => res matches Err(OdbError::ArchiveEntry(e)) && e@ == m,
        },
{
    let geometries: Vec<OdbGeometry> = Vec::new();
    let ghost contents = archive_contents(*archive);
    let ghost listing = archive_listing(*archive);
    let n = archive_len(archive);
    proof {
        assert(listing.skip(0) =~= listing);
    }
    for i in 0..n
        invariant
            n == listing.len(),
            contents == archive_contents(*old(archive)),
            archive_contents(*archive) == contents,
            listing == contents.0,
            first_entry_error(listing) == first_entry_error(listing.skip(i as int)),
            geometries@.len() == 0,
    {
        match entry_name(archive, i) {
            Ok(file_name) => {
                proof {
                    lemma_first_entry_error_step(listing, i as int);
                }
                if is_layer_geometry_file(file_name.as_str(), layer_path) {
                    // Geometry files are recognised, but their content is not decoded.
                }
            },
            Err(e) => {
                proof {
                    assert(listing.skip(i as int)[0] == listing[i as int]);
                }
                return Err(OdbError::ArchiveEntry(e));
            },
        }
    }
    proof {
        assert(listing.skip(n as int).len() == 0);
    }
    Ok(geometries)
}

/// The message of the entry that stops the walk over the archive for the
/// layers of `stackup`: none where the stackup has no layer.
pub open spec fn layer_walk_error(stackup: OdbStackup, listing: Seq<Result<Seq<char>, Seq<char>>>) -> Option<Seq<char>> {
    if stackup.layers@.len() == 0 {
        None
    } else {
        first_entry_error(listing)
    }
}

/// The layers of the stackup that have geometry in the archive, in stackup
/// order. As no geometry is decoded, no layer is kept; the walk over the
/// archive still fails where an entry cannot be opened, with that entry's
/// message.
pub fn extract_layers(archive: &mut ZipArchive<Cursor<&[u8]>>, stackup: &OdbStackup) -> (res:
    Result<Vec<OdbLayer>, OdbError>)
    ensures
        archive_contents(*final(archive)) == archive_contents(*old(archive)),
        match layer_walk_error(*stackup, archive_listing(*old(archive))) {
            None => res matches Ok(layers) && layers@.len() == 0,
            Some(m) => res matches Err(OdbError::ArchiveEntry(e)) && e@ == m,
        },
{
    let mut layers: Vec<OdbLayer> = Vec::new();
    let ghost contents = archive_contents(*archive);
    let n = stackup.layers.len();
    for i in 0..n
        invariant
            n == stackup.layers@.len(),
            contents == archive_contents(*old(archive)),
            archive_contents(*archive) == contents,
            i > 0 ==> first_entry_error(contents.0) is None,
            layers@.len() == 0,
    {
        let stackup_layer = &stackup.layers[i];
        let layer_path = layer_dir(stackup_layer.name.as_str());
        let geometries = match parse_layer_geometries(archive, layer_path.as_str()) {
            Ok(g) => g,
            Err(e) => {
                return Err(e);
            },
        };
        if geometries.len() > 0 {
            layers.push(
                OdbLayer {
                    name: stackup_layer.name.clone(),
                    layer_type: stackup_layer.layer_type.clone(),
                    index: stackup_layer.index,
                    geometries,
                    polarity: Polarity::Positive,
                },
            );
        }
    }
    Ok(layers)
}

/// The text of an XML entry of the archive, or the error of reading it, with
/// the message of the underlying failure.
pub fn read_entry(archive: &mut ZipArchive<Cursor<&[u8]>>, entry: OdbEntry) -> (res: Result<
    String,
    OdbError,
>)
    ensures
        archive_contents(*final(archive)) == archive_contents(*old(archive)),
        entry_read(
            entry,
            archive_openable(*old(archive)),
            archive_texts(*old(archive)),
            archive_read_errors(*old(archive)),
            res,
        ),
{
    match entry_text(archive, entry.path()) {
        Ok(t) => Ok(t),
        Err(EntryFailure::Missing(d)) => Err(OdbError::EntryMissing(entry, d)),
        Err(EntryFailure::Unreadable(d)) => Err(OdbError::EntryUnreadable(entry, d)),
    }
}

/// What reading an entry gives, from the names the archive opens, its texts
/// and its read errors: the not-found error where the entry does not open, the
/// unreadable error where it is no text, each with the message of its failure;
/// else the text.
pub open spec fn entry_read(
    entry: OdbEntry,
    openable: Set<Seq<char>>,
    texts: Map<Seq<char>, Seq<char>>,
    errors: Map<Seq<char>, Seq<char>>,
    res: Result<String, OdbError>,
) -> bool {
    let p = entry_path(entry);
    if !openable.contains(p) {
        res matches Err(OdbError::EntryMissing(x, d)) && x == entry && d@ == errors[p]
    } else if !texts.contains_key(p) {
        res matches Err(OdbError::EntryUnreadable(x, d)) && x == entry && d@ == errors[p]
    } else {
        res matches Ok(t) && t@ == texts[p]
    }
}

/// What reading `stackup.xml` gives: the not-found error where the entry does
/// not open, the unreadable error where it is no text, each with the message
/// of its failure; else what the decoder's result for its text gives.
pub open spec fn stackup_read<S: Fn(&str) -> Result<StackupXml, String>>(
    decode: S,
    openable: Set<Seq<char>>,
    texts: Map<Seq<char>, Seq<char>>,
    errors: Map<Seq<char>, Seq<char>>,
    res: Result<OdbStackup, OdbError>,
) -> bool {
    let p = entry_path(OdbEntry::Stackup);
    if !openable.contains(p) {
        res matches Err(OdbError::EntryMissing(x, m)) && x == OdbEntry::Stackup && m@ == errors[p]
    } else if !texts.contains_key(p) {
        res matches Err(OdbError::EntryUnreadable(x, m)) && x == OdbEntry::Stackup && m@ == errors[p]
    } else {
        exists|x: &str, d: Result<StackupXml, String>|
            x@ == texts[p] && #[trigger] decode.ensures((x,), d) && stackup_outcome(d, res)
    }
}

/// What reading `netlist.xml` gives; see [`stackup_read`].
pub open spec fn netlist_read<N: Fn(&str) -> Result<NetlistXml, String>>(
    decode: N,
    openable: Set<Seq<char>>,
    texts: Map<Seq<char>, Seq<char>>,
    errors: Map<Seq<char>, Seq<char>>,
    res: Result<OdbNetlist, OdbError>,
) -> bool {
    let p = entry_path(OdbEntry::Netlist);
    if !openable.contains(p) {
        res matches Err(OdbError::EntryMissing(x, m)) && x == OdbEntry::Netlist && m@ == errors[p]
    } else if !texts.contains_key(p) {
        res matches Err(OdbError::EntryUnreadable(x, m)) && x == OdbEntry::Netlist && m@ == errors[p]
    } else {
        exists|x: &str, d: Result<NetlistXml, String>|
            x@ == texts[p] && #[trigger] decode.ensures((x,), d) && netlist_outcome(d, res)
    }
}

/// What reading `bom.xml` gives; see [`stackup_read`].
pub open spec fn bom_read<B: Fn(&str) -> Result<BomXml, String>>(
    decode: B,
    openable: Set<Seq<char>>,
    texts: Map<Seq<char>, Seq<char>>,
    errors: Map<Seq<char>, Seq<char>>,
    res: Result<OdbBom, OdbError>,
) -> bool {
    let p = entry_path(OdbEntry::Bom);
    if !openable.contains(p) {
        res matches Err(OdbError::EntryMissing(x, m)) && x == OdbEntry::Bom && m@ == errors[p]
    } else if !texts.contains_key(p) {
        res matches Err(OdbError::EntryUnreadable(x, m)) && x == OdbEntry::Bom && m@ == errors[p]
    } else {
        exists|x: &str, d: Result<BomXml, String>|
            x@ == texts[p] && #[trigger] decode.ensures((x,), d) && bom_outcome(d, res)
    }
}

/// The stackup of the archive, from `stackup.xml`.
pub fn parse_stackup<S: Fn(&str) -> Result<StackupXml, String>>(
    archive: &mut ZipArchive<Cursor<&[u8]>>,
    decode: &S,
) -> (res: Result<OdbStackup, OdbError>)
    requires
        forall|x: &str| #[trigger] decode.requires((x,)),
    ensures
        archive_contents(*final(archive)) == archive_contents(*old(archive)),
        stackup_read(
            *decode,
            archive_openable(*old(archive)),
            archive_texts(*old(archive)),
            archive_read_errors(*old(archive)),
            res,
        ),
{
    let content = match read_entry(archive, OdbEntry::Stackup) {
        Ok(t) => t,
        Err(e) => return Err(e),
    };
    let text: &str = content.as_str();
    let decoded = decode(text);
    let ghost d = decoded;
    let res = parse_stackup_xml(decoded);
    proof {
        assert(decode.ensures((text,), d));
    }
    res
}

/// The netlist of the archive, from `netlist.xml`.
pub fn parse_netlist<N: Fn(&str) -> Result<NetlistXml, String>>(
    archive: &mut ZipArchive<Cursor<&[u8]>>,
    decode: &N,
) -> (res: Result<OdbNetlist, OdbError>)
    requires
        forall|x: &str| #[trigger] decode.requires((x,)),
    ensures
        archive_contents(*final(archive)) == archive_contents(*old(archive)),
        netlist_read(
            *decode,
            archive_openable(*old(archive)),
            archive_texts(*old(archive)),
            archive_read_errors(*old(archive)),
            res,
        ),
{
    let content = match read_entry(archive, OdbEntry::Netlist) {
        Ok(t) => t,
        Err(e) => return Err(e),
    };
    let text: &str = content.as_str();
    let decoded = decode(text);
    let ghost d = decoded;
    let res = parse_netlist_xml(decoded);
    proof {
        assert(decode.ensures((text,), d));
    }
    res
}

/// The bill of materials of the archive, from `bom.xml`.
pub fn parse_bom<B: Fn(&str) -> Result<BomXml, String>>(
    archive: &mut ZipArchive<Cursor<&[u8]>>,
    decode: &B,
) -> (res: Result<OdbBom, OdbError>)
    requires
        forall|x: &str| #[trigger] decode.requires((x,)),
    ensures
        archive_contents(*final(archive)) == archive_contents(*old(archive)),
        bom_read(
            *decode,
            archive_openable(*old(archive)),
            archive_texts(*old(archive)),
            archive_read_errors(*old(archive)),
            res,
        ),
{
    let content = match read_entry(archive, OdbEntry::Bom) {
        Ok(t) => t,
        Err(e) => return Err(e),
    };
    let text: &str = content.as_str();
    let decoded = decode(text);
    let ghost d = decoded;
    let res = parse_bom_xml(decoded);
    proof {
        assert(decode.ensures((text,), d));
    }
    res
}

/// The errors that reading an archive can end in: it is no ZIP archive; its
/// `stackup.xml` is missing, unreadable or undecodable; or an entry cannot be
/// opened while the layers are looked for.
pub open spec fn is_archive_error(e: OdbError) -> bool {
    match e {
        OdbError::ArchiveOpen(_) => true,
        OdbError::EntryMissing(entry, _) => entry == OdbEntry::Stackup,
        OdbError::EntryUnreadable(entry, _) => entry == OdbEntry::Stackup,
        OdbError::XmlInvalid(entry, _) => entry == OdbEntry::Stackup,
        OdbError::ArchiveEntry(_) => true,
        OdbError::NoGeometry => false,
    }
}

/// The part that an optional read contributes: its value where it succeeded.
pub open spec fn part_of<T>(r: Result<T, OdbError>) -> Option<T> {
    match r {
        Ok(v) => Some(v),
        Err(_) => None,
    }
}

/// The data read from a stackup that was read as `stackup`, from an archive
/// with these contents: none where the layer walk stops at an entry; else the
/// stackup with no layers, the netlist and the bill of materials where their
/// reads succeed, version "1.0" and unit multiplier 1.0.
pub open spec fn data_outcome<
    S: Fn(&str) -> Result<StackupXml, String>,
    N: Fn(&str) -> Result<NetlistXml, String>,
    B: Fn(&str) -> Result<BomXml, String>,
>(
    decoders: XmlDecoders<S, N, B>,
    contents: ArchiveContents,
    stackup: OdbStackup,
    res: Result<OdbData, OdbError>,
) -> bool {
    match layer_walk_error(stackup, contents.0) {
        Some(m) => res matches Err(OdbError::ArchiveEntry(e)) && e@ == m,
        None => res matches Ok(d) && {
            &&& d.file.stackup == stackup
            &&& d.file.layers@.len() == 0
            &&& d.file.version@ == "1.0"@
            &&& d.unit_multiplier == F32Bits(0x3f80_0000)
            &&& exists|rn: Result<OdbNetlist, OdbError>|
                #[trigger] netlist_read(decoders.netlist, contents.1, contents.2, contents.3, rn)
                    && d.file.netlist == part_of(rn)
            &&& exists|rb: Result<OdbBom, OdbError>|
                #[trigger] bom_read(decoders.bom, contents.1, contents.2, contents.3, rb) && d.file.bom
                    == part_of(rb)
        },
    }
}

/// What reading an ODB++ archive from `data` gives: the archive error where
/// the bytes are no ZIP archive; else the error of reading `stackup.xml`
/// where it fails; else what the stackup read gives (see [`data_outcome`]).
pub open spec fn archive_outcome<
    S: Fn(&str) -> Result<StackupXml, String>,
    N: Fn(&str) -> Result<NetlistXml, String>,
    B: Fn(&str) -> Result<BomXml, String>,
>(data: Seq<u8>, decoders: XmlDecoders<S, N, B>, res: Result<OdbData, OdbError>) -> bool {
    match zip_contents(data) {
        Err(m) => res matches Err(OdbError::ArchiveOpen(e)) && e@ == m,
        Ok(c) => exists|rs: Result<OdbStackup, OdbError>|
            #[trigger] stackup_read(decoders.stackup, c.1, c.2, c.3, rs) && match rs {
                Err(e) => res == Err::<OdbData, OdbError>(e),
                Ok(s) => data_outcome(decoders, c, s, res),
            },
    }
}

/// Reads an ODB++ archive: its stackup from `stackup.xml`, the stackup's
/// layers, and, where they can be had, the netlist from `netlist.xml` and the
/// bill of materials from `bom.xml`. The data is in mm (unit multiplier 1.0)
/// and of version "1.0".
pub fn parse_odb_archive<
    S: Fn(&str) -> Result<StackupXml, String>,
    N: Fn(&str) -> Result<NetlistXml, String>,
    B: Fn(&str) -> Result<BomXml, String>,
>(data: &[u8], decoders: &XmlDecoders<S, N, B>) -> (res: Result<OdbData, OdbError>)
    requires
        decoders_callable(*decoders),
    ensures
        archive_outcome(data@, *decoders, res),
        res matches Err(e) ==> is_archive_error(e),
{
    let mut archive = match open_archive(data) {
        Ok(a) => a,
        Err(e) => return Err(OdbError::ArchiveOpen(e)),
    };
    let ghost c = zip_contents(data@)->Ok_0;
    assert(c == archive_contents(archive));
    let stackup = match parse_stackup(&mut archive, &decoders.stackup) {
        Ok(s) => s,
        Err(e) => {
            assert(stackup_read(decoders.stackup, c.1, c.2, c.3, Err::<OdbStackup, OdbError>(e)));
            return Err(e);
        },
    };
    let ghost s = stackup;
    proof {
        assert(stackup_read(decoders.stackup, c.1, c.2, c.3, Ok::<OdbStackup, OdbError>(s)));
    }
    let layers = match extract_layers(&mut archive, &stackup) {
        Ok(l) => l,
        Err(e) => {
            assert(data_outcome(*decoders, c, s, Err::<OdbData, OdbError>(e)));
            assert(archive_outcome(data@, *decoders, Err::<OdbData, OdbError>(e)));
            return Err(e);
        },
    };
    let netlist_read_result = parse_netlist(&mut archive, &decoders.netlist);
    let ghost rn = netlist_read_result;
    let netlist = match netlist_read_result {
        Ok(n) => Some(n),
        Err(_) => None,
    };
    let bom_read_result = parse_bom(&mut archive, &decoders.bom);
    let ghost rb = bom_read_result;
    let bom = match bom_read_result {
        Ok(b) => Some(b),
        Err(_) => None,
    };
    let file = OdbFile { version: String::from_str("1.0"), stackup, layers, netlist, bom };
    let res = OdbData::new(file, F32Bits::one());
    proof {
        assert(netlist_read(decoders.netlist, c.1, c.2, c.3, rn));
        assert(bom_read(decoders.bom, c.1, c.2, c.3, rb));
        assert(res.file.netlist == part_of(rn));
        assert(res.file.bom == part_of(rb));
    }
    Ok(res)
}

/// Reads an ODB++ archive and converts its layers for rendering: the error
/// of reading the archive where it fails, else what the conversion of the
/// data read gives. As the layers' geometry is not decoded, no layer is ever
/// kept, so the result is always an error: that of reading the archive, or
/// the refusal of a board with nothing to draw.
pub fn parse_odb_with_offset<
    S: Fn(&str) -> Result<StackupXml, String>,
    N: Fn(&str) -> Result<NetlistXml, String>,
    B: Fn(&str) -> Result<BomXml, String>,
    T,
    C: Fn(&OdbLayer, F32Bits) -> Result<T, String>,
    G: Fn(&T) -> bool,
>(data: &[u8], decoders: &XmlDecoders<S, N, B>, converter: &LayerConverter<C, G>) -> (res: Result<
    Vec<T>,
    OdbError,
>)
    requires
        decoders_callable(*decoders),
        converter_callable(*converter),
    ensures
        exists|ra: Result<OdbData, OdbError>|
            #[trigger] archive_outcome(data@, *decoders, ra) && match ra {
                Err(e) => res == Err::<Vec<T>, OdbError>(e),
                Ok(d) => conversion_outcome(*converter, d, res),
            },
        res is Err,
        res matches Err(e) ==> is_archive_error(e) || e is NoGeometry,
{
    let odb_data = match parse_odb_archive(data, decoders) {
        Ok(d) => d,
        Err(e) => {
            proof {
                assert(archive_outcome(data@, *decoders, Err::<OdbData, OdbError>(e)));
            }
            return Err(e);
        },
    };
    let ghost d = odb_data;
    let res = convert_to_gerber_data(&odb_data, converter);
    proof {
        assert(archive_outcome(data@, *decoders, Ok::<OdbData, OdbError>(d)));
    }
    res
}

} // verus!
