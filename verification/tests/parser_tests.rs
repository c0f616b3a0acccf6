use odb::archive::{archive_len, entry_name, entry_text, open_archive, EntryFailure};
use odb::error::{OdbEntry, OdbError};
use odb::model::Polarity;
use odb::geometry::LayerConverter;
use odb::model::{F32Bits, OdbLayer};
use odb::parser::{
    extract_layers, is_layer_geometry_file, layer_dir, parse_layer_geometries, parse_odb_archive, parse_odb_with_offset,
    parse_stackup, read_entry,
};
use odb::xml::{BomXml, NetlistXml, StackupLayerXml, StackupXml, XmlDecoders};
use std::io::{Cursor, Write};
use zip::write::SimpleFileOptions;
use zip::{CompressionMethod, ZipWriter};

fn zip_of(entries: &[(&str, &[u8])]) -> Vec<u8> {
    let mut w = ZipWriter::new(Cursor::new(Vec::new()));
    let opts = SimpleFileOptions::default().compression_method(CompressionMethod::Stored);
    for (name, content) in entries {
        w.start_file(*name, opts).unwrap();
        w.write_all(content).unwrap();
    }
    w.finish().unwrap().into_inner()
}

fn two_layers(xml: &str) -> Result<StackupXml, String> {
    let _ = xml;
    Ok(StackupXml {
        layer: vec![
            StackupLayerXml { name: Some("Top".to_string()), layer_type: Some("signal".to_string()), index: Some(0), thickness: None },
            StackupLayerXml { name: Some("Bottom".to_string()), layer_type: Some("signal".to_string()), index: Some(1), thickness: None },
        ],
    })
}

fn undecodable(xml: &str) -> Result<StackupXml, String> {
    Err(format!("cannot decode {} chars", xml.len()))
}

fn empty_netlist(_xml: &str) -> Result<NetlistXml, String> {
    Ok(NetlistXml { net: vec![] })
}

fn bad_netlist(_xml: &str) -> Result<NetlistXml, String> {
    Err("netlist".to_string())
}

fn empty_bom(_xml: &str) -> Result<BomXml, String> {
    Ok(BomXml { component: vec![] })
}

fn bad_bom(_xml: &str) -> Result<BomXml, String> {
    Err("bom".to_string())
}

type Decoders = XmlDecoders<
    fn(&str) -> Result<StackupXml, String>,
    fn(&str) -> Result<NetlistXml, String>,
    fn(&str) -> Result<BomXml, String>,
>;

/// Decodes each document into a fixed result, whatever the text.
fn fixed(stackup_ok: bool, netlist_ok: bool, bom_ok: bool) -> Decoders {
    XmlDecoders {
        stackup: if stackup_ok { two_layers } else { undecodable },
        netlist: if netlist_ok { empty_netlist } else { bad_netlist },
        bom: if bom_ok { empty_bom } else { bad_bom },
    }
}

fn all_ok() -> Decoders {
    fixed(true, true, true)
}

#[test]
fn geometry_file_names() {
    assert!(is_layer_geometry_file("layers/Top/a.gds", "layers/Top/"));
    assert!(is_layer_geometry_file("layers/Top/.gds", "layers/Top/"));
    assert!(!is_layer_geometry_file("layers/Top/a.gdsx", "layers/Top/"));
    assert!(!is_layer_geometry_file("layers/Bottom/a.gds", "layers/Top/"));
    assert!(!is_layer_geometry_file("x.gds", "layers/Top/"));
    assert!(!is_layer_geometry_file("", ""));
    assert!(is_layer_geometry_file(".gds", ""));
}

#[test]
fn layer_directories() {
    assert_eq!(layer_dir("Top"), "layers/Top/");
    assert_eq!(layer_dir(""), "layers//");
}

#[test]
fn open_and_list_archive() {
    let data = zip_of(&[("stackup.xml", b"<stackup/>"), ("layers/Top/a.gds", b"xx")]);
    let mut a = open_archive(&data).unwrap();
    assert_eq!(archive_len(&a), 2);
    assert_eq!(entry_name(&mut a, 0).unwrap(), "stackup.xml");
    assert_eq!(entry_name(&mut a, 1).unwrap(), "layers/Top/a.gds");
    assert!(entry_name(&mut a, 2).is_err());
    assert_eq!(entry_text(&mut a, "stackup.xml").ok().unwrap(), "<stackup/>");
    assert!(matches!(entry_text(&mut a, "netlist.xml"), Err(EntryFailure::Missing(_))));
}

#[test]
fn non_utf8_entry_is_unreadable() {
    let data = zip_of(&[("bom.xml", &[0xff, 0xfe, 0x00])]);
    let mut a = open_archive(&data).unwrap();
    assert!(matches!(entry_text(&mut a, "bom.xml"), Err(EntryFailure::Unreadable(_))));
    match read_entry(&mut a, OdbEntry::Bom) {
        Err(e) => assert_eq!(e.message(), "Failed to read bom.xml: stream did not contain valid UTF-8"),
        Ok(_) => panic!("expected an error"),
    }
}

#[test]
fn read_entry_gives_text() {
    let data = zip_of(&[("netlist.xml", b"<netlist></netlist>")]);
    let mut a = open_archive(&data).unwrap();
    assert_eq!(read_entry(&mut a, OdbEntry::Netlist).unwrap(), "<netlist></netlist>");
    match read_entry(&mut a, OdbEntry::Stackup) {
        Err(e) => assert_eq!(e.message(), "stackup.xml not found: specified file not found in archive"),
        Ok(_) => panic!("expected an error"),
    }
}

#[test]
fn not_a_zip_archive() {
    assert!(open_archive(b"not a zip").is_err());
    match parse_odb_archive(b"not a zip", &all_ok()) {
        Err(e) => {
            assert!(matches!(e, OdbError::ArchiveOpen(_)));
            assert!(e.message().starts_with("Failed to open ODB++ archive: "));
        }
        Ok(_) => panic!("expected an error"),
    }
}

#[test]
fn archive_without_stackup() {
    let data = zip_of(&[("netlist.xml", b"<netlist/>")]);
    match parse_odb_archive(&data, &all_ok()) {
        Err(e) => assert!(matches!(e, OdbError::EntryMissing(OdbEntry::Stackup, _))),
        Ok(_) => panic!("expected an error"),
    }
}

#[test]
fn undecodable_stackup() {
    let data = zip_of(&[("stackup.xml", b"<stackup>")]);
    let d = fixed(false, true, true);
    match parse_odb_archive(&data, &d) {
        Err(e) => assert_eq!(e.message(), "Failed to parse stackup.xml: cannot decode 9 chars"),
        Ok(_) => panic!("expected an error"),
    }
    let mut a = open_archive(&data).unwrap();
    assert!(matches!(parse_stackup(&mut a, &d.stackup), Err(OdbError::XmlInvalid(OdbEntry::Stackup, _))));
}

#[test]
fn archive_with_stackup_only() {
    let data = zip_of(&[("stackup.xml", b"<stackup/>"), ("layers/Top/a.gds", b"g")]);
    let parsed = parse_odb_archive(&data, &all_ok()).unwrap();
    assert_eq!(parsed.file.version, "1.0");
    assert_eq!(f32::from_bits(parsed.unit_multiplier.0), 1.0);
    assert_eq!(parsed.file.stackup.layers.len(), 2);
    assert_eq!(parsed.file.stackup.layers[1].name, "Bottom");
    assert!(parsed.file.layers.is_empty());
    assert!(parsed.file.netlist.is_none());
    assert!(parsed.file.bom.is_none());
    assert!(parsed.layer_names().is_empty());
}

#[test]
fn archive_with_netlist_and_bom() {
    let data = zip_of(&[("stackup.xml", b"<stackup/>"), ("netlist.xml", b"<n/>"), ("bom.xml", b"<b/>")]);
    let parsed = parse_odb_archive(&data, &all_ok()).unwrap();
    assert!(parsed.file.netlist.is_some());
    assert!(parsed.file.bom.is_some());
    let d = fixed(true, false, false);
    let parsed = parse_odb_archive(&data, &d).unwrap();
    assert!(parsed.file.netlist.is_none());
    assert!(parsed.file.bom.is_none());
}

#[test]
fn layer_walk_over_the_archive() {
    let data = zip_of(&[("stackup.xml", b"<stackup/>"), ("layers/Top/a.gds", b"g"), ("layers/Top/b.txt", b"t")]);
    let mut a = open_archive(&data).unwrap();
    assert!(parse_layer_geometries(&mut a, "layers/Top/").unwrap().is_empty());
    let stackup = parse_stackup(&mut a, &all_ok().stackup).unwrap();
    let layers = extract_layers(&mut a, &stackup).unwrap();
    assert!(layers.is_empty());
    assert_eq!(archive_len(&a), 3);
    let _ = Polarity::Positive;
}

#[test]
fn unreadable_entry_fails_the_layer_walk() {
    let mut data = zip_of(&[("stackup.xml", b"<stackup/>"), ("layers/Top/a.gds", b"g")]);
    let sig = [0x50u8, 0x4b, 0x03, 0x04];
    let second = data.windows(4).enumerate().filter(|(_, w)| *w == sig).map(|(i, _)| i).nth(1).unwrap();
    data[second + 3] = 0x05;
    let mut a = open_archive(&data).unwrap();
    assert_eq!(archive_len(&a), 2);
    assert!(entry_name(&mut a, 1).is_err());
    assert!(matches!(parse_layer_geometries(&mut a, "layers/Top/"), Err(OdbError::ArchiveEntry(_))));
    match parse_odb_archive(&data, &all_ok()) {
        Err(e) => {
            assert!(matches!(e, OdbError::ArchiveEntry(_)));
            assert!(e.message().starts_with("Failed to read archive entry: "));
        }
        Ok(_) => panic!("expected an error"),
    }
    let empty = odb::model::OdbStackup { layers: vec![] };
    assert!(extract_layers(&mut a, &empty).unwrap().is_empty());
}

fn count_geometries(layer: &OdbLayer, _unit_multiplier: F32Bits) -> Result<usize, String> {
    Ok(layer.geometries.len())
}

fn any(converted: &usize) -> bool {
    *converted > 0
}

/// Counts a layer's geometries; a layer with any is drawable.
fn counting() -> LayerConverter<fn(&OdbLayer, F32Bits) -> Result<usize, String>, fn(&usize) -> bool> {
    LayerConverter { convert: count_geometries, has_geometry: any }
}

#[test]
fn reading_and_converting_an_archive_finds_nothing_to_draw() {
    let data = zip_of(&[("stackup.xml", b"<stackup/>"), ("layers/Top/a.gds", b"g"), ("layers/Bottom/b.gds", b"g")]);
    match parse_odb_with_offset(&data, &all_ok(), &counting()) {
        Err(e) => assert!(matches!(e, OdbError::NoGeometry)),
        Ok(_) => panic!("expected an error"),
    }
    match odb::parse_odb_layer_impl(&data, &all_ok(), &counting()) {
        Err(e) => assert_eq!(e.message(), "ODB++ file contains no valid geometry data"),
        Ok(_) => panic!("expected an error"),
    }
    match parse_odb_with_offset(b"PK", &all_ok(), &counting()) {
        Err(e) => assert!(matches!(e, OdbError::ArchiveOpen(_))),
        Ok(_) => panic!("expected an error"),
    }
    let no_stackup = zip_of(&[("bom.xml", b"<b/>")]);
    match parse_odb_with_offset(&no_stackup, &all_ok(), &counting()) {
        Err(e) => assert_eq!(e.message(), "stackup.xml not found: specified file not found in archive"),
        Ok(_) => panic!("expected an error"),
    }
}
