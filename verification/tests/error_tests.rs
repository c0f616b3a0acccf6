use odb::error::{OdbEntry, OdbError};

#[test]
fn entry_paths() {
    assert_eq!(OdbEntry::Stackup.path(), "stackup.xml");
    assert_eq!(OdbEntry::Netlist.path(), "netlist.xml");
    assert_eq!(OdbEntry::Bom.path(), "bom.xml");
}

#[test]
fn error_messages() {
    assert_eq!(OdbError::ArchiveOpen("bad".to_string()).message(), "Failed to open ODB++ archive: bad");
    assert_eq!(
        OdbError::EntryMissing(OdbEntry::Stackup, "specified file not found in archive".to_string()).message(),
        "stackup.xml not found: specified file not found in archive"
    );
    assert_eq!(
        OdbError::EntryUnreadable(OdbEntry::Netlist, "stream did not contain valid UTF-8".to_string()).message(),
        "Failed to read netlist.xml: stream did not contain valid UTF-8"
    );
    assert_eq!(OdbError::XmlInvalid(OdbEntry::Bom, "eof".to_string()).message(), "Failed to parse bom.xml: eof");
    assert_eq!(OdbError::ArchiveEntry("x".to_string()).message(), "Failed to read archive entry: x");
    assert_eq!(OdbError::NoGeometry.message(), "ODB++ file contains no valid geometry data");
}
