//! Errors of reading an ODB++ archive, and the messages they are shown with.
use vstd::prelude::*;

verus! {

/// The XML entries that an ODB++ archive is read from.
#[derive(Clone, Copy, Debug, PartialEq, Eq, Structural)]
pub enum OdbEntry {
    Stackup,
    Netlist,
    Bom,
}

/// The archive path of an entry.
pub open spec fn entry_path(entry: OdbEntry) -> Seq<char> {
    match entry {
        OdbEntry::Stackup => "stackup.xml"@,
        OdbEntry::Netlist => "netlist.xml"@,
        OdbEntry::Bom => "bom.xml"@,
    }
}

impl OdbEntry {
    /// The archive path of this entry.
    pub fn path(self) -> (p: &'static str)
        ensures
            p@ == entry_path(self),
    {
        match self {
            OdbEntry::Stackup => "stackup.xml",
            OdbEntry::Netlist => "netlist.xml",
            OdbEntry::Bom => "bom.xml",
        }
    }
}

/// Why an ODB++ archive could not be read or converted. The strings are the
/// messages of the underlying ZIP or XML layer.
#[derive(Debug)]
pub enum OdbError {
    /// The bytes are not a ZIP archive.
    ArchiveOpen(String),
    /// The entry could not be found in the archive.
    EntryMissing(OdbEntry, String),
    /// The entry was found but could not be read as text.
    EntryUnreadable(OdbEntry, String),
    /// The entry's XML could not be decoded.
    XmlInvalid(OdbEntry, String),
    /// An entry of the archive could not be opened while listing a layer.
    ArchiveEntry(String),
    /// No layer carries geometry.
    NoGeometry,
}

/// The message an error is shown with.
pub open spec fn error_message(e: OdbError) -> Seq<char> {
    match e {
        OdbError::ArchiveOpen(d) => "Failed to open ODB++ archive: "@ + d@,
        OdbError::EntryMissing(entry, d) => entry_path(entry) + " not found: "@ + d@,
        OdbError::EntryUnreadable(entry, d) => "Failed to read "@ + entry_path(entry) + ": "@ + d@,
        OdbError::XmlInvalid(entry, d) => "Failed to parse "@ + entry_path(entry) + ": "@ + d@,
        OdbError::ArchiveEntry(d) => "Failed to read archive entry: "@ + d@,
        OdbError::NoGeometry => "ODB++ file contains no valid geometry data"@,
    }
}

impl OdbError {
    /// The message this error is shown with.
    pub fn message(&self) -> (m: String)
        ensures
            m@ == error_message(*self),
    {
        match self {
            OdbError::ArchiveOpen(d) => {
                let mut m = String::from_str("Failed to open ODB++ archive: ");
                m.append(d.as_str());
                m
            },
            OdbError::EntryMissing(entry, d) => {
                let mut m = String::from_str(entry.path());
                m.append(" not found: ");
                m.append(d.as_str());
                m
            },
            OdbError::EntryUnreadable(entry, d) => {
                let mut m = String::from_str("Failed to read ");
                m.append(entry.path());
                m.append(": ");
                m.append(d.as_str());
                m
            },
            OdbError::XmlInvalid(entry, d) => {
                let mut m = String::from_str("Failed to parse ");
                m.append(entry.path());
                m.append(": ");
                m.append(d.as_str());
                m
            },
            OdbError::ArchiveEntry(d) => {
                let mut m = String::from_str("Failed to read archive entry: ");
                m.append(d.as_str());
                m
            },
            OdbError::NoGeometry => String::from_str("ODB++ file contains no valid geometry data"),
        }
    }
}

} // verus!
