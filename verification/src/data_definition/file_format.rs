use crate::text::ends_with;
use vstd::prelude::*;

verus! {

/// The formats in which points are kept in files.
#[derive(PartialEq, Eq, Clone, Copy, Debug, Structural)]
pub enum FileFormat {
    /// A matrix file with the arrays `X` and `y`.
    Matlab,
    /// Comma separated values, a record for each point.
    Csv,
}

/// The format that a file name asks for by its ending: a matrix file for
/// `mat`, comma separated values for `csv`.
pub open spec fn format_of(file_name: Seq<char>) -> Option<FileFormat> {
    if "mat"@.is_suffix_of(file_name) {
        Some(FileFormat::Matlab)
    } else if "csv"@.is_suffix_of(file_name) {
        Some(FileFormat::Csv)
    } else {
        None
    }
}

/// What is reported when a file is read whose name asks for no format.
pub open spec fn unrecognized_text() -> Seq<char> {
    "Extension not recognized. Attempted to load as CSV"@
}

/// The format in which a file of this name is written, if the name asks for
/// one.
pub fn format_for_saving(file_name: &str) -> (r: Option<FileFormat>)
    ensures
        r == format_of(file_name@),
{
    if ends_with(file_name, "mat") {
        Some(FileFormat::Matlab)
    } else if ends_with(file_name, "csv") {
        Some(FileFormat::Csv)
    } else {
        None
    }
}

/// The format in which a file of this name is read, and what there is to
/// report: a file whose name asks for no format is read as comma separated
/// values, and that is reported.
pub fn format_for_loading(file_name: &str) -> (r: (FileFormat, Option<&'static str>))
    ensures
        match format_of(file_name@) {
            Some(format) => r.0 == format && r.1.is_none(),
            None => r.0 == FileFormat::Csv && r.1.is_some() && r.1.unwrap()@
                == unrecognized_text(),
        },
{
    match format_for_saving(file_name) {
        Some(format) => (format, None),
        None => (FileFormat::Csv, Some("Extension not recognized. Attempted to load as CSV")),
    }
}

} // verus!
